use nes_rs::cpu::CpuQueryItem;

fn setup() -> CpuQueryItem {
    let mut query = CpuQueryItem::default();
    query.cpu.pc = 0x00;
    query
}

#[test]
fn acc() {
    let mut query = setup();

    assert_eq!(query.acc(), (None, false));
}

#[test]
fn imp() {
    let mut query = setup();

    assert_eq!(query.imp(), (None, false));
}

#[test]
fn imm() {
    let mut query = setup();

    assert_eq!(query.imm(), (Some(0x00), false));
    assert_eq!(query.imm(), (Some(0x01), false));
}

#[test]
fn rel() {
    let mut query = setup();

    query.bus_write(0x0, 0x34);
    assert_eq!(query.rel(), (Some(0x34), false));

    query.cpu.pc = 0x34;
    query.bus_write(0x34, 0xFB);
    assert_eq!(query.rel(), (Some(0xFFFB), false));
}

#[test]
fn abs() {
    let mut query = setup();

    query.bus_write(0x0, 0x34);
    query.bus_write(0x1, 0x4A);
    assert_eq!(query.abs(), (Some(0x4A34), false));
    assert_eq!(query.cpu.pc, 0x02);

    query.cpu.pc = 0x34;
    query.bus_write(0x34, 0xFB);
    query.bus_write(0x35, 0x12);
    assert_eq!(query.abs(), (Some(0x12FB), false));
    assert_eq!(query.cpu.pc, 0x36);
}

#[test]
fn abx() {
    let mut query = setup();

    query.cpu.x = 0x45;
    query.bus_write(0x0, 0x34);
    query.bus_write(0x1, 0x00);
    assert_eq!(query.abx(), (Some(0x0079), false));
    assert_eq!(query.cpu.pc, 0x2);

    query.cpu.pc = 0x1034;
    query.cpu.x = 0xFC;
    query.bus_write(0x1034, 0x0B);
    query.bus_write(0x1035, 0xFF);
    assert_eq!(query.abx(), (Some(0x0007), true));
    assert_eq!(query.cpu.pc, 0x1036);
}

#[test]
fn aby() {
    let mut query = setup();

    query.cpu.y = 0x45;
    query.bus_write(0x0, 0x34);
    query.bus_write(0x1, 0x3A);
    assert_eq!(query.aby(), (Some(0x3A79), false));
    assert_eq!(query.cpu.pc, 0x2);

    query.cpu.pc = 0x34;
    query.cpu.y = 0xFC;
    query.bus_write(0x34, 0x0B);
    query.bus_write(0x35, 0xFF);
    assert_eq!(query.aby(), (Some(0x0007), true));
    assert_eq!(query.cpu.pc, 0x36);
}

#[test]
fn zp0() {
    let mut query = setup();

    query.bus_write(0x00, 0x35);
    assert_eq!(query.zp0(), (Some(0x0035), false));
    assert_eq!(query.cpu.pc, 0x01);

    query.cpu.pc = 0x56;
    query.bus_write(0x56, 0xEF);
    assert_eq!(query.zp0(), (Some(0x00EF), false));
    assert_eq!(query.cpu.pc, 0x57);
}

#[test]
fn zpx() {
    let mut query = setup();

    query.cpu.x = 0xA1;
    query.bus_write(0x00, 0x35);
    assert_eq!(query.zpx(), (Some(0x00D6), false));
    assert_eq!(query.cpu.pc, 0x01);

    query.cpu.pc = 0x56;
    query.cpu.x = 0x3D;
    query.bus_write(0x56, 0xEF);
    assert_eq!(query.zpx(), (Some(0x002C), false));
    assert_eq!(query.cpu.pc, 0x57);
}

#[test]
fn zpy() {
    let mut query = setup();

    query.cpu.y = 0xA1;
    query.bus_write(0x00, 0x35);
    assert_eq!(query.zpy(), (Some(0x00D6), false));
    assert_eq!(query.cpu.pc, 0x01);

    query.cpu.pc = 0x56;
    query.cpu.y = 0x3D;
    query.bus_write(0x56, 0xEF);
    assert_eq!(query.zpy(), (Some(0x002C), false));
    assert_eq!(query.cpu.pc, 0x57);
}

#[test]
fn ind() {
    let mut query = setup();

    query.bus_write(0x00, 0x35);
    query.bus_write(0x01, 0x0A);
    query.bus_write(0x0A35, 0x34);
    query.bus_write(0x0A36, 0x12);
    assert_eq!(query.ind(), (Some(0x1234), false));
    assert_eq!(query.cpu.pc, 0x02);

    query.cpu.pc = 0x56;
    query.bus_write(0x56, 0x12);
    query.bus_write(0x57, 0x10);
    query.bus_write(0x1012, 0x12);
    query.bus_write(0x1013, 0xFE);
    assert_eq!(query.ind(), (Some(0xFE12), false));
    assert_eq!(query.cpu.pc, 0x58);

    // test for the indirect addr mode bug
    // when pointing to an address of the form 0xXXFF
    // instead of reading into the next page it wraps to
    // the first byte of the current page
    query.cpu.pc = 0x12;
    query.bus_write(0x12, 0xFF);
    query.bus_write(0x13, 0x12);
    query.bus_write(0x12FF, 0x34);
    query.bus_write(0x1200, 0x12);
    assert_eq!(query.ind(), (Some(0x1234), false));
    assert_eq!(query.cpu.pc, 0x14);
}

#[test]
fn idx() {
    let mut query = setup();

    query.cpu.x = 0x1A;
    query.bus_write(0x00, 0x2B);
    query.bus_write(0x45, 0x34);
    query.bus_write(0x46, 0x12);
    assert_eq!(query.idx(), (Some(0x1234), false));
    assert_eq!(query.cpu.pc, 0x01);

    query.cpu.pc = 0x12;
    query.cpu.x = 0xE3;
    query.bus_write(0x12, 0x2B);
    query.bus_write(0x0E, 0x34);
    query.bus_write(0x0F, 0x12);
    assert_eq!(query.idx(), (Some(0x1234), false));
    assert_eq!(query.cpu.pc, 0x13);
}

#[test]
fn idy() {
    let mut query = setup();

    query.cpu.y = 0x1A;
    query.bus_write(0x00, 0x2B);
    query.bus_write(0x2B, 0x34);
    query.bus_write(0x2C, 0x12);
    assert_eq!(query.idy(), (Some(0x124E), false));
    assert_eq!(query.cpu.pc, 0x01);

    query.cpu.pc = 0x14;
    query.cpu.y = 0x01;
    query.bus_write(0x14, 0xAB);
    query.bus_write(0x00AB, 0xFF);
    query.bus_write(0x00AC, 0x12);
    assert_eq!(query.idy(), (Some(0x1300), true));
    assert_eq!(query.cpu.pc, 0x15);

    query.cpu.pc = 0x16;
    query.cpu.y = 0x00;
    query.bus_write(0x16, 0xFF);
    query.bus_write(0x00FF, 0xAD);
    query.bus_write(0x0000, 0xDE);
    assert_eq!(query.idy(), (Some(0xDEAD), false));
    assert_eq!(query.cpu.pc, 0x17);
}

use vstd::prelude::*;

use crate::cartridge::mapper::Mapper;
use crate::cartridge::Mirroring;
use crate::ppu::palette_slot;
use crate::ppu::PpuQueryItem;

verus! {

/// No mapper answers a PPU read from 0x2000 on, and none takes or is
/// changed by a PPU write there: the name tables are the PPU's own.
pub proof fn lemma_mapper_leaves_name_tables(m: Mapper, addr: u16, data: u8)
    requires
        addr >= 0x2000,
    ensures
        m.spec_ppu_map_read(addr).is_none(),
        m.spec_ppu_map_write(addr, data) == (m, false),
{
}

/// The four logical name tables fold onto the two banks as the mirroring
/// says: horizontally the first two share bank 0 and the last two bank 1;
/// vertically the first and third share bank 0 and the second and fourth
/// bank 1; with one screen all four share one bank.
pub proof fn lemma_mirroring_banks(offset: u16)
    requires
        offset < 0x400,
    ensures
        Mirroring::Horizontal.spec_bank((0x2000 + offset) as u16) == 0,
        Mirroring::Horizontal.spec_bank((0x2400 + offset) as u16) == 0,
        Mirroring::Horizontal.spec_bank((0x2800 + offset) as u16) == 1,
        Mirroring::Horizontal.spec_bank((0x2C00 + offset) as u16) == 1,
        Mirroring::Vertical.spec_bank((0x2000 + offset) as u16) == 0,
        Mirroring::Vertical.spec_bank((0x2400 + offset) as u16) == 1,
        Mirroring::Vertical.spec_bank((0x2800 + offset) as u16) == 0,
        Mirroring::Vertical.spec_bank((0x2C00 + offset) as u16) == 1,
        forall|a: u16| Mirroring::OneScreenLo.spec_bank(a) == 0,
        forall|a: u16| Mirroring::OneScreenHi.spec_bank(a) == 1,
{
}

/// A byte written to a name-table address is read back at every address
/// of the name-table range that the mirroring folds onto the same bank at
/// the same offset, and a read anywhere else in the range gives what it
/// gave before; the write does not change the mirroring.
pub proof fn lemma_name_table_mirroring(s: PpuQueryItem, a: u16, b: u16, data: u8)
    requires
        0x2000 <= a < 0x3000,
        0x2000 <= b < 0x3000,
    ensures
        ({
            let m = s.spec_mirroring();
            let w = s.spec_ppu_write(a, data);
            &&& w.spec_mirroring() == m
            &&& w.cartridge == s.cartridge
            &&& w.spec_ppu_read(a) == data
            &&& m.spec_bank(a) == m.spec_bank(b) && a % 0x400 == b % 0x400 ==> w.spec_ppu_read(b)
                == data
            &&& !(m.spec_bank(a) == m.spec_bank(b) && a % 0x400 == b % 0x400) ==> w.spec_ppu_read(b)
                == s.spec_ppu_read(b)
        }),
{
    let m = s.spec_mirroring();
    let w = s.spec_ppu_write(a, data);
    match s.cartridge {
        Some(c) => {
            lemma_mapper_leaves_name_tables(c.mapper, a, data);
            lemma_mapper_leaves_name_tables(c.mapper, b, data);
            assert(c.spec_ppu_write(a, data).0 == c);
        },
        None => {},
    }
    assert(w == s.spec_name_table_write(m, a, data));
    let ba = m.spec_bank(a);
    let bb = m.spec_bank(b);
    assert(0 <= ba < 2 && 0 <= bb < 2);
    let bank = s.ppu.name_table[ba];
    assert(w.ppu.name_table@ == s.ppu.name_table@.update(ba, bank.spec_write(a, data)));
    crate::mem::lemma_mem_write_read::<0x400>(bank, a, data, b);
    crate::mem::lemma_mem_write_read::<0x400>(bank, a, data, a);
}

/// Palette addresses 0x3F10, 0x3F14, 0x3F18 and 0x3F1C fall on the same
/// places as 0x3F00, 0x3F04, 0x3F08 and 0x3F0C, and the whole range repeats
/// every 32 bytes.
pub proof fn lemma_palette_slots(addr: u16)
    ensures
        palette_slot(0x3F10) == palette_slot(0x3F00),
        palette_slot(0x3F14) == palette_slot(0x3F04),
        palette_slot(0x3F18) == palette_slot(0x3F08),
        palette_slot(0x3F1C) == palette_slot(0x3F0C),
        palette_slot(addr) < 32,
        addr <= 0xFFDF ==> palette_slot((addr + 32) as u16) == palette_slot(addr),
{
}

/// A byte written to a palette address is read back at every palette
/// address that falls on the same place, and a read at any other palette
/// address gives what it gave before.
pub proof fn lemma_palette_mirroring(s: PpuQueryItem, a: u16, b: u16, data: u8)
    requires
        0x3F00 <= a <= 0x3FFF,
        0x3F00 <= b <= 0x3FFF,
    ensures
        palette_slot(a) == palette_slot(b) ==> s.spec_ppu_write(a, data).spec_ppu_read(b) == data,
        palette_slot(a) != palette_slot(b) ==> s.spec_ppu_write(a, data).spec_ppu_read(b)
            == s.spec_ppu_read(b),
{
    let w = s.spec_ppu_write(a, data);
    assert(palette_slot(a) < 32 && palette_slot(b) < 32);
    assert(w.ppu.palette_table@ == s.ppu.palette_table@.update(palette_slot(a) as int, data));
}

} // verus!

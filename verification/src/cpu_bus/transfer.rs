use vstd::prelude::*;

use crate::cpu_bus::dma::Dma;
use crate::cpu_bus::dma::DmaStatus;
use crate::cpu_bus::CpuBusQueryItem;
use crate::ppu::oam::lemma_oam_write_read;
use crate::ppu::PpuQueryItem;

verus! {

impl CpuBusQueryItem {
    /// The bus after `n` CPU cycles in a row of an OAM transfer, the first
    /// of them an odd cycle or not as `first_odd` says.
    pub open spec fn spec_dma_cycles(self, first_odd: bool, n: nat) -> Self
        decreases n,
    {
        if n == 0 {
            self
        } else {
            self.spec_dma_cycles(first_odd, (n - 1) as nat).spec_dma_cycle(
                first_odd != ((n - 1) % 2 == 1),
            )
        }
    }

    /// How many cycles pass before the first byte is read: one where the
    /// first cycle is odd, else two.
    pub open spec fn spec_dma_lead(first_odd: bool) -> nat {
        if first_odd {
            1
        } else {
            2
        }
    }

    /// Whether the transfer's page lies in work RAM or in the cartridge,
    /// where a read changes nothing: the pages from 0x20 to 0x40 hold the
    /// registers of the PPU, the APU and the controller.
    pub open spec fn spec_dma_plain_page(self) -> bool {
        self.dma.page < 0x20 || self.dma.page > 0x40
    }

    /// Where a transfer that began on this bus stands after `j` bytes, as
    /// seen on the bus `t`: it is at byte `j` of the page, the first `j`
    /// bytes of the page are in OAM at their places, the later bytes of OAM
    /// are as they were, and work RAM and cartridge are as they were.
    pub open spec fn spec_dma_copied(self, t: Self, j: int) -> bool {
        &&& t.wram == self.wram
        &&& t.ppu.cartridge == self.ppu.cartridge
        &&& t.dma.page == self.dma.page
        &&& t.dma.addr == j % 256
        &&& t.dma.status == (if j < 256 {
            DmaStatus::Transfering
        } else {
            DmaStatus::Inactive
        })
        &&& forall|i: u8|
            i < j ==> #[trigger] t.ppu.ppu.oam.spec_read_byte(i) == self.spec_peek(
                (self.dma.page * 256 + i) as u16,
            )
        &&& forall|i: u8|
            j <= i ==> #[trigger] t.ppu.ppu.oam.spec_read_byte(i)
                == self.ppu.ppu.oam.spec_read_byte(i)
    }
}

/// One read cycle and one write cycle of a transfer out of work RAM or
/// the cartridge copy the next byte of the page into OAM.
pub proof fn lemma_dma_byte(b: CpuBusQueryItem, t: CpuBusQueryItem, j: int)
    requires
        b.spec_dma_plain_page(),
        0 <= j < 256,
        b.spec_dma_copied(t, j),
    ensures
        b.spec_dma_copied(t.spec_dma_cycle(false).spec_dma_cycle(true), j + 1),
        t.spec_dma_cycle(false).dma.status == DmaStatus::Transfering,
{
    reveal(CpuBusQueryItem::spec_dma_cycle);
    reveal(CpuBusQueryItem::spec_cpu_read);
    reveal(PpuQueryItem::spec_cpu_read);
    let r = t.spec_dma_cycle(false);
    let w = r.spec_dma_cycle(true);
    assert(r == t.spec_dma_read());
    let source = t.dma.spec_source();
    assert(source == b.dma.page * 256 + j);
    assert(source <= 0x1FFF || source >= 0x4100);
    assert(r.dma.data == b.spec_peek(source));
    assert(r.ppu == t.ppu);
    assert(w == r.spec_dma_write());
    assert forall|i: u8| i < j + 1 implies #[trigger] w.ppu.ppu.oam.spec_read_byte(i)
        == b.spec_peek((b.dma.page * 256 + i) as u16) by {
        lemma_oam_write_read(r.ppu.ppu.oam, j as u8, r.dma.data, i);
    }
    assert forall|i: u8| j + 1 <= i implies #[trigger] w.ppu.ppu.oam.spec_read_byte(i)
        == b.ppu.ppu.oam.spec_read_byte(i) by {
        lemma_oam_write_read(r.ppu.ppu.oam, j as u8, r.dma.data, i);
    }
}

/// After the lead a transfer that was asked for is under way, with no
/// byte copied yet.
pub proof fn lemma_dma_begin(b: CpuBusQueryItem, first_odd: bool)
    requires
        b.dma.status == DmaStatus::Idling,
        b.dma.addr == 0,
    ensures
        b.spec_dma_copied(
            b.spec_dma_cycles(first_odd, CpuBusQueryItem::spec_dma_lead(first_odd)),
            0,
        ),
        b.spec_dma_cycles(first_odd, 0).dma.status == DmaStatus::Idling,
        b.spec_dma_cycles(first_odd, 1).dma.status != DmaStatus::Inactive,
{
    reveal(CpuBusQueryItem::spec_dma_cycle);
    let t0 = b.spec_dma_cycles(first_odd, 0);
    let t1 = b.spec_dma_cycles(first_odd, 1);
    assert(t0 == b);
    assert(t1 == t0.spec_dma_cycle(first_odd != false));
    if first_odd {
        assert(t1 == (CpuBusQueryItem { dma: Dma { status: DmaStatus::Transfering, ..b.dma }, ..b }));
    } else {
        assert(t1 == b);
        let t2 = b.spec_dma_cycles(first_odd, 2);
        assert(t2 == t1.spec_dma_cycle(first_odd != true));
        assert(t2 == (CpuBusQueryItem { dma: Dma { status: DmaStatus::Transfering, ..b.dma }, ..b }));
    }
}

/// After the lead and two cycles for each of `j` bytes, a transfer out of
/// work RAM or the cartridge has copied `j` bytes, and it has not ended
/// before.
pub proof fn lemma_dma_progress(b: CpuBusQueryItem, first_odd: bool, j: nat)
    requires
        b.dma.status == DmaStatus::Idling,
        b.dma.addr == 0,
        b.spec_dma_plain_page(),
        j <= 256,
    ensures
        b.spec_dma_copied(
            b.spec_dma_cycles(first_odd, CpuBusQueryItem::spec_dma_lead(first_odd) + 2 * j),
            j as int,
        ),
        forall|k: nat|
            k < CpuBusQueryItem::spec_dma_lead(first_odd) + 2 * j ==> (#[trigger] b.spec_dma_cycles(
                first_odd,
                k,
            )).dma.status != DmaStatus::Inactive,
    decreases j,
{
    let lead = CpuBusQueryItem::spec_dma_lead(first_odd);
    if j == 0 {
        lemma_dma_begin(b, first_odd);
        assert forall|k: nat| k < lead implies (#[trigger] b.spec_dma_cycles(
            first_odd,
            k,
        )).dma.status != DmaStatus::Inactive by {
            if k == 0 {
            } else {
                assert(k == 1);
            }
        }
    } else {
        let i = (j - 1) as nat;
        lemma_dma_progress(b, first_odd, i);
        let n = lead + 2 * i;
        let t = b.spec_dma_cycles(first_odd, n);
        let r = b.spec_dma_cycles(first_odd, n + 1);
        let w = b.spec_dma_cycles(first_odd, n + 2);
        assert((first_odd != (n % 2 == 1)) == false);
        assert((first_odd != ((n + 1) % 2 == 1)) == true);
        assert(r == t.spec_dma_cycle(false));
        assert(w == r.spec_dma_cycle(true));
        lemma_dma_byte(b, t, i as int);
        assert(lead + 2 * j == n + 2);
        assert forall|k: nat| k < n + 2 implies (#[trigger] b.spec_dma_cycles(
            first_odd,
            k,
        )).dma.status != DmaStatus::Inactive by {
            if k < n {
            } else if k == n {
            } else {
                assert(k == n + 1);
            }
        }
    }
}

/// An OAM transfer out of work RAM or the cartridge copies exactly the 256
/// bytes of its page, byte `i` of the page to byte `i` of OAM, and ends
/// after 513 CPU cycles where it begins on an odd cycle and after 514 where
/// it begins on an even one, and not before.
pub proof fn lemma_dma_copies_page(b: CpuBusQueryItem, first_odd: bool)
    requires
        b.dma.status == DmaStatus::Idling,
        b.dma.addr == 0,
        b.spec_dma_plain_page(),
    ensures
        ({
            let n: nat = if first_odd {
                513
            } else {
                514
            };
            let end = b.spec_dma_cycles(first_odd, n);
            &&& end.dma.status == DmaStatus::Inactive
            &&& end.wram == b.wram
            &&& forall|i: u8| #[trigger]
                end.ppu.ppu.oam.spec_read_byte(i) == b.spec_peek(
                    (b.dma.page * 256 + i) as u16,
                )
            &&& forall|k: nat|
                k < n ==> (#[trigger] b.spec_dma_cycles(first_odd, k)).dma.status
                    != DmaStatus::Inactive
        }),
{
    lemma_dma_progress(b, first_odd, 256);
}

} // verus!

use vstd::prelude::*;

use crate::bits::byte_of;
use crate::bits::lemma_replace_byte;
use crate::bits::replace_byte;
use crate::bits::spec_byte_of;
use crate::bits::spec_replace_byte;

verus! {

/// One sprite of the object attribute memory, four bytes packed in a word:
/// y in the lowest byte, then the tile, the attribute, and x on top.
#[derive(Debug, Clone, Copy, PartialEq, Eq, Structural)]
pub struct OamEntry(pub u32);

impl Default for OamEntry {
    fn default() -> (r: Self)
        ensures
            r.0 == 0,
    {
        OamEntry(0)
    }
}

impl OamEntry {
    /// The byte at place `k` of the entry: 0 is y, 1 the tile, 2 the
    /// attribute, 3 is x.
    pub open spec fn spec_byte(self, k: int) -> u8 {
        spec_byte_of(self.0, k)
    }

    /// The entry with the byte at place `k` (0 to 3) replaced.
    pub open spec fn spec_with_byte(self, k: int, data: u8) -> Self {
        OamEntry(spec_replace_byte(self.0, k, data))
    }

    #[verifier::allow_in_spec]
    pub fn y(&self) -> u8
        returns
            self.spec_byte(0),
    {
        byte_of(self.0, 0)
    }

    #[verifier::allow_in_spec]
    pub fn tile_id(&self) -> u8
        returns
            self.spec_byte(1),
    {
        byte_of(self.0, 1)
    }

    #[verifier::allow_in_spec]
    pub fn attribute(&self) -> u8
        returns
            self.spec_byte(2),
    {
        byte_of(self.0, 2)
    }

    #[verifier::allow_in_spec]
    pub fn x(&self) -> u8
        returns
            self.spec_byte(3),
    {
        byte_of(self.0, 3)
    }

    pub fn set_y(&mut self, value: u8)
        ensures
            *final(self) == old(self).spec_with_byte(0, value),
    {
        self.0 = replace_byte(self.0, 0, value);
    }

    pub fn set_tile_id(&mut self, value: u8)
        ensures
            *final(self) == old(self).spec_with_byte(1, value),
    {
        self.0 = replace_byte(self.0, 1, value);
    }

    pub fn set_attribute(&mut self, value: u8)
        ensures
            *final(self) == old(self).spec_with_byte(2, value),
    {
        self.0 = replace_byte(self.0, 2, value);
    }

    pub fn set_x(&mut self, value: u8)
        ensures
            *final(self) == old(self).spec_with_byte(3, value),
    {
        self.0 = replace_byte(self.0, 3, value);
    }
}

/// A byte written to an entry is read back at its place, and the other
/// three bytes stay.
pub proof fn lemma_oam_entry_bytes(e: OamEntry, k: int, data: u8, j: int)
    requires
        0 <= k < 4,
        0 <= j < 4,
    ensures
        e.spec_with_byte(k, data).spec_byte(k) == data,
        j != k ==> e.spec_with_byte(k, data).spec_byte(j) == e.spec_byte(j),
{
    lemma_replace_byte(e.0, k, data, j);
}

/// The object attribute memory: sixty-four sprites, 256 bytes in all.
pub struct Oam {
    pub entries: [OamEntry; 64],
}

/// A walk through the sprites of an `Oam`, in order.
pub struct OamIterator<'a> {
    pub oam: &'a Oam,
    pub index: usize,
}

impl<'a> OamIterator<'a> {
    /// The next sprite, or nothing once all sixty-four are through.
    pub fn next(&mut self) -> (r: Option<&'a OamEntry>)
        ensures
            old(self).index < 64 ==> r == Some(&old(self).oam.entries[old(self).index as int])
                && final(self).index == old(self).index + 1,
            old(self).index >= 64 ==> r.is_none() && final(self).index == old(self).index,
            final(self).oam == old(self).oam,
    {
        if self.index < 64 {
            let i: usize = self.index;
            self.index = i + 1;
            Some(&self.oam.entries[i])
        } else {
            None
        }
    }
}

impl Default for Oam {
    fn default() -> (r: Self)
        ensures
            forall|i: int| 0 <= i < 64 ==> r.entries[i] == OamEntry(0),
    {
        // Written entry by entry, so that each one is known to be zero.
        let mut entries = [OamEntry(0); 64];
        let mut i: usize = 0;
        while i < 64
            invariant
                i <= 64,
                forall|j: int| 0 <= j < i ==> entries[j] == OamEntry(0),
            decreases 64 - i,
        {
            entries[i] = OamEntry(0);
            i = i + 1;
        }
        Oam { entries }
    }
}

impl Oam {
    /// The memory after a write of `data` at byte `index`: the byte goes to
    /// place `index mod 4` of sprite `index / 4`.
    pub open spec fn spec_write_byte(self, index: u8, data: u8) -> Self {
        Oam {
            entries: vstd::array::spec_array_update(
                self.entries,
                index as int / 4,
                self.entries[index as int / 4].spec_with_byte(index as int % 4, data),
            ),
        }
    }

    /// The byte at `index`, as a write at `index` leaves it.
    pub open spec fn spec_read_byte(self, index: u8) -> u8 {
        self.entries[index as int / 4].spec_byte(index as int % 4)
    }

    pub fn iter(&self) -> (r: OamIterator<'_>)
        ensures
            r.oam == self,
            r.index == 0,
    {
        OamIterator { oam: self, index: 0 }
    }

    /// The sprite at `index`; only the low six bits of `index` count.
    pub fn get_entry(&self, index: u8) -> (r: OamEntry)
        ensures
            r == self.entries[index as int % 64],
    {
        let index: u8 = index % 64;
        self.entries[index as usize]
    }

    pub fn write_byte(&mut self, index: u8, data: u8)
        ensures
            *final(self) == old(self).spec_write_byte(index, data),
    {
        let entry_index: usize = (index / 4) as usize;
        let entry = self.entries[entry_index];
        self.entries[entry_index] = OamEntry(replace_byte(entry.0, index % 4, data));
    }
}

/// A byte written to the memory is read back at its index, and no other
/// byte changes.
pub proof fn lemma_oam_write_read(oam: Oam, index: u8, data: u8, other: u8)
    ensures
        oam.spec_write_byte(index, data).spec_read_byte(index) == data,
        other != index ==> oam.spec_write_byte(index, data).spec_read_byte(other)
            == oam.spec_read_byte(other),
{
    let i = index as int / 4;
    let e = oam.entries[i].spec_with_byte(index as int % 4, data);
    assert(oam.spec_write_byte(index, data).entries@ == oam.entries@.update(i, e));
    lemma_oam_entry_bytes(oam.entries[i], index as int % 4, data, other as int % 4);
}

} // verus!

use vstd::prelude::*;

verus! {

/// Work memory of `S` bytes, mirrored through the address space: an address
/// selects the byte at `address mod S`.
pub struct Ram<const S: usize> {
    pub data: [u8; S],
}

impl<const S: usize> View for Ram<S> {
    type V = Seq<u8>;

    open spec fn view(&self) -> Seq<u8> {
        self.data@
    }
}

impl<const S: usize> Default for Ram<S> {
    /// A bank of zeroes.
    fn default() -> (r: Self)
        ensures
            r@.len() == S,
            forall|i: int| 0 <= i < S ==> r@[i] == 0u8,
    {
        let data = [0u8; S];
        assert(forall|i: int| 0 <= i < S ==> data@[i] == 0u8);
        Ram { data }
    }
}

impl<const S: usize> Ram<S> {
    /// The index in the bank that `addr` falls on.
    pub open spec fn slot(addr: u16) -> int {
        (addr as int) % (S as int)
    }

    /// The byte that a read at `addr` gives.
    pub open spec fn spec_read(self, addr: u16) -> u8 {
        self.data[Self::slot(addr)]
    }

    /// The bank after a write of `data` at `addr`.
    pub open spec fn spec_write(self, addr: u16, data: u8) -> Self {
        Ram { data: vstd::array::spec_array_update(self.data, Self::slot(addr), data) }
    }

    pub fn read(&self, addr: u16) -> (r: u8)
        requires
            S > 0,
        ensures
            r == self.spec_read(addr),
            r == self@[(addr as int) % (S as int)],
    {
        self.data[(addr as usize) % S]
    }

    pub fn write(&mut self, addr: u16, data: u8)
        requires
            S > 0,
        ensures
            *final(self) == old(self).spec_write(addr, data),
            final(self)@ == old(self)@.update((addr as int) % (S as int), data),
    {
        self.data[(addr as usize) % S] = data;
    }
}

/// A write is seen again at the same address and at every address that
/// differs from it by a multiple of the bank's size; all other bytes stay.
pub proof fn lemma_ram_write_read<const S: usize>(m: Ram<S>, addr: u16, data: u8, other: u16)
    requires
        S > 0,
    ensures
        m.spec_write(addr, data).spec_read(addr) == data,
        (other as int) % (S as int) == (addr as int) % (S as int) ==> m.spec_write(
            addr,
            data,
        ).spec_read(other) == data,
        (other as int) % (S as int) != (addr as int) % (S as int) ==> m.spec_write(
            addr,
            data,
        ).spec_read(other) == m.spec_read(other),
{
    let i = Ram::<S>::slot(addr);
    let j = Ram::<S>::slot(other);
    assert(0 <= i < S);
    assert(0 <= j < S);
    assert(m.spec_write(addr, data).data@ == m.data@.update(i, data));
}

/// After a write at `addr`, a read gives the byte back at `addr mod S` (here
/// `base`) and at every address `addr + k * S` (here `other`).
pub proof fn lemma_ram_mirror<const S: usize>(
    m: Ram<S>,
    addr: u16,
    data: u8,
    base: u16,
    k: int,
    other: u16,
)
    requires
        S > 0,
        base as int == (addr as int) % (S as int),
        other as int == addr as int + k * (S as int),
    ensures
        m.spec_write(addr, data).spec_read(base) == data,
        m.spec_write(addr, data).spec_read(other) == data,
{
    let i = Ram::<S>::slot(addr);
    assert(0 <= i < S);
    assert(k * (S as int) == (S as int) * k) by (nonlinear_arith);
    vstd::arithmetic::div_mod::lemma_mod_multiples_vanish(k, addr as int, S as int);
    vstd::arithmetic::div_mod::lemma_mod_twice(addr as int, S as int);
    assert(m.spec_write(addr, data).data@ == m.data@.update(i, data));
}

} // verus!

use vstd::prelude::*;

verus! {

/// Where an OAM transfer stands.
#[derive(Debug, Clone, Copy, PartialEq, Eq, Structural)]
pub enum DmaStatus {
    Inactive,
    Idling,
    Transfering,
}

impl Default for DmaStatus {
    fn default() -> (r: Self)
        ensures
            r == DmaStatus::Inactive,
    {
        DmaStatus::Inactive
    }
}

/// The state of the OAM transfer: the page it reads from, the byte of the
/// page it has come to, the byte last read, and where it stands.
#[derive(Debug, Clone, Copy, PartialEq, Eq, Structural)]
pub struct Dma {
    pub page: u8,
    pub addr: u8,
    pub data: u8,
    pub status: DmaStatus,
}

impl Default for Dma {
    fn default() -> (r: Self)
        ensures
            r == Dma::spec_default(),
    {
        Dma { page: 0, addr: 0, data: 0, status: DmaStatus::Inactive }
    }
}

impl Dma {
    pub open spec fn spec_default() -> Self {
        Dma { page: 0, addr: 0, data: 0, status: DmaStatus::Inactive }
    }

    /// The address that the transfer reads next.
    pub open spec fn spec_source(self) -> u16 {
        (self.page * 0x100 + self.addr) as u16
    }
}

} // verus!

use vstd::prelude::*;

verus! {

/// The addresses that a set of breakpoints holds.
pub uninterp spec fn spec_breakpoints(state: BreakPointState) -> Set<u16>;

/// A set of breakpoints: addresses at which a run of the console stops.
/// The set is kept in a `bevy::utils::HashSet`, which is a hash set of the
/// `hashbrown` crate. This library does not look into it: what the
/// functions below say of it is taken from that crate's documentation and is
/// not proved here.
#[verifier::external_body]
pub struct BreakPointState {
    list: bevy::utils::HashSet<u16>,
}

impl View for BreakPointState {
    type V = Set<u16>;

    open spec fn view(&self) -> Set<u16> {
        spec_breakpoints(*self)
    }
}

impl BreakPointState {
    /// Calls `Default::default` of `bevy::utils::HashSet`, which makes an
    /// empty set.
    #[verifier::external_body]
    fn new() -> (r: Self)
        ensures
            spec_breakpoints(r) == Set::<u16>::empty(),
    {
        BreakPointState { list: bevy::utils::HashSet::default() }
    }

    /// Calls `insert` of `bevy::utils::HashSet`: afterwards the set holds
    /// `addr` and what it held before.
    #[verifier::external_body]
    pub fn add(&mut self, addr: u16)
        ensures
            spec_breakpoints(*final(self)) == spec_breakpoints(*old(self)).insert(addr),
    {
        self.list.insert(addr);
    }

    /// Calls `remove` of `bevy::utils::HashSet`: afterwards the set holds
    /// what it held before but for `index`.
    #[verifier::external_body]
    pub fn remove(&mut self, index: &u16)
        ensures
            spec_breakpoints(*final(self)) == spec_breakpoints(*old(self)).remove(*index),
    {
        self.list.remove(index);
    }

    /// Calls `contains` of `bevy::utils::HashSet`, which says whether the
    /// set holds `addr`.
    #[verifier::external_body]
    pub fn check(&self, addr: u16) -> (r: bool)
        ensures
            r == spec_breakpoints(*self).contains(addr),
    {
        self.list.contains(&addr)
    }
}

impl Default for BreakPointState {
    fn default() -> (r: Self)
        ensures
            r@ == Set::<u16>::empty(),
    {
        BreakPointState::new()
    }
}

} // verus!

//! Route information carried by the header: an ordered list of
//! (system-id, subsystem-id) address pairs, conventionally [source,
//! destination].

use vstd::prelude::*;

verus! {

/// Ordered route entries; the standard route format holds exactly the
/// source pair followed by the destination pair.
#[derive(Debug, PartialEq, Eq)]
pub struct RouteData {
    pub entries: Vec<(u16, u16)>,
}

impl View for RouteData {
    type V = Seq<(u16, u16)>;

    open spec fn view(&self) -> Seq<(u16, u16)> {
        self.entries@
    }
}

impl RouteData {
    /// Appends one (system-id, subsystem-id) address pair to the route.
    pub fn add(&mut self, addr: (u16, u16))
        ensures
            final(self)@ == old(self)@.push(addr),
    {
        self.entries.push(addr);
    }
}

/// A source/destination pair of route addresses.
#[derive(Debug, Default)]
pub struct RouteEntry {
    pub from: (u16, u16),
    pub to: (u16, u16),
}

} // verus!

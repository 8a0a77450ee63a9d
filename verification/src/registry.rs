//! The session registry: the handles of the sessions that are connected and
//! registered, used to fan a payload out to all of them.

use vstd::prelude::*;
use crate::message::{outbound_views, Outbound, OutboundView, Payload, PayloadView};

verus! {

/// The handles after `handle` registered: appended, unless it is there
/// already.
pub open spec fn registered(handles: Seq<u64>, handle: u64) -> Seq<u64> {
    if handles.contains(handle) {
        handles
    } else {
        handles.push(handle)
    }
}

/// The handles after `handle` deregistered: taken out, and unchanged where
/// it was absent.
pub open spec fn deregistered(handles: Seq<u64>, handle: u64) -> Seq<u64> {
    handles.remove_value(handle)
}

/// What a broadcast of `payload` sends: one copy to every handle, in the
/// order of registration.
pub open spec fn fan_out(handles: Seq<u64>, payload: PayloadView) -> Seq<OutboundView> {
    Seq::new(handles.len(), |i: int| OutboundView { to: handles[i], payload })
}

/// The handles of the registered sessions, each at most once.
pub struct SessionRegistry {
    handles: Vec<u64>,
}

impl View for SessionRegistry {
    type V = Seq<u64>;

    closed spec fn view(&self) -> Seq<u64> {
        self.handles@
    }
}

impl SessionRegistry {
    /// The invariant of the registry: no handle occurs twice.
    pub open spec fn wf(&self) -> bool {
        self@.no_duplicates()
    }

    /// A registry without sessions.
    pub fn new() -> (registry: Self)
        ensures
            registry@ == Seq::<u64>::empty(),
            registry.wf(),
    {
        SessionRegistry { handles: Vec::new() }
    }

    /// The number of registered sessions.
    pub fn len(&self) -> (n: usize)
        ensures
            n == self@.len(),
    {
        self.handles.len()
    }

    /// The index of `handle` among the registered sessions.
    fn find(&self, handle: u64) -> (at: Option<usize>)
        ensures
            match at {
                Some(i) => {
                    &&& i < self@.len()
                    &&& self@[i as int] == handle
                    &&& self@.index_of_first(handle) == Some(i as int)
                },
                None => !self@.contains(handle),
            },
    {
        let mut i: usize = 0;
        while i < self.handles.len()
            invariant
                i <= self.handles.len(),
                forall|j: int| 0 <= j < i ==> self@[j] != handle,
            decreases self.handles.len() - i,
        {
            if self.handles[i] == handle {
                proof {
                    self@.index_of_first_ensures(handle);
                }
                return Some(i);
            }
            i += 1;
        }
        None
    }

    /// Whether `handle` is registered.
    pub fn contains(&self, handle: u64) -> (found: bool)
        ensures
            found == self@.contains(handle),
    {
        self.find(handle).is_some()
    }

    /// A snapshot of the registered handles, in the order of registration.
    pub fn handles(&self) -> (handles: Vec<u64>)
        ensures
            handles@ == self@,
    {
        self.handles.clone()
    }

    /// Adds `handle`. A handle that is registered already stays where it is,
    /// so that no session is ever listed twice.
    pub fn register(&mut self, handle: u64)
        requires
            old(self).wf(),
        ensures
            final(self).wf(),
            final(self)@ == registered(old(self)@, handle),
    {
        if !self.contains(handle) {
            self.handles.push(handle);
        }
    }

    /// Removes `handle`; nothing happens where it is absent.
    pub fn deregister(&mut self, handle: u64)
        requires
            old(self).wf(),
        ensures
            final(self).wf(),
            final(self)@ == deregistered(old(self)@, handle),
            !final(self)@.contains(handle),
    {
        match self.find(handle) {
            Some(i) => {
                self.handles.remove(i);
                proof {
                    let before = old(self)@;
                    let after = self@;
                    assert(after == before.remove(i as int));
                    assert forall|j: int| 0 <= j < after.len() implies after[j] != handle by {
                        let j0 = if j < i { j } else { j + 1 };
                        assert(after[j] == before[j0]);
                    }
                }
            },
            None => {
                proof {
                    self@.index_of_first_ensures(handle);
                }
            },
        }
    }

    /// Addresses one copy of `payload` to every registered session, in the
    /// order of registration. Delivery itself is the caller's: one that
    /// fails does not concern the others.
    pub fn broadcast(&self, payload: &Payload) -> (sent: Vec<Outbound>)
        ensures
            outbound_views(sent@) == fan_out(self@, payload@),
    {
        let mut sent: Vec<Outbound> = Vec::new();
        let mut i: usize = 0;
        while i < self.handles.len()
            invariant
                i <= self.handles.len(),
                sent.len() == i,
                forall|k: int| 0 <= k < i ==> sent@[k]@ == (OutboundView { to: self@[k], payload: payload@ }),
            decreases self.handles.len() - i,
        {
            sent.push(Outbound { to: self.handles[i], payload: payload.clone() });
            i += 1;
        }
        assert(outbound_views(sent@) =~= fan_out(self@, payload@));
        sent
    }
}

} // verus!

//! Snapshots of an element's prior state, held behind a wrapper whose
//! destruction is deferred.
use vstd::prelude::*;

verus! {

/// The state and attributes of an element as they were before a change.
#[derive(Clone, Debug, PartialEq, Eq, Structural)]
pub struct Snapshot {
    /// The element's state flags before the change, if they were captured.
    pub state: Option<u64>,
    /// Whether the element's attributes changed.
    pub attrs_changed: bool,
}

/// An optional snapshot. Destroying it only hides the value: the value is
/// released later, together with the wrapper, by its owner.
#[derive(Debug)]
pub struct SnapshotOption {
    snapshot: Option<Snapshot>,
    destroyed: bool,
}

impl SnapshotOption {
    /// The value that is stored, whether or not it was destroyed.
    pub closed spec fn backing(&self) -> Option<Snapshot> {
        self.snapshot
    }

    /// Whether the snapshot was destroyed since it was last created.
    pub closed spec fn is_destroyed(&self) -> bool {
        self.destroyed
    }

    /// What an observer sees: nothing once destroyed, else the stored value.
    pub open spec fn view(&self) -> Option<Snapshot> {
        if self.is_destroyed() {
            None
        } else {
            self.backing()
        }
    }

    /// An empty snapshot.
    pub fn empty() -> (r: SnapshotOption)
        ensures
            r.backing().is_none(),
            !r.is_destroyed(),
            r@.is_none(),
    {
        SnapshotOption { snapshot: None, destroyed: false }
    }

    /// Destroys the snapshot: from now on it is observed as absent. The
    /// stored value stays until the wrapper itself is dropped.
    pub fn destroy(&mut self)
        ensures
            final(self).is_destroyed(),
            final(self).backing() == old(self).backing(),
            final(self)@.is_none(),
    {
        self.destroyed = true;
    }

    /// Returns the snapshot, first creating it with `create` when none is
    /// observed.
    pub fn ensure<F: FnOnce() -> Snapshot>(&mut self, create: F) -> (r: &mut Snapshot)
        requires
            old(self)@.is_none() ==> create.requires(()),
        ensures
            match old(self)@ {
                Some(s) => *r == s,
                None => create.ensures((), *r),
            },
            !final(self).is_destroyed(),
            final(self).backing() == Some(*final(r)),
            final(self)@ == Some(*final(r)),
    {
        if self.is_none() {
            self.snapshot = Some(create());
            self.destroyed = false;
        }
        self.snapshot.as_mut().unwrap()
    }

    /// The snapshot as observed: absent once destroyed.
    pub fn get(&self) -> (r: Option<&Snapshot>)
        ensures
            r == (match self@ {
                Some(s) => Some(&s),
                None => None,
            }),
    {
        if self.destroyed {
            None
        } else {
            self.snapshot.as_ref()
        }
    }

    /// Whether a snapshot is observed.
    pub fn is_some(&self) -> (r: bool)
        ensures
            r == self@.is_some(),
    {
        !self.destroyed && self.snapshot.is_some()
    }

    /// Whether no snapshot is observed.
    pub fn is_none(&self) -> (r: bool)
        ensures
            r == self@.is_none(),
    {
        !self.is_some()
    }
}

impl Default for SnapshotOption {
    fn default() -> (r: SnapshotOption)
        ensures
            r.backing().is_none(),
            !r.is_destroyed(),
            r@.is_none(),
    {
        SnapshotOption::empty()
    }
}

} // verus!

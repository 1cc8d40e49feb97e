//! The transient restyle record of an element.
use crate::restyle_hint::{
    RestyleHint, StoredRestyleHint, RESTYLE_FOR_SELF, RESTYLE_LATER_SIBLINGS,
};
use crate::snapshot::SnapshotOption;
use vstd::prelude::*;

verus! {

/// The layout work that a style change requires, one bit per kind.
#[derive(Clone, Copy, Debug, PartialEq, Eq, Structural)]
pub struct RestyleDamage {
    pub bits: u8,
}

impl RestyleDamage {
    /// No damage.
    pub fn empty() -> (r: RestyleDamage)
        ensures
            r.bits == 0,
    {
        RestyleDamage { bits: 0 }
    }

    /// Whether there is no damage.
    pub fn is_empty(&self) -> (r: bool)
        ensures
            r == (self.bits == 0),
    {
        self.bits == 0
    }

    /// Adds the damage of `other`.
    pub fn insert(&mut self, other: RestyleDamage)
        ensures
            final(self).bits == old(self).bits | other.bits,
    {
        self.bits = self.bits | other.bits;
    }
}

/// The hint bits before the later-siblings bit is stripped: the stored hint,
/// with the bits derived from the snapshot when one is pending.
pub open spec fn combined_hint_bits(
    stored: RestyleHint,
    snapshot_pending: bool,
    snapshot_hint: RestyleHint,
) -> u8 {
    if snapshot_pending {
        stored.bits | snapshot_hint.bits
    } else {
        stored.bits
    }
}

/// The stored hint left by `compute_final_hint`.
pub open spec fn final_hint_bits(
    stored: RestyleHint,
    snapshot_pending: bool,
    snapshot_hint: RestyleHint,
) -> u8 {
    combined_hint_bits(stored, snapshot_pending, snapshot_hint) & !RESTYLE_LATER_SIBLINGS
}

/// What `compute_final_hint` returns: whether later siblings must be
/// restyled.
pub open spec fn later_siblings_bit(
    stored: RestyleHint,
    snapshot_pending: bool,
    snapshot_hint: RestyleHint,
) -> bool {
    combined_hint_bits(stored, snapshot_pending, snapshot_hint) & RESTYLE_LATER_SIBLINGS != 0
}

/// Computing the final hint a second time changes nothing: the snapshot is
/// no longer observed, so a derived hint is ignored, the stored hint stays,
/// and no later-siblings restyle is reported.
pub proof fn lemma_compute_final_hint_idempotent(
    first: RestyleData,
    second: RestyleData,
    first_snapshot_hint: RestyleHint,
    second_snapshot_hint: RestyleHint,
)
    requires
        second.hint@.bits == final_hint_bits(
            first.hint@,
            first.snapshot@.is_some(),
            first_snapshot_hint,
        ),
        second.snapshot@.is_none(),
    ensures
        final_hint_bits(second.hint@, second.snapshot@.is_some(), second_snapshot_hint)
            == second.hint@.bits,
        !later_siblings_bit(second.hint@, second.snapshot@.is_some(), second_snapshot_hint),
{
    let c = combined_hint_bits(first.hint@, first.snapshot@.is_some(), first_snapshot_hint);
    assert(c & !RESTYLE_LATER_SIBLINGS & !RESTYLE_LATER_SIBLINGS == c & !RESTYLE_LATER_SIBLINGS)
        by (bit_vector);
    assert(c & !RESTYLE_LATER_SIBLINGS & RESTYLE_LATER_SIBLINGS == 0) by (bit_vector);
}

/// Transient data used by the restyle algorithm. It is created when an
/// invalidation is recorded on an element, and dropped once the element
/// has been processed.
#[derive(Debug)]
pub struct RestyleData {
    /// Whether selectors must be rematched for this element, its
    /// descendants, and its later siblings.
    pub hint: StoredRestyleHint,
    /// Whether the element must be cascaded again.
    pub recascade: bool,
    /// The layout work required after restyling.
    pub damage: RestyleDamage,
    /// The damage already handled by ancestors, which need not be applied
    /// again at this element.
    pub damage_handled: RestyleDamage,
    /// The element's prior state, from which more restyle hints may be
    /// derived at traversal time.
    pub snapshot: SnapshotOption,
}

impl RestyleData {
    /// Whether this record may invalidate the element's current style.
    pub open spec fn spec_has_invalidations(&self) -> bool {
        ||| self.hint@.meets(RESTYLE_FOR_SELF)
        ||| self.recascade
        ||| self.snapshot@.is_some()
    }

    /// Whether this record is in its initial, empty state.
    pub open spec fn is_clear(&self) -> bool {
        &&& self.hint@.bits == 0
        &&& !self.recascade
        &&& self.damage.bits == 0
        &&& self.damage_handled.bits == 0
        &&& self.snapshot@.is_none()
        &&& self.snapshot.backing().is_none()
    }

    /// Computes the final restyle hint of the element before matching.
    ///
    /// `snapshot_hint` is the hint that the style engine derives from the
    /// pending snapshot; it is ignored when no snapshot is pending. The
    /// later-siblings bit is stripped from the stored hint, the snapshot is
    /// destroyed, and the result tells whether later siblings must be
    /// restyled.
    pub fn compute_final_hint(&mut self, snapshot_hint: RestyleHint) -> (later_siblings: bool)
        ensures
            later_siblings == later_siblings_bit(
                old(self).hint@,
                old(self).snapshot@.is_some(),
                snapshot_hint,
            ),
            final(self).hint@.bits == final_hint_bits(
                old(self).hint@,
                old(self).snapshot@.is_some(),
                snapshot_hint,
            ),
            final(self).snapshot@.is_none(),
            final(self).snapshot.is_destroyed(),
            final(self).snapshot.backing() == old(self).snapshot.backing(),
            final(self).recascade == old(self).recascade,
            final(self).damage == old(self).damage,
            final(self).damage_handled == old(self).damage_handled,
    {
        let mut hint = self.hint.hint();
        if self.snapshot.is_some() {
            hint.insert(snapshot_hint);
        }
        let later_siblings = hint.intersects(RestyleHint::from_bits(RESTYLE_LATER_SIBLINGS));
        hint.remove(RestyleHint::from_bits(RESTYLE_LATER_SIBLINGS));
        self.hint = StoredRestyleHint::from(hint);
        self.snapshot.destroy();
        later_siblings
    }

    /// Whether this record may invalidate the element's current style: a
    /// hint for the element itself, a pending recascade, or a snapshot that
    /// was not expanded yet.
    pub fn has_invalidations(&self) -> (r: bool)
        ensures
            r == self.spec_has_invalidations(),
    {
        self.hint.has_self_invalidations() || self.recascade || self.snapshot.is_some()
    }

    /// Whether this record may invalidate the styles of later siblings.
    pub fn has_sibling_invalidations(&self) -> (r: bool)
        ensures
            r == (self.hint@.meets(RESTYLE_LATER_SIBLINGS) || self.snapshot@.is_some()),
    {
        self.hint.has_sibling_invalidations() || self.snapshot.is_some()
    }

    /// The damage already handled by ancestors.
    pub fn damage_handled(&self) -> (r: RestyleDamage)
        ensures
            r == self.damage_handled,
    {
        self.damage_handled
    }

    /// Records the damage already handled by ancestors.
    pub fn set_damage_handled(&mut self, d: RestyleDamage)
        ensures
            final(self).damage_handled == d,
            final(self).hint@ == old(self).hint@,
            final(self).recascade == old(self).recascade,
            final(self).damage == old(self).damage,
            final(self).snapshot == old(self).snapshot,
    {
        self.damage_handled = d;
    }
}

impl Default for RestyleData {
    fn default() -> (r: RestyleData)
        ensures
            r.is_clear(),
    {
        RestyleData {
            hint: StoredRestyleHint::empty(),
            recascade: false,
            damage: RestyleDamage::empty(),
            damage_handled: RestyleDamage::empty(),
            snapshot: SnapshotOption::empty(),
        }
    }
}

} // verus!

//! Restyle hints: bitsets that say which parts of the tree must be restyled.
use vstd::prelude::*;

verus! {

/// The element itself must be restyled (selector matching and cascade).
pub const RESTYLE_SELF: u8 = 0x01;
/// The descendants of the element must be restyled.
pub const RESTYLE_DESCENDANTS: u8 = 0x02;
/// The later siblings of the element must be restyled.
pub const RESTYLE_LATER_SIBLINGS: u8 = 0x04;
/// The style attribute changed: only its rules need replacing.
pub const RESTYLE_STYLE_ATTRIBUTE: u8 = 0x08;
/// The CSS animation rules need replacing.
pub const RESTYLE_CSS_ANIMATIONS: u8 = 0x10;
/// The CSS transition rules need replacing.
pub const RESTYLE_CSS_TRANSITIONS: u8 = 0x20;
/// The SMIL override rules need replacing.
pub const RESTYLE_SMIL: u8 = 0x40;

/// The bits that affect the style of the element itself: a full rematch, or
/// the replacement of some rules.
pub const RESTYLE_FOR_SELF: u8 = 0x79;

/// A set of restyle flags, one bit per flag.
#[derive(Clone, Copy, Debug, PartialEq, Eq, Structural)]
pub struct RestyleHint {
    pub bits: u8,
}

impl RestyleHint {
    /// Whether every bit of `flags` is set.
    pub open spec fn has(self, flags: u8) -> bool {
        self.bits & flags == flags
    }

    /// Whether some bit of `flags` is set.
    pub open spec fn meets(self, flags: u8) -> bool {
        self.bits & flags != 0
    }

    /// The hint with no bit set.
    pub fn empty() -> (r: RestyleHint)
        ensures
            r.bits == 0,
    {
        RestyleHint { bits: 0 }
    }

    /// The hint made of the given bits.
    pub fn from_bits(bits: u8) -> (r: RestyleHint)
        ensures
            r.bits == bits,
    {
        RestyleHint { bits }
    }

    /// The bits that affect the style of the element itself.
    pub fn for_self() -> (r: RestyleHint)
        ensures
            r.bits == RESTYLE_FOR_SELF,
    {
        RestyleHint { bits: RESTYLE_FOR_SELF }
    }

    /// Whether no bit is set.
    pub fn is_empty(&self) -> (r: bool)
        ensures
            r == (self.bits == 0),
    {
        self.bits == 0
    }

    /// Whether every bit of `other` is set in `self`.
    pub fn contains(&self, other: RestyleHint) -> (r: bool)
        ensures
            r == self.has(other.bits),
    {
        self.bits & other.bits == other.bits
    }

    /// Whether `self` and `other` share a bit.
    pub fn intersects(&self, other: RestyleHint) -> (r: bool)
        ensures
            r == self.meets(other.bits),
    {
        self.bits & other.bits != 0
    }

    /// The union of both hints.
    pub fn union(&self, other: RestyleHint) -> (r: RestyleHint)
        ensures
            r.bits == self.bits | other.bits,
    {
        RestyleHint { bits: self.bits | other.bits }
    }

    /// Adds the bits of `other`.
    pub fn insert(&mut self, other: RestyleHint)
        ensures
            final(self).bits == old(self).bits | other.bits,
    {
        self.bits = self.bits | other.bits;
    }

    /// Clears the bits of `other`.
    pub fn remove(&mut self, other: RestyleHint)
        ensures
            final(self).bits == old(self).bits & !other.bits,
    {
        self.bits = self.bits & !other.bits;
    }
}

/// What kind of traversal is under way.
#[derive(Clone, Copy, Debug, PartialEq, Eq, Structural)]
pub struct TraversalFlags {
    /// Whether the traversal only restyles animations.
    pub animation_only: bool,
}

impl TraversalFlags {
    /// Whether the traversal only restyles animations.
    pub fn for_animation_only(&self) -> (r: bool)
        ensures
            r == self.animation_only,
    {
        self.animation_only
    }
}

/// The restyle hint stored on an element. It is kept behind its own type so
/// that the propagation rules stay in one place.
#[derive(Clone, Copy, Debug)]
pub struct StoredRestyleHint(RestyleHint);

impl View for StoredRestyleHint {
    type V = RestyleHint;

    closed spec fn view(&self) -> RestyleHint {
        self.0
    }
}

/// The hint that a child receives from a parent whose hint is `h`, in a
/// traversal that is not for animations only.
pub open spec fn propagated_bits(h: RestyleHint) -> u8 {
    if h.has(RESTYLE_DESCENDANTS) {
        RESTYLE_SELF | RESTYLE_DESCENDANTS
    } else {
        0
    }
}

/// A child inherits a full subtree restyle from a parent whose hint has the
/// descendants bit, and nothing from any other parent.
pub proof fn lemma_propagated_bits(h: RestyleHint)
    ensures
        h.has(RESTYLE_DESCENDANTS) ==> {
            let c = RestyleHint { bits: propagated_bits(h) };
            &&& c.has(RESTYLE_SELF)
            &&& c.has(RESTYLE_DESCENDANTS)
        },
        !h.has(RESTYLE_DESCENDANTS) ==> propagated_bits(h) == 0,
{
    assert((RESTYLE_SELF | RESTYLE_DESCENDANTS) & RESTYLE_SELF == RESTYLE_SELF) by (bit_vector);
    assert((RESTYLE_SELF | RESTYLE_DESCENDANTS) & RESTYLE_DESCENDANTS == RESTYLE_DESCENDANTS)
        by (bit_vector);
}

impl StoredRestyleHint {
    /// Propagates this restyle hint to a child element, and clears what the
    /// child takes over.
    ///
    /// In an animation-only traversal, the animation bit is consumed and the
    /// child gets nothing. Otherwise the whole hint is consumed, and the
    /// child is restyled with its subtree when this hint had the descendants
    /// bit.
    pub fn propagate(&mut self, traversal_flags: &TraversalFlags) -> (r: StoredRestyleHint)
        requires
            !traversal_flags.animation_only ==> !old(self)@.meets(RESTYLE_CSS_ANIMATIONS),
        ensures
            traversal_flags.animation_only ==> {
                &&& final(self)@.bits == old(self)@.bits & !RESTYLE_CSS_ANIMATIONS
                &&& !final(self)@.meets(RESTYLE_CSS_ANIMATIONS)
                &&& r@.bits == 0
            },
            !traversal_flags.animation_only ==> {
                &&& final(self)@.bits == 0
                &&& r@.bits == propagated_bits(old(self)@)
            },
    {
        if traversal_flags.for_animation_only() {
            let anim = RestyleHint::from_bits(RESTYLE_CSS_ANIMATIONS);
            let ghost b0 = self.0.bits;
            assert(b0 & !RESTYLE_CSS_ANIMATIONS & RESTYLE_CSS_ANIMATIONS == 0) by (bit_vector);
            if self.0.contains(anim) {
                self.0.remove(anim);
            } else {
                assert(b0 & RESTYLE_CSS_ANIMATIONS != RESTYLE_CSS_ANIMATIONS
                    ==> b0 & !RESTYLE_CSS_ANIMATIONS == b0) by (bit_vector);
            }
            return StoredRestyleHint::empty();
        }
        let hint = self.0;
        self.0 = RestyleHint::empty();
        if hint.contains(RestyleHint::from_bits(RESTYLE_DESCENDANTS)) {
            StoredRestyleHint(RestyleHint::from_bits(RESTYLE_SELF | RESTYLE_DESCENDANTS))
        } else {
            StoredRestyleHint::empty()
        }
    }

    /// The empty hint.
    pub fn empty() -> (r: StoredRestyleHint)
        ensures
            r@.bits == 0,
    {
        StoredRestyleHint(RestyleHint::empty())
    }

    /// A hint that restyles the element and its whole subtree.
    pub fn subtree() -> (r: StoredRestyleHint)
        ensures
            r@.bits == RESTYLE_SELF | RESTYLE_DESCENDANTS,
    {
        StoredRestyleHint(RestyleHint::from_bits(RESTYLE_SELF | RESTYLE_DESCENDANTS))
    }

    /// A hint that restyles the element, its later siblings, and the
    /// subtrees of all of them.
    pub fn subtree_and_later_siblings() -> (r: StoredRestyleHint)
        ensures
            r@.bits == RESTYLE_SELF | RESTYLE_DESCENDANTS | RESTYLE_LATER_SIBLINGS,
    {
        StoredRestyleHint(
            RestyleHint::from_bits(RESTYLE_SELF | RESTYLE_DESCENDANTS | RESTYLE_LATER_SIBLINGS),
        )
    }

    /// Whether the hint may invalidate the style of the element itself.
    pub fn has_self_invalidations(&self) -> (r: bool)
        ensures
            r == self@.meets(RESTYLE_FOR_SELF),
    {
        self.0.intersects(RestyleHint::for_self())
    }

    /// Whether the hint may invalidate the style of later siblings.
    pub fn has_sibling_invalidations(&self) -> (r: bool)
        ensures
            r == self@.meets(RESTYLE_LATER_SIBLINGS),
    {
        self.0.intersects(RestyleHint::from_bits(RESTYLE_LATER_SIBLINGS))
    }

    /// Whether nothing needs restyling.
    pub fn is_empty(&self) -> (r: bool)
        ensures
            r == (self@.bits == 0),
    {
        self.0.is_empty()
    }

    /// Adds the bits of `other` to this hint.
    pub fn insert(&mut self, other: &StoredRestyleHint)
        ensures
            final(self)@.bits == old(self)@.bits | other@.bits,
    {
        self.0.insert(other.0);
    }

    /// Whether the hint asks for an animation-only restyle.
    pub fn has_animation_hint(&self) -> (r: bool)
        ensures
            r == self@.has(RESTYLE_CSS_ANIMATIONS),
    {
        self.0.contains(RestyleHint::from_bits(RESTYLE_CSS_ANIMATIONS))
    }

    /// The bits of this hint.
    pub fn hint(&self) -> (r: RestyleHint)
        ensures
            r == self@,
    {
        self.0
    }
}

impl Default for StoredRestyleHint {
    fn default() -> (r: StoredRestyleHint)
        ensures
            r@.bits == 0,
    {
        StoredRestyleHint::empty()
    }
}

impl From<RestyleHint> for StoredRestyleHint {
    fn from(hint: RestyleHint) -> (r: StoredRestyleHint)
        ensures
            r@ == hint,
    {
        StoredRestyleHint(hint)
    }
}

impl vstd::std_specs::convert::FromSpecImpl<RestyleHint> for StoredRestyleHint {
    open spec fn obeys_from_spec() -> bool {
        true
    }

    closed spec fn from_spec(hint: RestyleHint) -> StoredRestyleHint {
        StoredRestyleHint(hint)
    }
}

} // verus!

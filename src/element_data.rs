//! The style data of an element: its styles once styled, and its restyle
//! record while an invalidation is pending.
use crate::restyle_data::RestyleData;
use crate::restyle_hint::{RestyleHint, RESTYLE_FOR_SELF, RESTYLE_SELF};
use crate::styles::ElementStyles;
use vstd::prelude::*;

verus! {

/// The kind of restyle that an element needs.
#[derive(Clone, Copy, Debug, PartialEq, Eq, Structural)]
pub enum RestyleKind {
    /// Selector matching and cascade: a full restyle.
    MatchAndCascade,
    /// A cascade with some rules replaced, such as those of the style
    /// attribute or of animations.
    CascadeWithReplacements(RestyleHint),
    /// A cascade only, for example because inherited properties of the
    /// parent changed.
    CascadeOnly,
}

/// The style data of an element.
#[derive(Debug)]
pub struct ElementData {
    styles: Option<ElementStyles>,
    restyle: Option<Box<RestyleData>>,
}

impl ElementData {
    /// The element's styles, once it has been styled.
    pub closed spec fn styles_view(&self) -> Option<ElementStyles> {
        self.styles
    }

    /// The element's restyle record, while one exists.
    pub closed spec fn restyle_view(&self) -> Option<RestyleData> {
        match self.restyle {
            Some(b) => Some(*b),
            None => None,
        }
    }

    /// A restyle record exists only for an element that has styles.
    pub open spec fn wf(&self) -> bool {
        self.restyle_view().is_some() ==> self.styles_view().is_some()
    }

    /// Whether the element's style is up to date and nothing may
    /// invalidate it.
    pub open spec fn spec_has_current_styles(&self) -> bool {
        &&& self.styles_view().is_some()
        &&& match self.restyle_view() {
            Some(r) => !r.spec_has_invalidations(),
            None => true,
        }
    }

    /// Whether the restyle work of the element can be classified: its style
    /// is not current, and a styled element has a non-empty hint or a
    /// pending recascade.
    pub open spec fn restyle_kind_defined(&self) -> bool {
        &&& !self.spec_has_current_styles()
        &&& self.styles_view().is_some() ==> {
            let r = self.restyle_view().unwrap();
            r.hint@.bits != 0 || r.recascade
        }
    }

    /// The restyle work that the element needs.
    pub open spec fn spec_restyle_kind(&self) -> RestyleKind {
        if self.styles_view().is_none() {
            RestyleKind::MatchAndCascade
        } else if self.restyle_view().unwrap().hint@.meets(RESTYLE_SELF) {
            RestyleKind::MatchAndCascade
        } else if self.restyle_view().unwrap().hint@.bits != 0 {
            RestyleKind::CascadeWithReplacements(self.restyle_view().unwrap().hint@)
        } else {
            RestyleKind::CascadeOnly
        }
    }

    /// Style data with the given styles, if any, and no restyle record.
    pub fn new(existing: Option<ElementStyles>) -> (r: ElementData)
        ensures
            r.styles_view() == existing,
            r.restyle_view().is_none(),
            r.wf(),
    {
        ElementData { styles: existing, restyle: None }
    }

    /// Whether the element has been styled.
    pub fn has_styles(&self) -> (r: bool)
        ensures
            r == self.styles_view().is_some(),
    {
        self.styles.is_some()
    }

    /// Whether the element's style is up to date and nothing may
    /// invalidate it.
    pub fn has_current_styles(&self) -> (r: bool)
        ensures
            r == self.spec_has_current_styles(),
    {
        self.has_styles() && match &self.restyle {
            Some(r) => !r.has_invalidations(),
            None => true,
        }
    }

    /// The kind of restyle that the element needs, from its stored hint.
    pub fn restyle_kind(&self) -> (r: RestyleKind)
        requires
            self.restyle_kind_defined(),
        ensures
            r == self.spec_restyle_kind(),
    {
        if !self.has_styles() {
            return RestyleKind::MatchAndCascade;
        }
        let restyle_data = self.restyle.as_ref().unwrap();
        let hint = restyle_data.hint.hint();
        if hint.intersects(RestyleHint::from_bits(RESTYLE_SELF)) {
            return RestyleKind::MatchAndCascade;
        }
        if !hint.is_empty() {
            return RestyleKind::CascadeWithReplacements(hint);
        }
        RestyleKind::CascadeOnly
    }

    /// The element's styles, if any.
    pub fn get_styles(&self) -> (r: Option<&ElementStyles>)
        ensures
            r == (match self.styles_view() {
                Some(s) => Some(&s),
                None => None,
            }),
    {
        self.styles.as_ref()
    }

    /// The element's styles; the element must have been styled.
    pub fn styles(&self) -> (r: &ElementStyles)
        requires
            self.styles_view().is_some(),
        ensures
            *r == self.styles_view().unwrap(),
    {
        self.styles.as_ref().unwrap()
    }

    /// The element's styles, mutably, if any.
    pub fn get_styles_mut(&mut self) -> (r: Option<&mut ElementStyles>)
        ensures
            final(self).restyle_view() == old(self).restyle_view(),
            match r {
                Some(s) => {
                    &&& old(self).styles_view() == Some(*s)
                    &&& final(self).styles_view() == Some(*final(s))
                },
                None => {
                    &&& old(self).styles_view().is_none()
                    &&& final(self).styles_view().is_none()
                },
            },
    {
        self.styles.as_mut()
    }

    /// The element's styles, mutably; the element must have been styled.
    pub fn styles_mut(&mut self) -> (r: &mut ElementStyles)
        requires
            old(self).styles_view().is_some(),
        ensures
            *r == old(self).styles_view().unwrap(),
            final(self).styles_view() == Some(*final(r)),
            final(self).restyle_view() == old(self).restyle_view(),
    {
        self.styles.as_mut().unwrap()
    }

    /// The element's styles and its restyle record, if any, both mutably.
    /// The element must have been styled.
    pub fn styles_and_restyle_mut(&mut self) -> ((styles, restyle): (
        &mut ElementStyles,
        Option<&mut RestyleData>,
    ))
        requires
            old(self).styles_view().is_some(),
        ensures
            *styles == old(self).styles_view().unwrap(),
            final(self).styles_view() == Some(*final(styles)),
            match restyle {
                Some(r) => {
                    &&& old(self).restyle_view() == Some(*r)
                    &&& final(self).restyle_view() == Some(*final(r))
                },
                None => {
                    &&& old(self).restyle_view().is_none()
                    &&& final(self).restyle_view().is_none()
                },
            },
    {
        let styles = self.styles.as_mut().unwrap();
        let restyle = match self.restyle.as_mut() {
            Some(r) => Some(&mut **r),
            None => None,
        };
        (styles, restyle)
    }

    /// Sets the element's styles. A pending snapshot must have been
    /// expanded before.
    pub fn set_styles(&mut self, styles: ElementStyles)
        requires
            match old(self).restyle_view() {
                Some(r) => r.snapshot@.is_none(),
                None => true,
            },
        ensures
            final(self).styles_view() == Some(styles),
            final(self).restyle_view() == old(self).restyle_view(),
            final(self).wf(),
    {
        self.styles = Some(styles);
    }

    /// Whether the element has a restyle record.
    pub fn has_restyle(&self) -> (r: bool)
        ensures
            r == self.restyle_view().is_some(),
    {
        self.restyle.is_some()
    }

    /// Drops the restyle record, if any.
    pub fn clear_restyle(&mut self)
        ensures
            final(self).styles_view() == old(self).styles_view(),
            final(self).restyle_view().is_none(),
            final(self).wf(),
    {
        self.restyle = None;
    }

    /// Returns the restyle record, creating an empty one if there is none.
    /// The element must have been styled.
    pub fn ensure_restyle(&mut self) -> (r: &mut RestyleData)
        requires
            old(self).styles_view().is_some(),
        ensures
            match old(self).restyle_view() {
                Some(old_r) => *r == old_r,
                None => r.is_clear(),
            },
            final(self).styles_view() == old(self).styles_view(),
            final(self).restyle_view() == Some(*final(r)),
            final(self).wf(),
    {
        if self.restyle.is_none() {
            self.restyle = Some(Box::new(RestyleData::default()));
        }
        self.restyle.as_mut().unwrap()
    }

    /// The restyle record, if any.
    pub fn get_restyle(&self) -> (r: Option<&RestyleData>)
        ensures
            r == (match self.restyle_view() {
                Some(d) => Some(&d),
                None => None,
            }),
    {
        match &self.restyle {
            Some(r) => Some(&**r),
            None => None,
        }
    }

    /// The restyle record; there must be one.
    pub fn restyle(&self) -> (r: &RestyleData)
        requires
            self.restyle_view().is_some(),
        ensures
            *r == self.restyle_view().unwrap(),
    {
        self.get_restyle().unwrap()
    }

    /// The restyle record, mutably, if any.
    pub fn get_restyle_mut(&mut self) -> (r: Option<&mut RestyleData>)
        ensures
            final(self).styles_view() == old(self).styles_view(),
            match r {
                Some(d) => {
                    &&& old(self).restyle_view() == Some(*d)
                    &&& final(self).restyle_view() == Some(*final(d))
                },
                None => {
                    &&& old(self).restyle_view().is_none()
                    &&& final(self).restyle_view().is_none()
                },
            },
    {
        match self.restyle.as_mut() {
            Some(r) => Some(&mut **r),
            None => None,
        }
    }

    /// The restyle record, mutably; there must be one.
    pub fn restyle_mut(&mut self) -> (r: &mut RestyleData)
        requires
            old(self).restyle_view().is_some(),
        ensures
            *r == old(self).restyle_view().unwrap(),
            final(self).styles_view() == old(self).styles_view(),
            final(self).restyle_view() == Some(*final(r)),
    {
        self.get_restyle_mut().unwrap()
    }
}

/// A styled element whose restyle record holds a hint for the element
/// itself, as after `ensure_restyle` and the insertion of such a hint, has
/// no current style; once the record is cleared its style is current again.
pub proof fn lemma_pending_hint_and_clear(
    pending: ElementData,
    cleared: ElementData,
    previous_bits: u8,
    inserted: RestyleHint,
)
    requires
        pending.styles_view().is_some(),
        pending.restyle_view().is_some(),
        pending.restyle_view().unwrap().hint@.bits == previous_bits | inserted.bits,
        inserted.meets(RESTYLE_FOR_SELF),
        cleared.styles_view() == pending.styles_view(),
        cleared.restyle_view().is_none(),
    ensures
        !pending.spec_has_current_styles(),
        cleared.spec_has_current_styles(),
{
    let i = inserted.bits;
    assert(i & RESTYLE_FOR_SELF != 0 ==> (previous_bits | i) & RESTYLE_FOR_SELF != 0)
        by (bit_vector);
}

/// An element without styles needs a full match and cascade, whatever its
/// restyle record holds.
pub proof fn lemma_unstyled_needs_full_restyle(data: ElementData)
    requires
        data.styles_view().is_none(),
    ensures
        data.restyle_kind_defined(),
        data.spec_restyle_kind() == RestyleKind::MatchAndCascade,
{
}

} // verus!

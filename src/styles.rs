//! The styles of an element and of its eager pseudo-elements.
use crate::computed_style::{ComputedStyle, DisplayKind};
use crate::pseudo::EagerPseudoStyles;
use vstd::prelude::*;

verus! {

/// The styles associated with an element, including those of its eager
/// pseudo-elements.
#[derive(Clone, Debug)]
pub struct ElementStyles {
    /// The element's own style.
    pub primary: ComputedStyle,
    /// The styles of the element's eager pseudo-elements.
    pub pseudos: EagerPseudoStyles,
}

impl ElementStyles {
    /// Whether the pseudo-element styles are well formed.
    pub open spec fn wf(&self) -> bool {
        self.pseudos.wf()
    }

    /// Styles with the given primary style and no pseudo-element styles.
    pub fn new(primary: ComputedStyle) -> (r: ElementStyles)
        ensures
            r.primary == primary,
            r.wf(),
            r.pseudos.spec_no_styles(),
            !r.pseudos.is_allocated(),
    {
        ElementStyles { primary: primary, pseudos: EagerPseudoStyles::new() }
    }

    /// Whether the element's `display` is `none`. The primary style must be
    /// complete.
    pub fn is_display_none(&self) -> (r: bool)
        requires
            self.primary.values.is_some(),
        ensures
            r == (self.primary.values.unwrap().display == DisplayKind::DisplayNone),
    {
        self.primary.values().display == DisplayKind::DisplayNone
    }
}

} // verus!

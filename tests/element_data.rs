use std::sync::Arc;
use style_data::computed_style::{ComputedStyle, ComputedValues, DisplayKind, StrongRuleNode};
use style_data::element_data::{ElementData, RestyleKind};
use style_data::restyle_hint::{
    RestyleHint, StoredRestyleHint, RESTYLE_CSS_ANIMATIONS, RESTYLE_DESCENDANTS,
    RESTYLE_LATER_SIBLINGS, RESTYLE_SELF, RESTYLE_STYLE_ATTRIBUTE,
};
use style_data::snapshot::Snapshot;
use style_data::styles::ElementStyles;

fn styles(display: DisplayKind) -> ElementStyles {
    ElementStyles::new(ComputedStyle::new(
        StrongRuleNode { id: 1 },
        Arc::new(ComputedValues { display }),
    ))
}

fn hint(bits: u8) -> StoredRestyleHint {
    StoredRestyleHint::from(RestyleHint::from_bits(bits))
}

#[test]
fn restyle_kind_follows_the_pending_work() {
    let mut data = ElementData::new(None);
    assert!(!data.has_styles());
    assert_eq!(data.restyle_kind(), RestyleKind::MatchAndCascade);

    data.set_styles(styles(DisplayKind::Block));
    assert!(data.has_current_styles());
    data.ensure_restyle().hint.insert(&StoredRestyleHint::subtree());
    assert_eq!(data.restyle_kind(), RestyleKind::MatchAndCascade);

    data.clear_restyle();
    data.ensure_restyle().hint.insert(&hint(RESTYLE_STYLE_ATTRIBUTE));
    assert_eq!(
        data.restyle_kind(),
        RestyleKind::CascadeWithReplacements(RestyleHint::from_bits(RESTYLE_STYLE_ATTRIBUTE))
    );

    let restyle = data.restyle_mut();
    restyle.hint = StoredRestyleHint::empty();
    restyle.recascade = true;
    assert_eq!(data.restyle_kind(), RestyleKind::CascadeOnly);
}

#[test]
fn unstyled_element_needs_full_restyle() {
    let data = ElementData::new(None);
    assert!(!data.has_current_styles());
    assert!(!data.has_restyle());
    assert!(data.get_styles().is_none());
    assert_eq!(data.restyle_kind(), RestyleKind::MatchAndCascade);
}

#[test]
fn pending_hint_and_clear_restyle() {
    let mut data = ElementData::new(Some(styles(DisplayKind::Block)));
    assert!(data.has_current_styles());
    data.ensure_restyle().hint.insert(&hint(RESTYLE_SELF));
    assert!(data.has_restyle());
    assert!(!data.has_current_styles());
    data.clear_restyle();
    assert!(!data.has_restyle());
    assert!(data.has_current_styles());
}

#[test]
fn hint_without_self_bits_keeps_styles_current() {
    let mut data = ElementData::new(Some(styles(DisplayKind::Block)));
    data.ensure_restyle().hint.insert(&hint(RESTYLE_LATER_SIBLINGS));
    assert!(data.has_current_styles());
    assert!(data.restyle().has_sibling_invalidations());
}

#[test]
fn pending_snapshot_invalidates() {
    let mut data = ElementData::new(Some(styles(DisplayKind::Block)));
    let restyle = data.ensure_restyle();
    restyle.snapshot.ensure(|| Snapshot { state: Some(3), attrs_changed: true });
    assert!(restyle.has_invalidations());
    assert!(restyle.has_sibling_invalidations());
    assert!(!data.has_current_styles());
    let later = data
        .restyle_mut()
        .compute_final_hint(RestyleHint::from_bits(RESTYLE_STYLE_ATTRIBUTE));
    assert!(!later);
    assert!(data.restyle().snapshot.is_none());
    assert_eq!(data.restyle_kind(), RestyleKind::CascadeWithReplacements(
        RestyleHint::from_bits(RESTYLE_STYLE_ATTRIBUTE)
    ));
}

#[test]
fn ensure_restyle_keeps_an_existing_record() {
    let mut data = ElementData::new(Some(styles(DisplayKind::Block)));
    data.ensure_restyle().recascade = true;
    assert!(data.ensure_restyle().recascade);
    assert!(data.get_restyle().unwrap().recascade);
    assert!(data.get_restyle_mut().is_some());
}

#[test]
fn styles_accessors_see_the_same_styles() {
    let mut data = ElementData::new(Some(styles(DisplayKind::DisplayNone)));
    assert!(data.styles().is_display_none());
    assert!(data.get_styles().unwrap().is_display_none());
    data.styles_mut().primary.rules = StrongRuleNode { id: 9 };
    assert_eq!(data.get_styles_mut().unwrap().primary.rules, StrongRuleNode { id: 9 });
    {
        let (s, r) = data.styles_and_restyle_mut();
        assert_eq!(s.primary.rules, StrongRuleNode { id: 9 });
        assert!(r.is_none());
    }
    data.ensure_restyle().hint.insert(&hint(RESTYLE_DESCENDANTS));
    let (_, r) = data.styles_and_restyle_mut();
    assert!(r.unwrap().hint.hint() == RestyleHint::from_bits(RESTYLE_DESCENDANTS));
}

#[test]
fn set_styles_replaces_the_styles() {
    let mut data = ElementData::new(Some(styles(DisplayKind::Block)));
    data.set_styles(styles(DisplayKind::DisplayNone));
    assert!(data.styles().is_display_none());
    assert!(data.has_current_styles());
}

#[test]
fn animation_hint_is_a_replacement() {
    let mut data = ElementData::new(Some(styles(DisplayKind::Inline)));
    data.ensure_restyle().hint.insert(&hint(RESTYLE_CSS_ANIMATIONS | RESTYLE_DESCENDANTS));
    assert!(!data.has_current_styles());
    assert_eq!(
        data.restyle_kind(),
        RestyleKind::CascadeWithReplacements(RestyleHint::from_bits(
            RESTYLE_CSS_ANIMATIONS | RESTYLE_DESCENDANTS
        ))
    );
}

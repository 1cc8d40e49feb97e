use std::sync::Arc;
use style_data::computed_style::{ComputedStyle, ComputedValues, DisplayKind, StrongRuleNode};
use style_data::pseudo::{EagerPseudoStyles, PseudoElement, EAGER_PSEUDO_COUNT};

fn style(id: u64) -> ComputedStyle {
    ComputedStyle::new(
        StrongRuleNode { id },
        Arc::new(ComputedValues { display: DisplayKind::Inline }),
    )
}

#[test]
fn insert_get_take_round_trip() {
    let mut p = EagerPseudoStyles::new();
    assert!(p.is_empty());
    p.insert(&PseudoElement::After, style(4));
    assert!(!p.is_empty());
    assert!(p.has(&PseudoElement::After));
    assert!(!p.has(&PseudoElement::Before));
    assert_eq!(p.get(&PseudoElement::After).unwrap().rules, StrongRuleNode { id: 4 });
    let taken = p.take(&PseudoElement::After).unwrap();
    assert_eq!(taken.rules, StrongRuleNode { id: 4 });
    assert!(p.get(&PseudoElement::After).is_none());
    assert!(p.is_empty());
}

#[test]
fn empty_only_when_no_slot_is_filled() {
    let mut p = EagerPseudoStyles::new();
    p.insert(&PseudoElement::Before, style(1));
    p.insert(&PseudoElement::FirstLetter, style(2));
    assert!(p.take(&PseudoElement::Before).is_some());
    assert!(!p.is_empty());
    assert!(p.take(&PseudoElement::Before).is_none());
    assert!(!p.is_empty());
    assert!(p.take(&PseudoElement::FirstLetter).is_some());
    assert!(p.is_empty());
    assert!(p.take(&PseudoElement::FirstLetter).is_none());
    assert!(p.is_empty());
}

#[test]
fn keys_come_in_slot_order() {
    let mut p = EagerPseudoStyles::new();
    assert!(p.keys().is_empty());
    p.insert(&PseudoElement::FirstLetter, style(1));
    p.insert(&PseudoElement::Before, style(2));
    p.insert(&PseudoElement::FirstLine, style(3));
    assert_eq!(
        p.keys(),
        vec![PseudoElement::Before, PseudoElement::FirstLine, PseudoElement::FirstLetter]
    );
}

#[test]
fn set_rules_reports_change_and_keeps_values() {
    let mut p = EagerPseudoStyles::new();
    p.insert(&PseudoElement::Before, style(1));
    assert!(!p.set_rules(&PseudoElement::Before, StrongRuleNode { id: 1 }));
    assert!(p.set_rules(&PseudoElement::Before, StrongRuleNode { id: 2 }));
    let s = p.get(&PseudoElement::Before).unwrap();
    assert_eq!(s.rules, StrongRuleNode { id: 2 });
    assert_eq!(s.values().display, DisplayKind::Inline);
}

#[test]
fn get_mut_changes_the_slot() {
    let mut p = EagerPseudoStyles::new();
    assert!(p.get_mut(&PseudoElement::After).is_none());
    p.insert(&PseudoElement::After, style(1));
    p.get_mut(&PseudoElement::After).unwrap().rules = StrongRuleNode { id: 6 };
    assert_eq!(p.get(&PseudoElement::After).unwrap().rules, StrongRuleNode { id: 6 });
}

#[test]
fn eager_index_round_trips() {
    for i in 0..EAGER_PSEUDO_COUNT {
        let p = PseudoElement::from_eager_index(i);
        assert!(p.is_eager());
        assert_eq!(p.eager_index(), i);
    }
    assert!(!PseudoElement::Selection.is_eager());
    assert!(!PseudoElement::Backdrop.is_eager());
    assert!(!PseudoElement::Placeholder.is_eager());
}

#[test]
fn computed_style_values() {
    let mut partial = ComputedStyle::new_partial(StrongRuleNode { id: 3 });
    assert!(partial.values.is_none());
    partial.values = Some(Arc::new(ComputedValues { display: DisplayKind::Flex }));
    assert_eq!(partial.values().display, DisplayKind::Flex);
    *partial.values_mut() = Arc::new(ComputedValues { display: DisplayKind::DisplayNone });
    assert_eq!(partial.values().display, DisplayKind::DisplayNone);
    assert_eq!(partial.rules, StrongRuleNode { id: 3 });
}

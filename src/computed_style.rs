//! Computed styles: a rule chain paired with the values cascaded from it.
use std::sync::Arc;
use vstd::prelude::*;

verus! {

/// A handle on an interned chain of matched rules. Two handles are equal
/// when they name the same chain.
#[derive(Clone, Copy, Debug, PartialEq, Eq, Structural)]
pub struct StrongRuleNode {
    pub id: u64,
}

/// The computed value of the `display` property.
#[derive(Clone, Copy, Debug, PartialEq, Eq, Structural)]
pub enum DisplayKind {
    DisplayNone,
    Inline,
    Block,
    InlineBlock,
    Flex,
    Contents,
}

/// The resolved property values of an element or pseudo-element.
#[derive(Clone, Copy, Debug, PartialEq, Eq, Structural)]
pub struct ComputedValues {
    pub display: DisplayKind,
}

/// The result of style computation: the rule node for the matched rules,
/// and the values cascaded from them. The values are absent only during a
/// transient interval of the styling algorithm.
#[derive(Clone, Debug)]
pub struct ComputedStyle {
    pub rules: StrongRuleNode,
    pub values: Option<Arc<ComputedValues>>,
}

impl ComputedStyle {
    /// A complete style.
    pub fn new(rules: StrongRuleNode, values: Arc<ComputedValues>) -> (r: ComputedStyle)
        ensures
            r.rules == rules,
            r.values == Some(values),
    {
        ComputedStyle { rules: rules, values: Some(values) }
    }

    /// A partial style, whose values are filled in later.
    pub fn new_partial(rules: StrongRuleNode) -> (r: ComputedStyle)
        ensures
            r.rules == rules,
            r.values.is_none(),
    {
        ComputedStyle { rules: rules, values: None }
    }

    /// The computed values, which must be present.
    pub fn values(&self) -> (r: &Arc<ComputedValues>)
        requires
            self.values.is_some(),
        ensures
            *r == self.values.unwrap(),
    {
        self.values.as_ref().unwrap()
    }

    /// The computed values, mutably; they must be present.
    pub fn values_mut(&mut self) -> (r: &mut Arc<ComputedValues>)
        requires
            old(self).values.is_some(),
        ensures
            *r == old(self).values.unwrap(),
            final(self).rules == old(self).rules,
            final(self).values == Some(*final(r)),
    {
        self.values.as_mut().unwrap()
    }
}

} // verus!

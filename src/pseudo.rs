//! Pseudo-elements, and the lazily allocated styles of the eager ones.
use crate::computed_style::{ComputedStyle, StrongRuleNode};
use vstd::prelude::*;

verus! {

/// The number of eager pseudo-elements.
pub const EAGER_PSEUDO_COUNT: usize = 4;

/// A pseudo-element. The first four are eager: they are cascaded together
/// with their originating element.
#[derive(Clone, Copy, Debug, PartialEq, Eq, Structural, Hash)]
pub enum PseudoElement {
    Before,
    After,
    FirstLine,
    FirstLetter,
    Selection,
    Backdrop,
    Placeholder,
}

impl PseudoElement {
    /// Whether this pseudo-element is eager.
    pub open spec fn spec_is_eager(self) -> bool {
        match self {
            PseudoElement::Before | PseudoElement::After | PseudoElement::FirstLine
            | PseudoElement::FirstLetter => true,
            _ => false,
        }
    }

    /// The slot of an eager pseudo-element.
    pub open spec fn spec_eager_index(self) -> int {
        match self {
            PseudoElement::Before => 0,
            PseudoElement::After => 1,
            PseudoElement::FirstLine => 2,
            PseudoElement::FirstLetter => 3,
            _ => 0,
        }
    }

    /// The eager pseudo-element of a slot.
    pub open spec fn spec_from_eager_index(i: int) -> PseudoElement {
        if i == 0 {
            PseudoElement::Before
        } else if i == 1 {
            PseudoElement::After
        } else if i == 2 {
            PseudoElement::FirstLine
        } else {
            PseudoElement::FirstLetter
        }
    }

    /// Whether this pseudo-element is eager.
    pub fn is_eager(&self) -> (r: bool)
        ensures
            r == self.spec_is_eager(),
    {
        match self {
            PseudoElement::Before | PseudoElement::After | PseudoElement::FirstLine
            | PseudoElement::FirstLetter => true,
            _ => false,
        }
    }

    /// The slot of an eager pseudo-element.
    pub fn eager_index(&self) -> (r: usize)
        requires
            self.spec_is_eager(),
        ensures
            r == self.spec_eager_index(),
            r < EAGER_PSEUDO_COUNT,
    {
        match self {
            PseudoElement::Before => 0,
            PseudoElement::After => 1,
            PseudoElement::FirstLine => 2,
            _ => 3,
        }
    }

    /// The eager pseudo-element of a slot.
    pub fn from_eager_index(i: usize) -> (r: PseudoElement)
        requires
            i < EAGER_PSEUDO_COUNT,
        ensures
            r == PseudoElement::spec_from_eager_index(i as int),
            r.spec_is_eager(),
            r.spec_eager_index() == i,
    {
        if i == 0 {
            PseudoElement::Before
        } else if i == 1 {
            PseudoElement::After
        } else if i == 2 {
            PseudoElement::FirstLine
        } else {
            PseudoElement::FirstLetter
        }
    }
}

/// Slots and eager pseudo-elements are in one-to-one correspondence.
pub proof fn lemma_eager_index_bijective(p: PseudoElement, i: int)
    requires
        p.spec_is_eager(),
        0 <= i < EAGER_PSEUDO_COUNT,
    ensures
        0 <= p.spec_eager_index() < EAGER_PSEUDO_COUNT,
        PseudoElement::spec_from_eager_index(p.spec_eager_index()) == p,
        PseudoElement::spec_from_eager_index(i).spec_is_eager(),
        PseudoElement::spec_from_eager_index(i).spec_eager_index() == i,
{
}

/// The eager pseudo-elements whose slot among the first `n` slots holds a
/// style, in slot order.
pub open spec fn populated_keys(slots: Seq<Option<ComputedStyle>>, n: int) -> Seq<PseudoElement>
    decreases n,
{
    if n <= 0 {
        Seq::empty()
    } else if slots[n - 1].is_some() {
        populated_keys(slots, n - 1).push(PseudoElement::spec_from_eager_index(n - 1))
    } else {
        populated_keys(slots, n - 1)
    }
}

/// In every well-formed state, which `new` creates and `insert` and `take`
/// preserve, the slots are allocated exactly when one of them holds a style.
pub proof fn lemma_allocated_iff_populated(s: EagerPseudoStyles)
    requires
        s.wf(),
    ensures
        s.is_allocated() <==> !s.spec_no_styles(),
{
}

/// A style just inserted for a pseudo-element is what `get` returns for it;
/// taking it then returns it and leaves its slot empty, as before the insert.
pub proof fn lemma_insert_get_take(
    before: EagerPseudoStyles,
    inserted: EagerPseudoStyles,
    taken: EagerPseudoStyles,
    pseudo: PseudoElement,
    style: ComputedStyle,
)
    requires
        before.wf(),
        pseudo.spec_is_eager(),
        before@[pseudo.spec_eager_index()].is_none(),
        inserted@ == before@.update(pseudo.spec_eager_index(), Some(style)),
        taken@ == inserted@.update(pseudo.spec_eager_index(), None),
    ensures
        inserted@[pseudo.spec_eager_index()] == Some(style),
        taken@[pseudo.spec_eager_index()].is_none(),
        taken@ == before@,
{
    assert(taken@ =~= before@);
}

/// The styles of the eager pseudo-elements of an element, one slot per
/// eager pseudo-element. The slots are allocated only while one of them
/// holds a style.
#[derive(Clone, Debug)]
pub struct EagerPseudoStyles(Option<Vec<Option<ComputedStyle>>>);

impl View for EagerPseudoStyles {
    type V = Seq<Option<ComputedStyle>>;

    closed spec fn view(&self) -> Seq<Option<ComputedStyle>> {
        match self.0 {
            Some(v) => v@,
            None => Seq::new(EAGER_PSEUDO_COUNT as nat, |i: int| None),
        }
    }
}

impl EagerPseudoStyles {
    /// The slots number one per eager pseudo-element, and are allocated
    /// only while one of them holds a style.
    pub open spec fn wf(&self) -> bool {
        &&& self@.len() == EAGER_PSEUDO_COUNT
        &&& self.is_allocated() ==> !self.spec_no_styles()
    }

    /// Whether the slots are allocated.
    pub closed spec fn is_allocated(&self) -> bool {
        self.0.is_some()
    }

    /// Whether no slot holds a style.
    pub open spec fn spec_no_styles(&self) -> bool {
        forall|i: int| 0 <= i < EAGER_PSEUDO_COUNT ==> (#[trigger] self@[i]).is_none()
    }

    /// No pseudo-element styles, and no allocation.
    pub fn new() -> (r: EagerPseudoStyles)
        ensures
            r.wf(),
            r.spec_no_styles(),
            !r.is_allocated(),
            r@.len() == EAGER_PSEUDO_COUNT,
    {
        EagerPseudoStyles(None)
    }

    /// Whether there are no pseudo-element styles.
    pub fn is_empty(&self) -> (r: bool)
        requires
            self.wf(),
        ensures
            r == !self.is_allocated(),
            r == self.spec_no_styles(),
    {
        self.0.is_none()
    }

    /// The style of an eager pseudo-element, if there is one.
    pub fn get(&self, pseudo: &PseudoElement) -> (r: Option<&ComputedStyle>)
        requires
            self.wf(),
            pseudo.spec_is_eager(),
        ensures
            r == (match self@[pseudo.spec_eager_index()] {
                Some(s) => Some(&s),
                None => None,
            }),
    {
        match &self.0 {
            None => None,
            Some(arr) => arr[pseudo.eager_index()].as_ref(),
        }
    }

    /// Whether there is a style for an eager pseudo-element.
    pub fn has(&self, pseudo: &PseudoElement) -> (r: bool)
        requires
            self.wf(),
            pseudo.spec_is_eager(),
        ensures
            r == self@[pseudo.spec_eager_index()].is_some(),
    {
        self.get(pseudo).is_some()
    }

    /// The style of an eager pseudo-element, mutably, if there is one.
    pub fn get_mut(&mut self, pseudo: &PseudoElement) -> (r: Option<&mut ComputedStyle>)
        requires
            old(self).wf(),
            pseudo.spec_is_eager(),
        ensures
            final(self)@.len() == EAGER_PSEUDO_COUNT,
            final(self).wf(),
            final(self).is_allocated() == old(self).is_allocated(),
            match r {
                Some(s) => {
                    &&& old(self)@[pseudo.spec_eager_index()] == Some(*s)
                    &&& final(self)@[pseudo.spec_eager_index()] == Some(*final(s))
                    &&& final(self)@ == old(self)@.update(
                        pseudo.spec_eager_index(),
                        Some(*final(s)),
                    )
                },
                None => {
                    &&& old(self)@[pseudo.spec_eager_index()].is_none()
                    &&& final(self)@ == old(self)@
                },
            },
    {
        let i = pseudo.eager_index();
        if !self.has(pseudo) {
            return None;
        }
        match self.0.as_mut() {
            None => None,
            Some(arr) => arr[i].as_mut(),
        }
    }

    /// Stores the style of an eager pseudo-element that has none yet,
    /// allocating the slots on first use.
    pub fn insert(&mut self, pseudo: &PseudoElement, style: ComputedStyle)
        requires
            old(self).wf(),
            pseudo.spec_is_eager(),
            old(self)@[pseudo.spec_eager_index()].is_none(),
        ensures
            final(self).wf(),
            final(self).is_allocated(),
            final(self)@ == old(self)@.update(pseudo.spec_eager_index(), Some(style)),
    {
        let i = pseudo.eager_index();
        let mut arr = match self.0.take() {
            Some(arr) => arr,
            None => {
                let mut arr: Vec<Option<ComputedStyle>> = Vec::new();
                let mut k: usize = 0;
                while k < EAGER_PSEUDO_COUNT
                    invariant
                        k <= EAGER_PSEUDO_COUNT,
                        arr@.len() == k,
                        forall|j: int| 0 <= j < k ==> (#[trigger] arr@[j]).is_none(),
                    decreases EAGER_PSEUDO_COUNT - k,
                {
                    arr.push(None);
                    k = k + 1;
                }
                assert(arr@ =~= old(self)@);
                arr
            },
        };
        arr.set(i, Some(style));
        assert(arr@[i as int].is_some());
        self.0 = Some(arr);
    }

    /// Removes the style of a pseudo-element and returns it. The slots are
    /// released once none of them holds a style.
    pub fn take(&mut self, pseudo: &PseudoElement) -> (r: Option<ComputedStyle>)
        requires
            old(self).wf(),
            pseudo.spec_is_eager(),
        ensures
            final(self).wf(),
            r == old(self)@[pseudo.spec_eager_index()],
            final(self)@ == old(self)@.update(pseudo.spec_eager_index(), None),
    {
        let i = pseudo.eager_index();
        let mut arr = match self.0.take() {
            None => {
                assert(old(self)@.update(i as int, None) =~= old(self)@);
                return None;
            },
            Some(arr) => arr,
        };
        let result = arr[i].take();
        assert(arr@ =~= old(self)@.update(i as int, None));
        let mut empty = true;
        let mut k: usize = 0;
        while k < EAGER_PSEUDO_COUNT
            invariant
                k <= EAGER_PSEUDO_COUNT,
                arr@.len() == EAGER_PSEUDO_COUNT,
                empty <==> forall|j: int| 0 <= j < k ==> (#[trigger] arr@[j]).is_none(),
            decreases EAGER_PSEUDO_COUNT - k,
        {
            if arr[k].is_some() {
                empty = false;
            }
            k = k + 1;
        }
        if empty {
            assert(arr@ =~= Seq::new(EAGER_PSEUDO_COUNT as nat, |j: int| None));
        } else {
            self.0 = Some(arr);
        }
        result
    }

    /// The eager pseudo-elements that have a style, in slot order.
    pub fn keys(&self) -> (r: Vec<PseudoElement>)
        requires
            self.wf(),
        ensures
            r@ == populated_keys(self@, EAGER_PSEUDO_COUNT as int),
    {
        let mut v: Vec<PseudoElement> = Vec::new();
        let mut i: usize = 0;
        while i < EAGER_PSEUDO_COUNT
            invariant
                self.wf(),
                i <= EAGER_PSEUDO_COUNT,
                v@ == populated_keys(self@, i as int),
            decreases EAGER_PSEUDO_COUNT - i,
        {
            let pseudo = PseudoElement::from_eager_index(i);
            if self.has(&pseudo) {
                v.push(pseudo);
            }
            i = i + 1;
        }
        v
    }

    /// Replaces the rule node of a pseudo-element that has a style, and
    /// tells whether it changed. The values are left as they were.
    pub fn set_rules(&mut self, pseudo: &PseudoElement, rules: StrongRuleNode) -> (r: bool)
        requires
            old(self).wf(),
            pseudo.spec_is_eager(),
            old(self)@[pseudo.spec_eager_index()].is_some(),
        ensures
            final(self).wf(),
            r == (old(self)@[pseudo.spec_eager_index()].unwrap().rules != rules),
            final(self)@ == old(self)@.update(
                pseudo.spec_eager_index(),
                Some(
                    (ComputedStyle {
                        rules: rules,
                        values: old(self)@[pseudo.spec_eager_index()].unwrap().values,
                    }),
                ),
            ),
    {
        let style = self.get_mut(pseudo).unwrap();
        let changed = style.rules != rules;
        style.rules = rules;
        changed
    }
}

} // verus!

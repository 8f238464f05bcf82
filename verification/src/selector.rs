//! Style selectors and the rule by which they match a node.

use vstd::prelude::*;
use vstd::std_specs::cmp::PartialEqSpecImpl;
use vstd::string::StringExecFns;
use crate::class_set::ClassSet;
use crate::pseudo_class::{count_ones, PseudoClass};
use crate::specificity::Specificity;

verus! {

/// How a selector relates to the one that follows it in a chain.
#[derive(Clone, Copy, Debug, PartialEq, Eq, Structural)]
pub enum SelectorRelation {
    /// The selector stands alone.
    Alone,
    /// The selector describes an ancestor of what follows.
    Ancestor,
    /// The selector describes the parent of what follows.
    Parent,
}

/// A style selector: what a node must be for a rule to apply to it.
#[derive(Clone, Debug)]
pub struct Selector {
    /// The id the node must have, if any.
    pub id: Option<String>,
    /// The element name the node must have, if any.
    pub element: Option<String>,
    /// The classes the node must have.
    pub classes: ClassSet,
    /// The pseudo-classes of which the node must have one.
    pub pseudo_classes: PseudoClass,
    /// The relation to the next selector of a chain. Matching does not look at it.
    pub relation: SelectorRelation,
    /// Whether this is the universal selector.
    pub asterisk: bool,
}

/// The mathematical content of a [`Selector`].
pub struct SelectorView {
    /// The id, if one is set.
    pub id: Option<Seq<char>>,
    /// The element name, if one is set.
    pub element: Option<Seq<char>>,
    /// The class names.
    pub classes: Set<Seq<char>>,
    /// The pseudo-classes.
    pub pseudo_classes: PseudoClass,
    /// The relation to the next selector of a chain.
    pub relation: SelectorRelation,
    /// Whether this is the universal selector.
    pub asterisk: bool,
}

/// The text of an optional string.
pub open spec fn text_of(s: Option<String>) -> Option<Seq<char>> {
    match s {
        Some(s) => Some(s@),
        None => None,
    }
}

impl SelectorView {
    /// Neither id nor element nor any class is set. Pseudo-classes and the
    /// asterisk do not count.
    pub open spec fn is_empty(self) -> bool {
        self.id is None && self.element is None && self.classes == Set::<Seq<char>>::empty()
    }

    /// The pseudo-classes of `self` admit those of `other`: `self` asks for
    /// none, or the two have one in common.
    pub open spec fn admits_state(self, other: SelectorView) -> bool {
        self.pseudo_classes.spec_is_empty() || self.pseudo_classes.spec_intersects(
            other.pseudo_classes,
        )
    }

    /// Whether a rule with selector `self` applies to a node described by
    /// `other`.
    ///
    /// The universal selector applies wherever its pseudo-classes admit
    /// those of the node. Any other selector applies where id and element
    /// are unset or equal to those of the node, the node has all its
    /// classes, its pseudo-classes admit those of the node, and the node is
    /// not described by the universal selector.
    pub open spec fn matches(self, other: SelectorView) -> bool {
        if self.asterisk {
            self.admits_state(other)
        } else {
            &&& self.id is Some ==> self.id == other.id
            &&& self.element is Some ==> self.element == other.element
            &&& self.classes.subset_of(other.classes)
            &&& self.admits_state(other)
            &&& !other.asterisk
        }
    }

    /// Whether `self` and `other` name the same target: neither is empty,
    /// the asterisks agree, id and element of `self` are unset or equal to
    /// those of `other`, the classes of `self` are none or exactly those of
    /// `other`, and the pseudo-classes are the same.
    pub open spec fn same(self, other: SelectorView) -> bool {
        &&& !self.is_empty()
        &&& !other.is_empty()
        &&& self.asterisk == other.asterisk
        &&& self.id is Some ==> self.id == other.id
        &&& self.element is Some ==> self.element == other.element
        &&& self.classes != Set::<Seq<char>>::empty() ==> self.classes == other.classes
        &&& self.pseudo_classes == other.pseudo_classes
    }

    /// The three parts of the specificity: 1 for an id, the number of
    /// classes and pseudo-classes reduced to a byte, and 1 for an element.
    pub open spec fn specificity(self) -> Seq<u8> {
        seq![
            if self.id is Some { 1u8 } else { 0u8 },
            ((self.classes.len() + count_ones(self.pseudo_classes.bits)) % 256) as u8,
            if self.element is Some { 1u8 } else { 0u8 },
        ]
    }
}

impl View for Selector {
    type V = SelectorView;

    open spec fn view(&self) -> SelectorView {
        SelectorView {
            id: text_of(self.id),
            element: text_of(self.element),
            classes: self.classes@,
            pseudo_classes: self.pseudo_classes,
            relation: self.relation,
            asterisk: self.asterisk,
        }
    }
}

/// The class names as they stand in a selector: each behind a dot.
pub open spec fn classes_text(names: Seq<Seq<char>>) -> Seq<char>
    decreases names.len(),
{
    if names.len() == 0 {
        Seq::empty()
    } else {
        classes_text(names.drop_last()) + "."@ + names.last()
    }
}

/// The sign that stands for a relation at the end of a selector.
pub open spec fn relation_text(relation: SelectorRelation) -> Seq<char> {
    match relation {
        SelectorRelation::Alone => Seq::empty(),
        SelectorRelation::Ancestor => " "@,
        SelectorRelation::Parent => ">"@,
    }
}

/// Returns true if both are unset, or both are set to the same text.
fn same_text(a: &Option<String>, b: &Option<String>) -> (r: bool)
    ensures
        r == (text_of(*a) == text_of(*b)),
{
    match a {
        Some(x) => match b {
            Some(y) => *x == *y,
            None => false,
        },
        None => b.is_none(),
    }
}

impl Selector {
    /// Returns true if neither id nor element nor any class is set.
    pub fn is_empty(&self) -> (r: bool)
        ensures
            r == self@.is_empty(),
    {
        self.id.is_none() && self.element.is_none() && self.classes.is_empty()
    }

    /// Returns true if both selectors name the same target. An empty
    /// selector is the same as none.
    pub fn same(&self, entity_selector: &Selector) -> (r: bool)
        ensures
            r == self@.same(entity_selector@),
    {
        if self.is_empty() || entity_selector.is_empty() {
            return false;
        }
        if self.asterisk != entity_selector.asterisk {
            return false;
        }
        if self.id.is_some() && !same_text(&self.id, &entity_selector.id) {
            return false;
        }
        if self.element.is_some() && !same_text(&self.element, &entity_selector.element) {
            return false;
        }
        if !self.classes.is_empty() && self.classes != entity_selector.classes {
            return false;
        }
        if self.pseudo_classes != entity_selector.pseudo_classes {
            return false;
        }
        true
    }

    /// Returns true if a rule with this selector applies to the node that
    /// `entity_selector` describes.
    pub fn matches(&self, entity_selector: &Selector) -> (r: bool)
        ensures
            r == self@.matches(entity_selector@),
    {
        if self.asterisk {
            if !self.pseudo_classes.is_empty() && !self.pseudo_classes.intersects(
                entity_selector.pseudo_classes,
            ) {
                return false;
            } else {
                return true;
            }
        }
        if self.id.is_some() && !same_text(&self.id, &entity_selector.id) {
            return false;
        }
        if self.element.is_some() && !same_text(&self.element, &entity_selector.element) {
            return false;
        }
        if !self.classes.is_subset(&entity_selector.classes) {
            return false;
        }
        if !self.pseudo_classes.is_empty() && !self.pseudo_classes.intersects(
            entity_selector.pseudo_classes,
        ) {
            return false;
        }
        if self.asterisk != entity_selector.asterisk {
            return false;
        }
        true
    }

    /// Returns how specific the selector is.
    pub fn specificity(&self) -> (r: Specificity)
        ensures
            r.0@ == self@.specificity(),
    {
        let classes: usize = self.classes.len() % 256;
        let states: usize = self.pseudo_classes.count() as usize;
        let count: usize = (classes + states) % 256;
        let r = Specificity(
            [
                if self.id.is_some() { 1 } else { 0 },
                count as u8,
                if self.element.is_some() { 1 } else { 0 },
            ],
        );
        r
    }

    /// The selector as it is written in a style sheet: the asterisk, the
    /// element, the id behind `#`, the classes in the order of their
    /// insertion, the pseudo-classes, and the sign of the relation.
    pub open spec fn text(&self) -> Seq<char> {
        (if self.asterisk { "*"@ } else { Seq::empty() }) + (match self.element {
            Some(element) => element@,
            None => Seq::empty(),
        }) + (match self.id {
            Some(id) => "#"@ + id@,
            None => Seq::empty(),
        }) + classes_text(self.classes.order()) + self.pseudo_classes.text() + relation_text(
            self.relation,
        )
    }

    /// Writes the selector as it stands in a style sheet.
    pub fn to_string(&self) -> (r: String)
        ensures
            r@ == self.text(),
    {
        let mut out = String::new();
        if self.asterisk {
            out.append("*");
        }
        match &self.element {
            Some(element) => {
                out.append(element.as_str());
            },
            None => {},
        }
        match &self.id {
            Some(id) => {
                out.append("#");
                out.append(id.as_str());
            },
            None => {},
        }
        let ghost head = out@;
        let n = self.classes.len();
        let mut i: usize = 0;
        while i < n
            invariant
                i <= n,
                n == self.classes.order().len(),
                out@ == head + classes_text(self.classes.order().subrange(0, i as int)),
            decreases n - i,
        {
            proof {
                let next = self.classes.order().subrange(0, i + 1);
                assert(next.drop_last() =~= self.classes.order().subrange(0, i as int));
            }
            out.append(".");
            out.append(self.classes.name(i));
            i += 1;
        }
        proof {
            assert(self.classes.order().subrange(0, n as int) =~= self.classes.order());
        }
        out.append(self.pseudo_classes.to_string().as_str());
        match self.relation {
            SelectorRelation::Alone => {},
            SelectorRelation::Ancestor => {
                out.append(" ");
            },
            SelectorRelation::Parent => {
                out.append(">");
            },
        }
        out
    }

    /// Sets the id the node must have.
    pub fn set_id(&mut self, id: &str) -> (r: &mut Selector)
        ensures
            r@ == (SelectorView { id: Some(id@), ..old(self)@ }),
            *final(self) == *final(r),
    {
        self.id = Some(id.to_owned());
        self
    }

    /// Sets the element name the node must have.
    pub fn set_element(&mut self, element: &str) -> (r: &mut Selector)
        ensures
            r@ == (SelectorView { element: Some(element@), ..old(self)@ }),
            *final(self) == *final(r),
    {
        self.element = Some(element.to_owned());
        self
    }
}

impl Default for Selector {
    /// The empty selector.
    fn default() -> (r: Selector)
        ensures
            r@ == (SelectorView {
                id: None,
                element: None,
                classes: Set::empty(),
                pseudo_classes: PseudoClass { bits: 0 },
                relation: SelectorRelation::Alone,
                asterisk: false,
            }),
    {
        Selector {
            id: None,
            element: None,
            classes: ClassSet::new(),
            pseudo_classes: PseudoClass::empty(),
            relation: SelectorRelation::Alone,
            asterisk: false,
        }
    }
}

/// The universal selector without pseudo-classes matches every node,
/// whatever its id, element and classes are.
pub proof fn lemma_universal_matches_all(selector: SelectorView, node: SelectorView)
    requires
        selector.asterisk,
        selector.pseudo_classes.spec_is_empty(),
    ensures
        selector.matches(node),
{
}

/// A selector that asks for classes alone matches the nodes that have all
/// of them and are not described by the universal selector.
pub proof fn lemma_classes_match(selector: SelectorView, node: SelectorView)
    requires
        !selector.asterisk,
        selector.id is None,
        selector.element is None,
        selector.pseudo_classes.spec_is_empty(),
    ensures
        selector.matches(node) <==> selector.classes.subset_of(node.classes) && !node.asterisk,
{
}

/// A selector that asks for an element alone matches the nodes of that
/// element, whatever their classes are, unless they are described by the
/// universal selector.
pub proof fn lemma_element_match(selector: SelectorView, node: SelectorView)
    requires
        !selector.asterisk,
        selector.id is None,
        selector.element is Some,
        selector.classes == Set::<Seq<char>>::empty(),
        selector.pseudo_classes.spec_is_empty(),
    ensures
        selector.matches(node) <==> node.element == selector.element && !node.asterisk,
{
}

/// A selector that names the same target as a node's selector also matches
/// it: the one test is stricter than the other.
pub proof fn lemma_same_implies_matches(selector: SelectorView, node: SelectorView)
    requires
        selector.same(node),
    ensures
        selector.matches(node),
{
    let bits = selector.pseudo_classes.bits;
    assert(bits & bits == bits) by (bit_vector);
}

/// Whether a selector is empty depends on id, element and classes alone:
/// pseudo-classes, relation and asterisk do not count.
pub proof fn lemma_is_empty_ignores_state(a: SelectorView, b: SelectorView)
    requires
        a.id == b.id,
        a.element == b.element,
        a.classes == b.classes,
    ensures
        a.is_empty() == b.is_empty(),
{
}

impl PartialEqSpecImpl for Selector {
    open spec fn obeys_eq_spec() -> bool {
        true
    }

    open spec fn eq_spec(&self, other: &Selector) -> bool {
        self@.matches(other@)
    }
}

impl PartialEq for Selector {
    /// Two selectors compare equal when the first matches the second.
    fn eq(&self, other: &Selector) -> (r: bool) {
        self.matches(other)
    }
}

} // verus!

//! Relations between arguments, and the canonical encoding of their kinds.

use vstd::prelude::*;

verus! {

/// The rhetorical relation that one argument bears to another.
#[derive(Clone, Copy, Debug, PartialEq, Eq, Structural)]
pub enum RelationType {
    Support,
    Attack,
    NotRelated,
}

/// What `str::to_lowercase` makes of a text.
pub uninterp spec fn lowercase_of(text: Seq<char>) -> Seq<char>;

/// Lowers the case of `s` with `str::to_lowercase` of the standard library.
/// Nothing is claimed of the result but that it depends on `s` alone.
#[verifier::external_body]
fn lowercase(s: &str) -> (r: String)
    ensures
        r@ == lowercase_of(s@),
{
    s.to_lowercase()
}

impl RelationType {
    /// The kind that a text in lower case names. Every text names one: what
    /// is neither `support` nor `attack` is taken as unrelated.
    pub open spec fn named_by(lowered: Seq<char>) -> RelationType {
        if lowered == "support"@ {
            RelationType::Support
        } else if lowered == "attack"@ {
            RelationType::Attack
        } else {
            RelationType::NotRelated
        }
    }

    /// The kind that `text` names, whatever its case.
    pub open spec fn decoded(text: Seq<char>) -> RelationType {
        Self::named_by(lowercase_of(text))
    }

    /// The canonical encoding of a kind, which is also the label of the
    /// edges of that kind in the graph store.
    pub open spec fn encoding(self) -> Seq<char> {
        match self {
            RelationType::Support => "Support"@,
            RelationType::Attack => "Attack"@,
            RelationType::NotRelated => "NotRelated"@,
        }
    }

    /// Reads a kind from a text that is already in lower case.
    pub fn from_lowercase(lowered: &str) -> (r: Self)
        ensures
            r == Self::named_by(lowered@),
    {
        let given = lowered.to_owned();
        if given == "support".to_owned() {
            RelationType::Support
        } else if given == "attack".to_owned() {
            RelationType::Attack
        } else {
            RelationType::NotRelated
        }
    }

    /// Reads a kind from a text, without regard to case.
    pub fn from(s: &str) -> (r: Self)
        ensures
            r == Self::decoded(s@),
    {
        let lowered = lowercase(s);
        Self::from_lowercase(lowered.as_str())
    }

    /// The canonical encoding of the kind.
    pub fn to_str(&self) -> (r: &'static str)
        ensures
            r@ == self.encoding(),
    {
        match self {
            RelationType::Support => "Support",
            RelationType::Attack => "Attack",
            RelationType::NotRelated => "NotRelated",
        }
    }
}

/// Confidence is counted in thousandths; this is full confidence.
pub const FULL_CONFIDENCE: u16 = 1000;

/// A directed edge between two stored arguments.
#[derive(Debug)]
pub struct Relation {
    /// The identifier of the argument that the edge leaves.
    pub arg_a_id: u32,
    /// The identifier of the argument that the edge reaches.
    pub arg_b_id: u32,
    pub relation_type: RelationType,
    /// How sure the classification is, in thousandths.
    pub confidence: u16,
    /// The rationale of the classification.
    pub explanation: String,
}

/// The mathematical value of a [`Relation`].
pub struct RelationView {
    pub arg_a_id: u32,
    pub arg_b_id: u32,
    pub relation_type: RelationType,
    pub confidence: u16,
    pub explanation: Seq<char>,
}

impl View for Relation {
    type V = RelationView;

    open spec fn view(&self) -> RelationView {
        RelationView {
            arg_a_id: self.arg_a_id,
            arg_b_id: self.arg_b_id,
            relation_type: self.relation_type,
            confidence: self.confidence,
            explanation: self.explanation@,
        }
    }
}

impl Clone for Relation {
    fn clone(&self) -> (r: Self)
        ensures
            r@ == self@,
    {
        Relation {
            arg_a_id: self.arg_a_id,
            arg_b_id: self.arg_b_id,
            relation_type: self.relation_type,
            confidence: self.confidence,
            explanation: self.explanation.clone(),
        }
    }
}

impl RelationView {
    /// The classification of the edge from `arg_a_id` to `arg_b_id`, with
    /// the confidence and the rationale that every classification has for
    /// now: full confidence and no rationale.
    pub open spec fn classified(arg_a_id: u32, arg_b_id: u32, kind: RelationType) -> RelationView {
        RelationView {
            arg_a_id,
            arg_b_id,
            relation_type: kind,
            confidence: FULL_CONFIDENCE,
            explanation: Seq::empty(),
        }
    }

    /// An edge joins two different arguments, and its confidence is at most
    /// full.
    pub open spec fn well_formed(self) -> bool {
        &&& self.arg_a_id != self.arg_b_id
        &&& self.confidence <= FULL_CONFIDENCE
    }
}

impl Relation {
    /// Classifies the edge from `arg_a_id` to `arg_b_id` as `kind`.
    pub fn classified(arg_a_id: u32, arg_b_id: u32, kind: RelationType) -> (r: Self)
        ensures
            r@ == RelationView::classified(arg_a_id, arg_b_id, kind),
            arg_a_id != arg_b_id ==> r@.well_formed(),
    {
        Relation {
            arg_a_id,
            arg_b_id,
            relation_type: kind,
            confidence: FULL_CONFIDENCE,
            explanation: String::new(),
        }
    }
}

} // verus!

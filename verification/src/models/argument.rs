//! Arguments mined from user-written text.

use vstd::prelude::*;

verus! {

/// What the model derived from a piece of text.
#[derive(Debug)]
pub struct SummarizedInfo {
    pub title: String,
    /// The argument, summarized.
    pub summary: String,
}

/// The mathematical value of a [`SummarizedInfo`].
pub struct SummarizedInfoView {
    pub title: Seq<char>,
    pub summary: Seq<char>,
}

impl View for SummarizedInfo {
    type V = SummarizedInfoView;

    open spec fn view(&self) -> SummarizedInfoView {
        SummarizedInfoView { title: self.title@, summary: self.summary@ }
    }
}

impl Clone for SummarizedInfo {
    fn clone(&self) -> (r: Self)
        ensures
            r@ == self@,
    {
        SummarizedInfo { title: self.title.clone(), summary: self.summary.clone() }
    }
}

/// A mined unit of argumentative content.
#[derive(Debug)]
pub struct Argument {
    /// The identifier that the graph store gave the argument; absent until
    /// the argument is stored.
    pub id: Option<u32>,
    pub summarized_info: SummarizedInfo,
    /// The text from which the argument was mined, unchanged.
    pub raw: String,
}

/// The mathematical value of an [`Argument`].
pub struct ArgumentView {
    pub id: Option<u32>,
    pub summarized_info: SummarizedInfoView,
    pub raw: Seq<char>,
}

impl View for Argument {
    type V = ArgumentView;

    open spec fn view(&self) -> ArgumentView {
        ArgumentView { id: self.id, summarized_info: self.summarized_info@, raw: self.raw@ }
    }
}

impl Clone for Argument {
    fn clone(&self) -> (r: Self)
        ensures
            r@ == self@,
    {
        Argument {
            id: self.id,
            summarized_info: self.summarized_info.clone(),
            raw: self.raw.clone(),
        }
    }
}

impl Argument {
    /// An argument that was never stored.
    pub fn new(summarized_info: SummarizedInfo, raw: String) -> (r: Self)
        ensures
            r@ == (ArgumentView { id: None, summarized_info: summarized_info@, raw: raw@ }),
            !r.is_persisted(),
    {
        Self { id: None, summarized_info, raw }
    }

    /// An argument as the graph store holds it under `id`.
    pub fn with_id(id: u32, summarized_info: SummarizedInfo, raw: String) -> (r: Self)
        ensures
            r@ == (ArgumentView { id: Some(id), summarized_info: summarized_info@, raw: raw@ }),
            r.is_persisted(),
    {
        Self { id: Some(id), summarized_info, raw }
    }

    /// Whether the graph store holds the argument: it does exactly when the
    /// argument has an identifier.
    pub open spec fn is_persisted(&self) -> bool {
        self.id is Some
    }
}

} // verus!

//! Reading the free text that a model answers with.
//!
//! The prompts ask the model to answer in labelled lines. A summary is a line
//! that holds `Title: ` directly followed by a line that begins with
//! `Summary: `; a classification is a line that holds `Relation: `. What
//! follows a label, up to the end of its line, is the field. Where a text
//! holds several such places the leftmost one counts.

use vstd::prelude::*;
use vstd::string::StrSliceExecFns;
use crate::models::{RelationType, SummarizedInfo, SummarizedInfoView};
use crate::text::{chars_of, end_of_line, find_from, first_occurrence, lemma_line_end,
    lemma_line_end_is, line_end, occurs, occurs_at, single_line, stands_at};

verus! {

/// A field of a summary.
#[derive(Clone, Copy, Debug, PartialEq, Eq, Structural)]
pub enum Field {
    Title,
    Summary,
}

impl Field {
    /// The name of the field.
    pub open spec fn name_text(self) -> Seq<char> {
        match self {
            Field::Title => "title"@,
            Field::Summary => "summary"@,
        }
    }

    /// The name of the field.
    pub fn name(&self) -> (r: &'static str)
        ensures
            r@ == self.name_text(),
    {
        match self {
            Field::Title => "title",
            Field::Summary => "summary",
        }
    }
}

/// Why a text is no summary.
#[derive(Clone, Copy, Debug, PartialEq, Eq, Structural)]
pub enum ParseError {
    /// The label of the other field occurs, that of this one does not.
    MissingField(Field),
    /// The text holds neither label, or holds both and yet no title line
    /// with a summary line behind it.
    MalformedResponse,
}

impl ParseError {
    /// What the error says.
    pub open spec fn message(self) -> Seq<char> {
        match self {
            ParseError::MissingField(Field::Title) => "no \"Title\" element found in LLM response"@,
            ParseError::MissingField(Field::Summary) =>
                "no \"Summary\" element found in LLM response"@,
            ParseError::MalformedResponse => "no element found in LLM response"@,
        }
    }

    /// Says what is wrong with the text, for a reader.
    pub fn to_message(&self) -> (r: String)
        ensures
            r@ == self.message(),
    {
        match self {
            ParseError::MissingField(Field::Title) =>
                "no \"Title\" element found in LLM response".to_owned(),
            ParseError::MissingField(Field::Summary) =>
                "no \"Summary\" element found in LLM response".to_owned(),
            ParseError::MalformedResponse => "no element found in LLM response".to_owned(),
        }
    }
}

/// The label before a title.
pub open spec fn title_label() -> Seq<char> {
    "Title: "@
}

/// The label before a summary.
pub open spec fn summary_label() -> Seq<char> {
    "Summary: "@
}

/// The label before a classification.
pub open spec fn relation_label() -> Seq<char> {
    "Relation: "@
}

/// Where the title ends that begins behind a title label at `at`.
pub open spec fn title_end(text: Seq<char>, at: int) -> int {
    line_end(text, at + title_label().len())
}

/// A title label stands at `at`, and the next line begins with a summary
/// label.
pub open spec fn summary_at(text: Seq<char>, at: int) -> bool {
    &&& occurs_at(text, title_label(), at)
    &&& title_end(text, at) < text.len()
    &&& occurs_at(text, summary_label(), title_end(text, at) + 1)
}

/// `at` is the leftmost position at which a summary stands.
pub open spec fn first_summary_at(text: Seq<char>, at: int) -> bool {
    &&& summary_at(text, at)
    &&& forall|k: int| 0 <= k < at ==> !summary_at(text, k)
}

/// The two fields of the summary that stands at `at`.
pub open spec fn fields_at(text: Seq<char>, at: int) -> SummarizedInfoView {
    let summary_start = title_end(text, at) + 1 + summary_label().len();
    SummarizedInfoView {
        title: text.subrange(at + title_label().len(), title_end(text, at)),
        summary: text.subrange(summary_start, line_end(text, summary_start)),
    }
}

/// What a text says as a summary.
pub open spec fn parsed_summary(text: Seq<char>) -> Result<SummarizedInfoView, ParseError> {
    if exists|at: int| summary_at(text, at) {
        Ok(fields_at(text, choose|at: int| first_summary_at(text, at)))
    } else if occurs(text, title_label()) == occurs(text, summary_label()) {
        Err(ParseError::MalformedResponse)
    } else if occurs(text, title_label()) {
        Err(ParseError::MissingField(Field::Summary))
    } else {
        Err(ParseError::MissingField(Field::Title))
    }
}

/// What a text says as a classification: the kind that its leftmost
/// `Relation: ` line names, and unrelated where it has no such line.
pub open spec fn parsed_relation(text: Seq<char>) -> RelationType {
    if occurs(text, relation_label()) {
        let at = choose|at: int| first_occurrence(text, relation_label(), at);
        let start = at + relation_label().len();
        RelationType::decoded(text.subrange(start, line_end(text, start)))
    } else {
        RelationType::NotRelated
    }
}

/// The leftmost summary decides what the text says.
pub proof fn lemma_first_summary_decides(text: Seq<char>, at: int)
    requires
        first_summary_at(text, at),
    ensures
        parsed_summary(text) == Ok::<SummarizedInfoView, ParseError>(fields_at(text, at)),
{
    let chosen = choose|k: int| first_summary_at(text, k);
    assert(summary_at(text, at));
    assert(first_summary_at(text, chosen));
    assert(chosen == at) by {
        if chosen < at {
            assert(0 <= chosen) by {
                assert(occurs_at(text, title_label(), chosen));
            }
            assert(!summary_at(text, chosen));
        } else if at < chosen {
            assert(0 <= at) by {
                assert(occurs_at(text, title_label(), at));
            }
            assert(!summary_at(text, at));
        }
    }
}

/// A title line followed by a summary line is read back as that title and
/// that summary, provided that neither runs over a line.
pub proof fn lemma_summary_round_trip(title: Seq<char>, summary: Seq<char>)
    requires
        single_line(title),
        single_line(summary),
    ensures
        parsed_summary(title_label() + title + seq!['\n'] + summary_label() + summary) == Ok::<
            SummarizedInfoView,
            ParseError,
        >(SummarizedInfoView { title, summary }),
{
    let text = title_label() + title + seq!['\n'] + summary_label() + summary;
    let t0 = title_label().len() as int;
    let t1 = t0 + title.len();
    let s0 = t1 + 1 + summary_label().len();
    assert(text.len() == s0 + summary.len());
    assert(text.subrange(0, t0) =~= title_label());
    assert(forall|k: int| t0 <= k < t1 ==> text[k] == title[k - t0]);
    assert(text[t1] == '\n');
    lemma_line_end_is(text, t0, t1);
    assert(text.subrange(t1 + 1, s0) =~= summary_label());
    assert(forall|k: int| s0 <= k < text.len() ==> text[k] == summary[k - s0]);
    lemma_line_end_is(text, s0, text.len() as int);
    assert(summary_at(text, 0));
    assert(first_summary_at(text, 0));
    assert(text.subrange(t0, t1) =~= title);
    assert(text.subrange(s0, text.len() as int) =~= summary);
    lemma_first_summary_decides(text, 0);
}

/// A text that lacks the label of one field and holds that of the other
/// fails for the field it lacks; one that holds neither label is malformed.
pub proof fn lemma_missing_label(text: Seq<char>)
    ensures
        !occurs(text, title_label()) && occurs(text, summary_label()) ==> parsed_summary(text)
            == Err::<SummarizedInfoView, ParseError>(ParseError::MissingField(Field::Title)),
        occurs(text, title_label()) && !occurs(text, summary_label()) ==> parsed_summary(text)
            == Err::<SummarizedInfoView, ParseError>(ParseError::MissingField(Field::Summary)),
        !occurs(text, title_label()) && !occurs(text, summary_label()) ==> parsed_summary(text)
            == Err::<SummarizedInfoView, ParseError>(ParseError::MalformedResponse),
{
    assert forall|at: int| summary_at(text, at) implies occurs(text, title_label()) && occurs(
        text,
        summary_label(),
    ) by {
        assert(occurs_at(text, title_label(), at));
        assert(occurs_at(text, summary_label(), title_end(text, at) + 1));
    }
}

/// The fields of a summary never run over a line.
pub proof fn lemma_fields_are_single_line(text: Seq<char>, at: int)
    requires
        summary_at(text, at),
    ensures
        single_line(fields_at(text, at).title),
        single_line(fields_at(text, at).summary),
{
    let t0 = at + title_label().len();
    let s0 = title_end(text, at) + 1 + summary_label().len();
    lemma_line_end(text, t0);
    lemma_line_end(text, s0);
}

/// Every text is read as one of the three kinds, and a text without the
/// label as unrelated.
pub proof fn lemma_relation_is_total(text: Seq<char>)
    ensures
        parsed_relation(text) == RelationType::Support || parsed_relation(text)
            == RelationType::Attack || parsed_relation(text) == RelationType::NotRelated,
        !occurs(text, relation_label()) ==> parsed_relation(text) == RelationType::NotRelated,
{
}

/// Reads a summary from the text that a model answered with. Either both
/// fields are recovered or the call fails.
pub fn parse_summary(text: &str) -> (r: Result<SummarizedInfo, ParseError>)
    ensures
        match r {
            Ok(info) => parsed_summary(text@) == Ok::<SummarizedInfoView, ParseError>(info@),
            Err(e) => parsed_summary(text@) == Err::<SummarizedInfoView, ParseError>(e),
        },
{
    let chars = chars_of(text);
    let title = chars_of("Title: ");
    let summary = chars_of("Summary: ");
    proof {
        reveal_strlit("Title: ");
    }
    let mut from: usize = 0;
    loop
        invariant
            chars@ == text@,
            title@ == title_label(),
            summary@ == summary_label(),
            title@.len() == 7,
            forall|k: int| 0 <= k < from ==> !summary_at(text@, k),
            from <= chars.len() + 1,
        ensures
            forall|k: int| !summary_at(text@, k),
        decreases chars.len() + 1 - from,
    {
        match find_from(&chars, &title, from) {
            None => {
                proof {
                    assert forall|k: int| !summary_at(text@, k) by {
                        if summary_at(text@, k) {
                            assert(occurs_at(text@, title_label(), k));
                        }
                    }
                }
                break ;
            },
            Some(at) => {
                proof {
                    assert(occurs_at(chars@, title@, at as int));
                    assert(at + title@.len() <= chars.len());
                }
                let title_start = at + title.len();
                let title_end = end_of_line(&chars, title_start);
                if title_end < chars.len() && stands_at(&chars, &summary, title_end + 1) {
                    let summary_start = title_end + 1 + summary.len();
                    let summary_end = end_of_line(&chars, summary_start);
                    proof {
                        assert forall|k: int| 0 <= k < at implies !summary_at(text@, k) by {
                            if from <= k {
                                assert(!occurs_at(text@, title_label(), k));
                            }
                        }
                        assert(first_summary_at(text@, at as int));
                        lemma_first_summary_decides(text@, at as int);
                    }
                    return Ok(
                        SummarizedInfo {
                            title: text.substring_char(title_start, title_end).to_owned(),
                            summary: text.substring_char(summary_start, summary_end).to_owned(),
                        },
                    );
                }
                proof {
                    assert forall|k: int| 0 <= k < at + 1 implies !summary_at(text@, k) by {
                        if from <= k < at {
                            assert(!occurs_at(text@, title_label(), k));
                        }
                    }
                }
                from = at + 1;
            },
        }
    }
    let has_title = find_from(&chars, &title, 0).is_some();
    let has_summary = find_from(&chars, &summary, 0).is_some();
    proof {
        assert(has_title == occurs(text@, title_label())) by {
            if occurs(text@, title_label()) {
                let at = choose|at: int| occurs_at(text@, title_label(), at);
                assert(occurs_at(text@, title_label(), at));
            }
        }
        assert(has_summary == occurs(text@, summary_label())) by {
            if occurs(text@, summary_label()) {
                let at = choose|at: int| occurs_at(text@, summary_label(), at);
                assert(occurs_at(text@, summary_label(), at));
            }
        }
    }
    if has_title == has_summary {
        Err(ParseError::MalformedResponse)
    } else if has_title {
        Err(ParseError::MissingField(Field::Summary))
    } else {
        Err(ParseError::MissingField(Field::Title))
    }
}

/// Reads a classification from the text that a model answered with. Every
/// text is read as one: what names no kind counts as unrelated.
pub fn parse_relation(text: &str) -> (r: RelationType)
    ensures
        r == parsed_relation(text@),
{
    let chars = chars_of(text);
    let label = chars_of("Relation: ");
    match find_from(&chars, &label, 0) {
        None => {
            proof {
                if occurs(text@, relation_label()) {
                    let at = choose|at: int| occurs_at(text@, relation_label(), at);
                    assert(occurs_at(text@, relation_label(), at));
                }
            }
            RelationType::NotRelated
        },
        Some(at) => {
            proof {
                assert(occurs_at(chars@, label@, at as int));
                assert(at + label@.len() <= chars.len());
            }
            let start = at + label.len();
            let end = end_of_line(&chars, start);
            proof {
                assert(first_occurrence(text@, relation_label(), at as int));
                let chosen = choose|k: int| first_occurrence(text@, relation_label(), k);
                assert(occurs_at(text@, relation_label(), at as int));
                assert(first_occurrence(text@, relation_label(), chosen));
                assert(chosen == at);
            }
            RelationType::from(text.substring_char(start, end))
        },
    }
}

} // verus!

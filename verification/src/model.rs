//! Data model of the normalization engine: anonymization categories,
//! morphological parses as the pipeline consumes them, and the ghost view
//! of an engine's configuration.
use vstd::prelude::*;

verus! {

/// A grammatical category tag relevant to anonymization.
///
/// Precedence is fixed: `Name` is checked first, then `Surname`, then
/// `Patronymic`; a token carrying several tags resolves to the first
/// matching category in this order.
#[derive(Clone, Copy, PartialEq, Eq, Structural, Debug)]
pub enum Category {
    Name,
    Surname,
    Patronymic,
}

/// The single morphological parse of one token, as the pipeline consumes
/// it: the dictionary base form (lemma) and the set of category tags the
/// parse carries. Membership in `tags` is all that matters; order and
/// duplicates are irrelevant.
#[derive(Clone, Debug)]
pub struct Parse {
    pub lemma: String,
    pub tags: Vec<Category>,
}

/// Ghost view of a `Parse`.
pub ghost struct ParseV {
    pub lemma: Seq<char>,
    pub tags: Seq<Category>,
}

impl View for Parse {
    type V = ParseV;

    open spec fn view(&self) -> ParseV {
        ParseV { lemma: self.lemma@, tags: self.tags@ }
    }
}

impl Parse {
    /// Whether this parse carries the given category tag.
    pub fn has_tag(&self, c: Category) -> (r: bool)
        ensures
            r == self@.tags.contains(c),
    {
        let mut i: usize = 0;
        while i < self.tags.len()
            invariant
                i <= self.tags.len(),
                forall|j: int| 0 <= j < i ==> self.tags@[j] != c,
            decreases self.tags.len() - i,
        {
            if self.tags[i] == c {
                return true;
            }
            i += 1;
        }
        false
    }
}

/// Ghost view of an engine configuration: everything the normalization
/// semantics depends on. The worker-pool descriptor is deliberately absent:
/// results must not depend on the execution mode.
pub ghost struct Opts {
    /// Stop words; only membership matters.
    pub stop_words: Seq<Seq<char>>,
    /// Placeholder emitted for a token tagged as a first name.
    pub name_token: Seq<char>,
    /// Placeholder emitted for a token tagged as a surname.
    pub surname_token: Seq<char>,
    /// Placeholder emitted for a token tagged as a patronymic.
    pub patronymic_token: Seq<char>,
    /// Whether anonymization placeholders are substituted at all.
    pub replace_fio: bool,
}

/// View of an optional parse.
pub open spec fn opt_view(p: Option<Parse>) -> Option<ParseV> {
    match p {
        Option::Some(q) => Option::Some(q@),
        Option::None => Option::None,
    }
}

/// Views of a sequence of optional parses (the parses of one text's tokens).
pub open spec fn parses_view(ps: Seq<Option<Parse>>) -> Seq<Option<ParseV>> {
    ps.map_values(|p: Option<Parse>| opt_view(p))
}

/// Views of a sequence of strings.
pub open spec fn strings_view(ss: Seq<String>) -> Seq<Seq<char>> {
    ss.map_values(|s: String| s@)
}

/// Views of a batch of per-text parse sequences.
pub open spec fn batch_view(b: Seq<Vec<Option<Parse>>>) -> Seq<Seq<Option<ParseV>>> {
    b.map_values(|ps: Vec<Option<Parse>>| parses_view(ps@))
}

} // verus!

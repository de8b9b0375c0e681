//! The mathematical meaning of the pipeline: what one token classifies to,
//! which outcomes survive stop-word filtering, and how a text and a batch
//! are assembled from them.
use vstd::prelude::*;

use crate::model::{Category, Opts, ParseV};

verus! {

/// The fixed sentinel emitted for a token the analyzer returned no
/// candidate for. It is ordinary data, not an error.
pub open spec fn unresolved_marker() -> Seq<char> {
    "[PARSE_ERROR]"@
}

/// The placeholder the configuration assigns to a category.
pub open spec fn placeholder_of(o: Opts, c: Category) -> Seq<char> {
    match c {
        Category::Name => o.name_token,
        Category::Surname => o.surname_token,
        Category::Patronymic => o.patronymic_token,
    }
}

/// The category precedence order: `Name`, then `Surname`, then `Patronymic`.
pub open spec fn precedence() -> Seq<Category> {
    seq![Category::Name, Category::Surname, Category::Patronymic]
}

/// The first category in `order` that `tags` carries, if any.
pub open spec fn first_match(tags: Seq<Category>, order: Seq<Category>) -> Option<Category>
    decreases order.len(),
{
    if order.len() == 0 {
        Option::None
    } else if tags.contains(order[0]) {
        Option::Some(order[0])
    } else {
        first_match(tags, order.subrange(1, order.len() as int))
    }
}

/// `first_match` returns the category at the first index of `order` whose
/// tag `tags` carries, when the earlier indices all fail to match.
pub proof fn lemma_first_match_at(tags: Seq<Category>, order: Seq<Category>, i: int)
    requires
        0 <= i < order.len(),
        tags.contains(order[i]),
        forall|j: int| 0 <= j < i ==> !tags.contains(order[j]),
    ensures
        first_match(tags, order) == Option::Some(order[i]),
    decreases i,
{
    if i > 0 {
        lemma_first_match_at(tags, order.subrange(1, order.len() as int), i - 1);
    }
}

/// `first_match` returns nothing when no index of `order` matches.
pub proof fn lemma_first_match_none(tags: Seq<Category>, order: Seq<Category>)
    requires
        forall|j: int| 0 <= j < order.len() ==> !tags.contains(order[j]),
    ensures
        first_match(tags, order) is None,
    decreases order.len(),
{
    if order.len() > 0 {
        lemma_first_match_none(tags, order.subrange(1, order.len() as int));
    }
}

/// The outcome of one token:
/// - no parse candidate: the unresolved marker;
/// - anonymization enabled and a category tag present: the placeholder of
///   the first matching category in precedence order;
/// - otherwise: the parse's lemma.
pub open spec fn classify_spec(o: Opts, p: Option<ParseV>) -> Seq<char> {
    match p {
        Option::None => unresolved_marker(),
        Option::Some(q) => {
            if o.replace_fio {
                match first_match(q.tags, precedence()) {
                    Option::Some(c) => placeholder_of(o, c),
                    Option::None => q.lemma,
                }
            } else {
                q.lemma
            }
        },
    }
}

/// Whether an outcome is filtered out as a stop word (exact, case-sensitive
/// equality against the configured stop words).
pub open spec fn is_stop(o: Opts, w: Seq<char>) -> bool {
    o.stop_words.contains(w)
}

/// The outcomes that survive stop-word filtering, in token order: each
/// token's outcome is kept unless it matches the stop-word set. Filtering
/// happens after classification, so placeholders and the unresolved marker
/// are themselves filtered when configured as stop words.
pub open spec fn survivors(o: Opts, ps: Seq<Option<ParseV>>) -> Seq<Seq<char>>
    decreases ps.len(),
{
    if ps.len() == 0 {
        Seq::empty()
    } else {
        let init = survivors(o, ps.drop_last());
        let w = classify_spec(o, ps.last());
        if is_stop(o, w) {
            init
        } else {
            init.push(w)
        }
    }
}

/// The items joined with a single ASCII space; empty input yields the
/// empty sequence.
pub open spec fn join_spaced(items: Seq<Seq<char>>) -> Seq<char>
    decreases items.len(),
{
    if items.len() == 0 {
        Seq::empty()
    } else if items.len() == 1 {
        items[0]
    } else {
        join_spaced(items.drop_last()) + seq![' '] + items.last()
    }
}

/// The normalization of one text, given the parses of its tokens.
pub open spec fn normalize_spec(o: Opts, ps: Seq<Option<ParseV>>) -> Seq<char> {
    join_spaced(survivors(o, ps))
}

/// The normalization of a batch: one result per text, index-aligned.
pub open spec fn transform_spec(o: Opts, batch: Seq<Seq<Option<ParseV>>>) -> Seq<Seq<char>> {
    batch.map_values(|ps: Seq<Option<ParseV>>| normalize_spec(o, ps))
}

} // verus!

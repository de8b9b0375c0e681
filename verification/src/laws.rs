//! The laws the engine is built around, each proved from the definitions
//! that the public contracts are stated over.
use vstd::prelude::*;

use crate::engine::RSMorphyLemmatizer;
use crate::model::{Category, Opts, ParseV};
use crate::semantics::{
    classify_spec, is_stop, lemma_first_match_at, lemma_first_match_none, normalize_spec,
    precedence, survivors, transform_spec, unresolved_marker,
};

verus! {

/// Law (order preservation): the batch result is pinned by the
/// configuration view alone — `transform_spec` never consults the
/// worker-pool descriptor — so two engines that share a configuration,
/// one holding a pool and one running inline, are bound by `transform`'s
/// contract to identical, index-aligned output lists, for every batch
/// length.
pub proof fn lemma_order_preservation(
    pooled_engine: &RSMorphyLemmatizer,
    inline_engine: &RSMorphyLemmatizer,
    batch: Seq<Seq<Option<ParseV>>>,
)
    requires
        pooled_engine.opts() == inline_engine.opts(),
    ensures
        transform_spec(pooled_engine.opts(), batch) == transform_spec(
            inline_engine.opts(),
            batch,
        ),
        transform_spec(pooled_engine.opts(), batch).len() == batch.len(),
        forall|i: int|
            0 <= i < batch.len() ==> transform_spec(pooled_engine.opts(), batch)[i]
                == normalize_spec(pooled_engine.opts(), batch[i]),
{
}

/// Helper for the fixed-point law: when no token's outcome matches a stop
/// word, every outcome survives filtering, in token order.
proof fn lemma_no_stop_identity(o: Opts, ps: Seq<Option<ParseV>>)
    requires
        forall|i: int| 0 <= i < ps.len() ==> !is_stop(o, #[trigger] classify_spec(o, ps[i])),
    ensures
        survivors(o, ps).len() == ps.len(),
        forall|i: int|
            0 <= i < ps.len() ==> survivors(o, ps)[i] == classify_spec(o, #[trigger] ps[i]),
    decreases ps.len(),
{
    if ps.len() > 0 {
        assert(forall|i: int|
            0 <= i < ps.drop_last().len() ==> ps.drop_last()[i] == #[trigger] ps[i]);
        lemma_no_stop_identity(o, ps.drop_last());
    }
}

/// Law (idempotence of stop-word filtering): a second run is a fixed point
/// once its tokens classify, token for token, to the first run's surviving
/// outcomes and none of those outcomes matches a stop word — that is, once
/// no remaining token matches a stop word or changes under classification,
/// re-normalizing reproduces the first result exactly. (That re-tokenizing
/// the joined output recovers the survivors is a property of the delimiter
/// pattern and the analyzer, outside these definitions; it enters here as
/// the hypothesis relating `second` to `survivors(o, first)`.)
pub proof fn lemma_stop_word_fixed_point(
    o: Opts,
    first: Seq<Option<ParseV>>,
    second: Seq<Option<ParseV>>,
)
    requires
        second.len() == survivors(o, first).len(),
        forall|i: int|
            0 <= i < second.len() ==> #[trigger] classify_spec(o, second[i]) == survivors(
                o,
                first,
            )[i],
        forall|i: int| 0 <= i < second.len() ==> !is_stop(o, #[trigger] classify_spec(o, second[i])),
    ensures
        normalize_spec(o, second) == normalize_spec(o, first),
{
    lemma_no_stop_identity(o, second);
    assert forall|i: int| 0 <= i < second.len() implies survivors(o, second)[i] == survivors(
        o,
        first,
    )[i] by {
        assert(classify_spec(o, second[i]) == survivors(o, first)[i]);
    }
    assert(survivors(o, second) =~= survivors(o, first));
}

/// Law (precedence): with anonymization enabled, a parse carrying the
/// `Name` tag always resolves to the name placeholder; failing that, the
/// `Surname` tag wins over `Patronymic`; failing all three, the lemma is
/// returned. In particular a token tagged both `Surname` and `Patronymic`
/// resolves to the surname placeholder.
pub proof fn lemma_precedence(o: Opts, p: ParseV)
    requires
        o.replace_fio,
    ensures
        p.tags.contains(Category::Name) ==> classify_spec(o, Some(p)) == o.name_token,
        !p.tags.contains(Category::Name) && p.tags.contains(Category::Surname)
            ==> classify_spec(o, Some(p)) == o.surname_token,
        !p.tags.contains(Category::Name) && !p.tags.contains(Category::Surname)
            && p.tags.contains(Category::Patronymic) ==> classify_spec(o, Some(p))
            == o.patronymic_token,
        !p.tags.contains(Category::Name) && !p.tags.contains(Category::Surname)
            && !p.tags.contains(Category::Patronymic) ==> classify_spec(o, Some(p)) == p.lemma,
{
    if p.tags.contains(Category::Name) {
        lemma_first_match_at(p.tags, precedence(), 0);
    } else if p.tags.contains(Category::Surname) {
        lemma_first_match_at(p.tags, precedence(), 1);
    } else if p.tags.contains(Category::Patronymic) {
        lemma_first_match_at(p.tags, precedence(), 2);
    } else {
        lemma_first_match_none(p.tags, precedence());
    }
}

/// Law (anonymization toggle): with anonymization disabled, no placeholder
/// is ever substituted — every token's outcome is its parse's lemma, or the
/// unresolved marker when it has no parse.
pub proof fn lemma_anonymization_toggle(o: Opts, p: Option<ParseV>)
    requires
        !o.replace_fio,
    ensures
        classify_spec(o, p) == (match p {
            Option::None => unresolved_marker(),
            Option::Some(q) => q.lemma,
        }),
{
}

/// Law (anonymization toggle, output level): with anonymization disabled,
/// every string that survives into a normalized output is the lemma of one
/// of the text's parses or the unresolved marker — no other string, in
/// particular no placeholder, is ever substituted.
pub proof fn lemma_toggle_output(o: Opts, ps: Seq<Option<ParseV>>)
    requires
        !o.replace_fio,
    ensures
        forall|i: int|
            0 <= i < survivors(o, ps).len() ==> (#[trigger] survivors(o, ps)[i]
                == unresolved_marker() || exists|j: int|
                0 <= j < ps.len() && ps[j] is Some && survivors(o, ps)[i]
                    == ps[j]->Some_0.lemma),
    decreases ps.len(),
{
    if ps.len() > 0 {
        lemma_toggle_output(o, ps.drop_last());
        let init = survivors(o, ps.drop_last());
        let w = classify_spec(o, ps.last());
        lemma_anonymization_toggle(o, ps.last());
        assert forall|i: int| 0 <= i < survivors(o, ps).len() implies (#[trigger] survivors(
            o,
            ps,
        )[i] == unresolved_marker() || exists|j: int|
            0 <= j < ps.len() && ps[j] is Some && survivors(o, ps)[i]
                == ps[j]->Some_0.lemma) by {
            if i < init.len() {
                assert(survivors(o, ps)[i] == init[i]);
                if init[i] != unresolved_marker() {
                    let j = choose|j: int|
                        0 <= j < ps.drop_last().len() && ps.drop_last()[j] is Some && init[i]
                            == ps.drop_last()[j]->Some_0.lemma;
                    assert(ps[j] == ps.drop_last()[j]);
                    assert(0 <= j < ps.len() && ps[j] is Some && survivors(o, ps)[i]
                        == ps[j]->Some_0.lemma);
                }
            } else {
                assert(survivors(o, ps)[i] == w);
                if ps.last() is Some {
                    assert(ps[ps.len() - 1] is Some && survivors(o, ps)[i] == ps[ps.len()
                        - 1]->Some_0.lemma);
                } else {
                    assert(w == unresolved_marker());
                }
            }
        }
    }
}

/// Law (unresolved fallback): a token with no parse candidate always yields
/// the unresolved marker, whatever the configuration — in particular,
/// regardless of the anonymization setting.
pub proof fn lemma_unresolved_fallback(o: Opts)
    ensures
        classify_spec(o, Option::None) == unresolved_marker(),
{
}

} // verus!

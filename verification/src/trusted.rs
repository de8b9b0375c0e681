//! The boundary to the outside crates: the delimiter pattern is compiled
//! and applied through `regex`, and pooled batch execution runs on a
//! `rayon` thread pool. Verus believes the contracts stated here; each doc
//! comment names the outside function relied on.
use vstd::prelude::*;

use crate::engine::RSMorphyLemmatizer;
use crate::model::{parses_view, strings_view, Parse};
use crate::semantics::normalize_spec;
use rayon::iter::{IntoParallelRefIterator, ParallelIterator};

verus! {

#[verifier::external_type_specification]
#[verifier::external_body]
pub struct ExRegex(regex::Regex);

#[verifier::external_type_specification]
#[verifier::external_body]
pub struct ExRegexError(regex::Error);

#[verifier::external_type_specification]
#[verifier::external_body]
pub struct ExThreadPool(rayon::ThreadPool);

#[verifier::external_type_specification]
#[verifier::external_body]
pub struct ExThreadPoolBuildError(rayon::ThreadPoolBuildError);

/// Whether a pattern is a valid regular expression, that is, whether
/// `regex::Regex::new` accepts it. Validity is a function of the pattern
/// alone.
pub uninterp spec fn pattern_compiles(pattern: Seq<char>) -> bool;

/// The token substrings `regex::Regex::split` yields for a text: the parts
/// of the text between successive non-overlapping matches of the compiled
/// pattern, in text order, with empty substrings between adjacent matches
/// preserved. The split is a function of the compiled regex value and the
/// text alone, the same in every process and on every machine.
pub uninterp spec fn split_of(re: regex::Regex, text: Seq<char>) -> Seq<Seq<char>>;

/// Relies on `regex::Regex::new`: returns `Ok` exactly when the pattern is
/// a valid regular expression.
#[verifier::external_body]
pub(crate) fn compile_regex(pattern: &str) -> (r: Result<regex::Regex, regex::Error>)
    ensures
        r is Ok <==> pattern_compiles(pattern@),
{
    regex::Regex::new(pattern)
}

/// Relies on `regex::Regex::split`: yields the substrings of the text
/// delimited by the matches of the pattern, in text order.
#[verifier::external_body]
pub(crate) fn regex_split(re: &regex::Regex, text: &str) -> (r: Vec<String>)
    ensures
        strings_view(r@) == split_of(*re, text@),
{
    re.split(text).map(|t| t.to_string()).collect()
}

/// Relies on `rayon::ThreadPoolBuilder::build`: builds a pool of `n`
/// worker threads, or reports the operating-system failure. Success
/// depends on the environment, so nothing is promised of the outcome.
#[verifier::external_body]
pub(crate) fn build_pool(n: usize) -> (r: Result<rayon::ThreadPool, rayon::ThreadPoolBuildError>) {
    rayon::ThreadPoolBuilder::new().num_threads(n).build()
}

/// Relies on `rayon::ThreadPool::install` together with `par_iter`, `map`
/// and `collect`: the parallel map runs `normalize` on the pool's workers
/// and, being an indexed parallel iterator, collects the results in input
/// order. Each element of the result is therefore what the verified
/// `normalize` returns for the corresponding input element.
#[verifier::external_body]
pub(crate) fn pool_transform(
    pool: &rayon::ThreadPool,
    eng: &RSMorphyLemmatizer,
    batch: &Vec<Vec<Option<Parse>>>,
) -> (r: Vec<String>)
    ensures
        r@.len() == batch@.len(),
        forall|i: int|
            0 <= i < batch@.len() ==> r@[i]@ == normalize_spec(
                eng.opts(),
                parses_view(batch@[i]@),
            ),
{
    pool.install(|| batch.par_iter().map(|ps| eng.normalize(ps)).collect())
}

} // verus!

//! The engine: an immutable configuration bundle (stop words, placeholder
//! tokens, anonymization switch, compiled delimiter pattern, worker-pool
//! descriptor) together with the token classifier, the text normalizer and
//! the batch dispatcher.
use vstd::prelude::*;

use crate::model::{batch_view, opt_view, parses_view, strings_view, Category, Opts, Parse};
use crate::semantics::{
    classify_spec, is_stop, join_spaced, lemma_first_match_at, lemma_first_match_none,
    normalize_spec, placeholder_of, precedence, survivors, transform_spec, unresolved_marker,
};
use crate::trusted::{
    build_pool, compile_regex, pattern_compiles, pool_transform, regex_split, split_of,
};
use vstd::string::StringExecFns;

verus! {

/// A fatal construction error; no engine is usable after one.
#[derive(Clone, Copy, PartialEq, Eq, Structural, Debug)]
pub enum ConfigError {
    /// The worker count was zero; it must be a positive integer.
    InvalidWorkerCount,
    /// The delimiter pattern failed to compile.
    InvalidSplitPattern,
    /// The worker pool could not be created by the operating system.
    PoolCreation,
}

/// The normalization-and-anonymization engine. Immutable after
/// construction, except that the worker pool may be discarded (demoting the
/// engine to inline execution) at any time without affecting results.
pub struct RSMorphyLemmatizer {
    /// Stop words, filtered out of the output by exact string equality.
    /// Only membership matters; order and duplicates are irrelevant.
    pub stop_words: Vec<String>,
    /// Placeholder emitted for a token tagged as a first name.
    pub name_token: String,
    /// Placeholder emitted for a token tagged as a surname.
    pub surname_token: String,
    /// Placeholder emitted for a token tagged as a patronymic.
    pub patronymic_token: String,
    /// Whether anonymization placeholders are substituted at all.
    pub replace_fio: bool,
    /// The compiled delimiter pattern; matches separate tokens.
    pub split_regex: regex::Regex,
    /// The worker pool, when batches are to run in parallel; `None` means
    /// inline execution on the caller's thread.
    pub executor: Option<rayon::ThreadPool>,
}

/// The category precedence order as a value: `Name`, `Surname`,
/// `Patronymic`. Classification iterates over this list once per token.
pub fn category_precedence() -> (r: Vec<Category>)
    ensures
        r@ == precedence(),
{
    let mut v: Vec<Category> = Vec::new();
    v.push(Category::Name);
    v.push(Category::Surname);
    v.push(Category::Patronymic);
    proof {
        assert(v@ =~= precedence());
    }
    v
}

/// The unresolved-token marker as a value.
pub fn unresolved_marker_string() -> (r: String)
    ensures
        r@ == unresolved_marker(),
{
    "[PARSE_ERROR]".to_owned()
}

impl RSMorphyLemmatizer {
    /// Everything the results depend on: the worker-pool descriptor is
    /// deliberately not part of it.
    pub open spec fn opts(&self) -> Opts {
        Opts {
            stop_words: self.stop_words@.map_values(|s: String| s@),
            name_token: self.name_token@,
            surname_token: self.surname_token@,
            patronymic_token: self.patronymic_token@,
            replace_fio: self.replace_fio,
        }
    }

    /// Whether a worker pool is currently held.
    pub open spec fn pooled(&self) -> bool {
        self.executor is Some
    }

    /// The compiled delimiter pattern.
    pub open spec fn regex_val(&self) -> regex::Regex {
        self.split_regex
    }

    /// Constructs an engine from explicit, fully enumerated options.
    /// Construction fails fatally when the worker count is zero, when the
    /// delimiter pattern does not compile, or when a requested pool cannot
    /// be created; no partially configured engine is ever exposed. A pool
    /// is created exactly when more than one worker is requested.
    pub fn new(
        stop_words: Vec<String>,
        name_token: String,
        surname_token: String,
        patronymic_token: String,
        replace_fio: bool,
        n_jobs: usize,
        split_re: &str,
    ) -> (r: Result<RSMorphyLemmatizer, ConfigError>)
        ensures
            (r matches Err(ConfigError::InvalidWorkerCount)) <==> n_jobs == 0,
            n_jobs >= 1 ==> ((r matches Err(ConfigError::InvalidSplitPattern)) <==> !pattern_compiles(
                split_re@,
            )),
            (r matches Err(ConfigError::PoolCreation)) ==> n_jobs > 1 && pattern_compiles(
                split_re@,
            ),
            n_jobs == 1 && pattern_compiles(split_re@) ==> r is Ok,
            r matches Ok(e) ==> e.opts() == (Opts {
                stop_words: stop_words@.map_values(|s: String| s@),
                name_token: name_token@,
                surname_token: surname_token@,
                patronymic_token: patronymic_token@,
                replace_fio,
            }),
            r matches Ok(e) ==> (e.pooled() <==> n_jobs > 1),
    {
        if n_jobs == 0 {
            return Err(ConfigError::InvalidWorkerCount);
        }
        let split_regex = match compile_regex(split_re) {
            Ok(re) => re,
            Err(_) => {
                return Err(ConfigError::InvalidSplitPattern);
            },
        };
        let executor = if n_jobs > 1 {
            match build_pool(n_jobs) {
                Ok(p) => Some(p),
                Err(_) => {
                    return Err(ConfigError::PoolCreation);
                },
            }
        } else {
            None
        };
        Ok(
            RSMorphyLemmatizer {
                stop_words,
                name_token,
                surname_token,
                patronymic_token,
                replace_fio,
                split_regex,
                executor,
            },
        )
    }

    /// Discards the worker pool, demoting the engine to inline execution.
    /// Always succeeds; irreversible without reconstruction. The
    /// configuration the results depend on is untouched.
    pub fn to_single_thread(&mut self)
        ensures
            !final(self).pooled(),
            final(self).opts() == old(self).opts(),
            final(self).regex_val() == old(self).regex_val(),
    {
        self.executor = None;
    }

    /// Splits one text into its ordered token substrings with the
    /// configured delimiter pattern. Consecutive delimiters yield empty
    /// tokens, which are preserved here and not special-cased anywhere
    /// downstream: an empty token classifies like any other.
    pub fn tokenize(&self, text: &str) -> (r: Vec<String>)
        ensures
            strings_view(r@) == split_of(self.regex_val(), text@),
    {
        regex_split(&self.split_regex, text)
    }

    /// The placeholder configured for a category.
    pub fn placeholder(&self, c: Category) -> (r: &String)
        ensures
            r@ == placeholder_of(self.opts(), c),
    {
        match c {
            Category::Name => &self.name_token,
            Category::Surname => &self.surname_token,
            Category::Patronymic => &self.patronymic_token,
        }
    }

    /// The token classifier: decides the output string for one token from
    /// its parse. A token with no parse candidate yields the unresolved
    /// marker; with anonymization enabled, the first category in precedence
    /// order whose tag the parse carries yields its placeholder; otherwise
    /// the parse's lemma is returned. Pure: no caching, no mutation.
    pub fn classify(&self, parse: &Option<Parse>) -> (r: String)
        ensures
            r@ == classify_spec(self.opts(), opt_view(*parse)),
    {
        match parse {
            None => unresolved_marker_string(),
            Some(p) => {
                if self.replace_fio {
                    let cats = category_precedence();
                    let mut i: usize = 0;
                    while i < cats.len()
                        invariant
                            i <= cats.len(),
                            cats@ == precedence(),
                            self.replace_fio,
                            opt_view(*parse) == Option::Some(p@),
                            forall|j: int| 0 <= j < i ==> !p@.tags.contains(precedence()[j]),
                        decreases cats.len() - i,
                    {
                        if p.has_tag(cats[i]) {
                            proof {
                                lemma_first_match_at(p@.tags, precedence(), i as int);
                            }
                            return self.placeholder(cats[i]).clone();
                        }
                        i += 1;
                    }
                    proof {
                        lemma_first_match_none(p@.tags, precedence());
                    }
                }
                p.lemma.clone()
            },
        }
    }

    /// Whether an outcome matches the stop-word set (exact, case-sensitive
    /// string equality).
    fn is_stop_word(&self, w: &String) -> (r: bool)
        ensures
            r == is_stop(self.opts(), w@),
    {
        let mut i: usize = 0;
        while i < self.stop_words.len()
            invariant
                i <= self.stop_words.len(),
                forall|j: int| 0 <= j < i ==> self.stop_words@[j]@ != w@,
            decreases self.stop_words.len() - i,
        {
            if self.stop_words[i].eq(w) {
                assert(self.opts().stop_words[i as int] == w@);
                return true;
            }
            i += 1;
        }
        proof {
            if is_stop(self.opts(), w@) {
                let j = choose|j: int|
                    0 <= j < self.opts().stop_words.len() && self.opts().stop_words[j] == w@;
                assert(self.stop_words@[j]@ == w@);
            }
        }
        false
    }

    /// The text normalizer, given the parses of one text's tokens in token
    /// order: classifies each token, removes every outcome that matches the
    /// stop-word set, and joins the survivors with a single ASCII space.
    /// Zero survivors yield the empty string.
    pub fn normalize(&self, parses: &Vec<Option<Parse>>) -> (r: String)
        ensures
            r@ == normalize_spec(self.opts(), parses_view(parses@)),
    {
        let ghost o = self.opts();
        let mut out = String::new();
        let ghost mut kept: Seq<Seq<char>> = Seq::empty();
        let mut any: bool = false;
        let mut i: usize = 0;
        proof {
            assert(parses_view(parses@.take(0)) =~= Seq::<Option<crate::model::ParseV>>::empty());
        }
        while i < parses.len()
            invariant
                i <= parses.len(),
                o == self.opts(),
                kept == survivors(o, parses_view(parses@.take(i as int))),
                out@ == join_spaced(kept),
                any == (kept.len() > 0),
            decreases parses.len() - i,
        {
            let outc = self.classify(&parses[i]);
            proof {
                let prev = parses_view(parses@.take(i as int));
                let cur = parses_view(parses@.take(i as int + 1));
                assert(parses@.take(i as int + 1) =~= parses@.take(i as int).push(
                    parses@[i as int],
                ));
                assert(cur =~= prev.push(opt_view(parses@[i as int])));
                assert(cur.drop_last() =~= prev);
                assert(cur.last() == opt_view(parses@[i as int]));
            }
            if !self.is_stop_word(&outc) {
                if any {
                    out.append(" ");
                    proof {
                        reveal_strlit(" ");
                        assert(" "@ =~= seq![' ']);
                    }
                }
                out.append(outc.as_str());
                any = true;
                proof {
                    assert((kept.push(outc@)).drop_last() =~= kept);
                    kept = kept.push(outc@);
                }
            }
            i += 1;
        }
        proof {
            assert(parses@.take(parses@.len() as int) =~= parses@);
        }
        out
    }

    /// The batch dispatcher: one normalized string per input text, in input
    /// order, whichever execution mode runs. With a worker pool the texts
    /// are distributed across it; without one they are processed on the
    /// caller's thread. The result is pinned by the configuration alone,
    /// never by the execution mode.
    pub fn transform(&self, batch: &Vec<Vec<Option<Parse>>>) -> (r: Vec<String>)
        ensures
            r@.len() == batch@.len(),
            forall|i: int|
                0 <= i < batch@.len() ==> r@[i]@ == normalize_spec(
                    self.opts(),
                    parses_view(batch@[i]@),
                ),
            strings_view(r@) == transform_spec(self.opts(), batch_view(batch@)),
    {
        let r = match &self.executor {
            Some(pool) => pool_transform(pool, self, batch),
            None => {
                let mut out: Vec<String> = Vec::new();
                let mut i: usize = 0;
                while i < batch.len()
                    invariant
                        i <= batch.len(),
                        out@.len() == i,
                        forall|j: int|
                            0 <= j < i ==> out@[j]@ == normalize_spec(
                                self.opts(),
                                parses_view(batch@[j]@),
                            ),
                    decreases batch.len() - i,
                {
                    let s = self.normalize(&batch[i]);
                    out.push(s);
                    i += 1;
                }
                out
            },
        };
        proof {
            assert(strings_view(r@) =~= transform_spec(self.opts(), batch_view(batch@)));
        }
        r
    }
}

} // verus!

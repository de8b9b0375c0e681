use rsmorphy_lemmatizer::engine::{ConfigError, RSMorphyLemmatizer};
use rsmorphy_lemmatizer::model::{Category, Parse};

fn strings(items: &[&str]) -> Vec<String> {
    items.iter().map(|s| s.to_string()).collect()
}

fn parse(lemma: &str, tags: &[Category]) -> Option<Parse> {
    Some(Parse { lemma: lemma.to_string(), tags: tags.to_vec() })
}

fn engine(stop_words: &[&str], replace_fio: bool, n_jobs: usize, split_re: &str) -> RSMorphyLemmatizer {
    RSMorphyLemmatizer::new(
        strings(stop_words),
        "[Name]".to_string(),
        "[Surn]".to_string(),
        "[Patr]".to_string(),
        replace_fio,
        n_jobs,
        split_re,
    )
    .unwrap()
}

#[test]
fn example_pipeline_drops_stop_word_and_anonymizes() {
    let eng = engine(&["a"], true, 1, "\\s");
    let tokens = eng.tokenize("Ivan a Petrov");
    assert_eq!(tokens, strings(&["Ivan", "a", "Petrov"]));
    let parses = vec![
        parse("иван", &[Category::Name]),
        parse("a", &[]),
        parse("петров", &[Category::Surname]),
    ];
    let out = eng.transform(&vec![parses]);
    assert_eq!(out, strings(&["[Name] [Surn]"]));
}

#[test]
fn tokenize_preserves_empty_tokens() {
    let eng = engine(&[], true, 1, "\\s");
    assert_eq!(eng.tokenize("Ivan  Petrov"), strings(&["Ivan", "", "Petrov"]));
    assert_eq!(eng.tokenize(" x"), strings(&["", "x"]));
}

#[test]
fn tokenize_uses_configured_pattern() {
    let eng = engine(&[], true, 1, ",");
    assert_eq!(eng.tokenize("a,b,,c"), strings(&["a", "b", "", "c"]));
    assert_eq!(eng.tokenize(""), strings(&[""]));
}

#[test]
fn construction_rejects_zero_workers() {
    let r = RSMorphyLemmatizer::new(
        strings(&[]),
        "[Name]".to_string(),
        "[Surn]".to_string(),
        "[Patr]".to_string(),
        true,
        0,
        "\\s",
    );
    assert!(matches!(r, Err(ConfigError::InvalidWorkerCount)));
}

#[test]
fn construction_rejects_bad_pattern() {
    let r = RSMorphyLemmatizer::new(
        strings(&[]),
        "[Name]".to_string(),
        "[Surn]".to_string(),
        "[Patr]".to_string(),
        true,
        1,
        "(",
    );
    assert!(matches!(r, Err(ConfigError::InvalidSplitPattern)));
}

#[test]
fn precedence_name_then_surname_then_patronymic() {
    let eng = engine(&[], true, 1, "\\s");
    let both = parse("петров", &[Category::Surname, Category::Patronymic]);
    assert_eq!(eng.classify(&both), "[Surn]");
    let all = parse("иван", &[Category::Patronymic, Category::Surname, Category::Name]);
    assert_eq!(eng.classify(&all), "[Name]");
    let patr = parse("иванович", &[Category::Patronymic]);
    assert_eq!(eng.classify(&patr), "[Patr]");
    let none = parse("дом", &[]);
    assert_eq!(eng.classify(&none), "дом");
}

#[test]
fn disabling_anonymization_emits_lemmas_only() {
    let eng = engine(&[], false, 1, "\\s");
    assert_eq!(eng.classify(&parse("иван", &[Category::Name])), "иван");
    assert_eq!(eng.classify(&parse("петров", &[Category::Surname])), "петров");
    assert_eq!(eng.classify(&None), "[PARSE_ERROR]");
}

#[test]
fn unresolved_token_yields_marker_in_both_modes() {
    let on = engine(&[], true, 1, "\\s");
    let off = engine(&[], false, 1, "\\s");
    assert_eq!(on.classify(&None), "[PARSE_ERROR]");
    assert_eq!(off.classify(&None), "[PARSE_ERROR]");
}

#[test]
fn pooled_and_inline_execution_agree() {
    let pooled = engine(&["и"], true, 4, "\\s");
    let inline = engine(&["и"], true, 1, "\\s");
    let batch = vec![
        vec![
            parse("иван", &[Category::Name]),
            parse("и", &[]),
            parse("петров", &[Category::Surname]),
        ],
        vec![parse("дом", &[]), None],
        vec![],
        vec![None, None],
        vec![parse("оля", &[Category::Name])],
    ];
    let a = pooled.transform(&batch);
    let b = inline.transform(&batch);
    assert_eq!(a, b);
    assert_eq!(
        a,
        strings(&["[Name] [Surn]", "дом [PARSE_ERROR]", "", "[PARSE_ERROR] [PARSE_ERROR]", "[Name]"])
    );
}

#[test]
fn demotion_keeps_results_identical() {
    let mut eng = engine(&[], true, 3, "\\s");
    let batch = vec![vec![parse("иван", &[Category::Name]), None]];
    let before = eng.transform(&batch);
    eng.to_single_thread();
    let after = eng.transform(&batch);
    assert_eq!(before, after);
    assert_eq!(after, strings(&["[Name] [PARSE_ERROR]"]));
}

#[test]
fn empty_batch_and_empty_text() {
    let eng = engine(&["a"], true, 1, "\\s");
    assert_eq!(eng.transform(&vec![]), Vec::<String>::new());
    assert_eq!(eng.normalize(&vec![]), "");
    let all_stopped = vec![parse("a", &[]), parse("a", &[])];
    assert_eq!(eng.normalize(&all_stopped), "");
}

#[test]
fn filtering_happens_after_classification() {
    let eng = engine(&["[Name]"], true, 1, "\\s");
    let parses = vec![parse("иван", &[Category::Name]), parse("дом", &[])];
    assert_eq!(eng.normalize(&parses), "дом");
}

#[test]
fn marker_itself_can_be_a_stop_word() {
    let eng = engine(&["[PARSE_ERROR]"], true, 1, "\\s");
    let parses = vec![None, parse("дом", &[])];
    assert_eq!(eng.normalize(&parses), "дом");
}

#[test]
fn rerun_on_own_output_is_a_fixed_point() {
    let eng = engine(&["a"], true, 1, "\\s");
    let first = vec![
        parse("иван", &[Category::Name]),
        parse("a", &[]),
        parse("дом", &[]),
    ];
    let out = eng.normalize(&first);
    assert_eq!(out, "[Name] дом");
    let second: Vec<Option<Parse>> =
        eng.tokenize(&out).into_iter().map(|t| parse(&t, &[])).collect();
    assert_eq!(eng.normalize(&second), out);
}

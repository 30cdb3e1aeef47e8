use tagsinate::config::{
    parse, resolve_field, resolve_jobs, Config, ConfigData, ConfigError, DefineData, Defaults,
    Field, Job, LanguageMapData, Override, OverridePathData,
};

fn s(t: &str) -> String {
    t.to_string()
}

fn doc(recurse: &str) -> ConfigData {
    ConfigData {
        binary: s("ctags"),
        output_file: None,
        recurse: s(recurse),
        languages: None,
        language_maps: None,
        extras: None,
        exclude: None,
        exclude_exception: None,
        defines: Vec::new(),
        paths: Vec::new(),
        override_paths: Vec::new(),
    }
}

fn over(path: &str) -> OverridePathData {
    OverridePathData {
        path: s(path),
        recurse: None,
        languages: None,
        language_maps: None,
        extras: None,
        exclude: None,
        exclude_exception: None,
    }
}

fn resolve(data: &ConfigData) -> Config {
    parse(data).expect("document is well formed")
}

#[test]
fn scenario_extras_extended_and_recurse_overridden() {
    let mut d = doc("true");
    d.extras = Some(s("+q"));
    d.paths = vec![s("src")];
    let mut o = over("vendor");
    o.recurse = Some(s("false"));
    o.extras = Some(s("${extras}-x"));
    d.override_paths = vec![o];
    let c = resolve(&d);
    assert_eq!(c.jobs.len(), 2);
    assert_eq!(c.jobs[0].path, "src");
    assert!(c.jobs[0].recurse);
    assert_eq!(c.jobs[0].extras, Some(s("+q")));
    assert_eq!(c.jobs[1].path, "vendor");
    assert!(!c.jobs[1].recurse);
    assert_eq!(c.jobs[1].extras, Some(s("+q-x")));
}

#[test]
fn scenario_override_language_maps_without_default() {
    let mut d = doc("true");
    let mut o = over("include");
    o.language_maps = Some(vec![LanguageMapData { language: s("C++"), extensions: s(".hpp") }]);
    d.override_paths = vec![o];
    let c = resolve(&d);
    assert_eq!(c.jobs[0].language_maps, Some(s("C++:.hpp")));
}

#[test]
fn scenario_placeholder_of_absent_default_is_absent() {
    let mut d = doc("true");
    let mut o = over("lib");
    o.extras = Some(s("${extras}"));
    d.override_paths = vec![o];
    let c = resolve(&d);
    assert_eq!(c.jobs[0].extras, None);
}

#[test]
fn empty_override_equals_defaults() {
    let mut d = doc("false");
    d.languages = Some(s("C,C++"));
    d.language_maps = Some(vec![LanguageMapData { language: s("C"), extensions: s(".h") }]);
    d.extras = Some(s("+q"));
    d.exclude = Some(s(""));
    d.exclude_exception = Some(s("keep"));
    d.defines = vec![DefineData { symbol: s("X"), definition: Some(s("1")) }];
    d.paths = vec![s("a")];
    d.override_paths = vec![over("a")];
    let c = resolve(&d);
    assert_eq!(c.jobs[0], c.jobs[1]);
    assert_eq!(c.jobs[1].exclude, Some(s("")));
    assert_eq!(c.jobs[1].language_maps, Some(s("C:.h")));
    assert_eq!(c.jobs[1].defines, vec![(s("X"), Some(s("1")))]);
}

#[test]
fn override_text_without_placeholder_passes_through() {
    let mut d = doc("true");
    d.languages = Some(s("C"));
    d.exclude = Some(s("build"));
    let mut o = over("p");
    o.languages = Some(s("Rust"));
    o.exclude = Some(s("${extras}"));
    d.override_paths = vec![o];
    let c = resolve(&d);
    assert_eq!(c.jobs[0].languages, Some(s("Rust")));
    assert_eq!(c.jobs[0].exclude, Some(s("${extras}")));
}

#[test]
fn empty_override_text_resolves_to_absent() {
    let mut d = doc("true");
    d.languages = Some(s("C"));
    let mut o = over("p");
    o.languages = Some(s(""));
    d.override_paths = vec![o];
    let c = resolve(&d);
    assert_eq!(c.jobs[0].languages, None);
}

#[test]
fn placeholder_between_prefix_and_suffix() {
    let mut d = doc("true");
    d.extras = Some(s("+fq"));
    let mut o = over("p");
    o.extras = Some(s("prefix ${extras} suffix"));
    d.override_paths = vec![o.clone()];
    assert_eq!(resolve(&d).jobs[0].extras, Some(s("prefix +fq suffix")));
    d.extras = None;
    assert_eq!(resolve(&d).jobs[0].extras, Some(s("prefix  suffix")));
}

#[test]
fn whitespace_only_result_is_kept() {
    let mut d = doc("true");
    let mut o = over("p");
    o.extras = Some(s(" ${extras} "));
    d.override_paths = vec![o];
    assert_eq!(resolve(&d).jobs[0].extras, Some(s("  ")));
}

#[test]
fn every_placeholder_occurrence_is_replaced_once() {
    let mut d = doc("true");
    d.exclude_exception = Some(s("${excludeException}"));
    d.exclude = Some(s("x"));
    let mut o = over("p");
    o.exclude_exception = Some(s("${excludeException}|${excludeException}"));
    o.exclude = Some(s("${exclude}${exclude}"));
    d.override_paths = vec![o];
    let c = resolve(&d);
    assert_eq!(
        c.jobs[0].exclude_exception,
        Some(s("${excludeException}|${excludeException}"))
    );
    assert_eq!(c.jobs[0].exclude, Some(s("xx")));
}

#[test]
fn language_map_placeholder_splices_default() {
    let mut d = doc("true");
    d.language_maps = Some(vec![LanguageMapData { language: s("C"), extensions: s(".h") }]);
    let mut o = over("p");
    o.language_maps = Some(vec![
        LanguageMapData { language: s("${language_maps},C++"), extensions: s(".hpp") },
    ]);
    d.override_paths = vec![o];
    assert_eq!(resolve(&d).jobs[0].language_maps, Some(s("C:.h,C++:.hpp")));
}

#[test]
fn empty_language_map_list_resolves_to_absent() {
    let mut d = doc("true");
    d.language_maps = Some(vec![LanguageMapData { language: s("C"), extensions: s(".h") }]);
    let mut o = over("p");
    o.language_maps = Some(Vec::new());
    d.override_paths = vec![o];
    d.paths = vec![s("q")];
    let c = resolve(&d);
    assert_eq!(c.jobs[0].language_maps, Some(s("C:.h")));
    assert_eq!(c.jobs[1].language_maps, None);
}

#[test]
fn jobs_follow_document_order() {
    let mut d = doc("true");
    d.paths = vec![s("A"), s("B")];
    d.override_paths = vec![over("C"), over("D")];
    let c = resolve(&d);
    let order: Vec<&str> = c.jobs.iter().map(|j| j.path.as_str()).collect();
    assert_eq!(order, vec!["A", "B", "C", "D"]);
}

#[test]
fn same_override_path_twice_gives_two_jobs() {
    let mut d = doc("true");
    let mut second = over("C");
    second.recurse = Some(s("false"));
    d.override_paths = vec![over("C"), second];
    let c = resolve(&d);
    assert_eq!(c.jobs.len(), 2);
    assert!(c.jobs[0].recurse);
    assert!(!c.jobs[1].recurse);
}

#[test]
fn defines_are_copied_to_every_job() {
    let mut d = doc("true");
    d.defines = vec![
        DefineData { symbol: s("A"), definition: None },
        DefineData { symbol: s("B"), definition: Some(s("2")) },
    ];
    d.paths = vec![s("x")];
    let mut o = over("y");
    o.extras = Some(s("+q"));
    o.languages = Some(s("C"));
    d.override_paths = vec![o];
    let c = resolve(&d);
    let want = vec![(s("A"), None), (s("B"), Some(s("2")))];
    for j in &c.jobs {
        assert_eq!(j.defines, want);
    }
}

#[test]
fn output_file_defaults_to_tags() {
    let mut d = doc("true");
    let c = resolve(&d);
    assert_eq!(c.output_file, "tags");
    assert_eq!(c.binary, "ctags");
    assert!(c.jobs.is_empty());
    d.output_file = Some(s("out.tags"));
    assert_eq!(resolve(&d).output_file, "out.tags");
}

#[test]
fn malformed_document_recurse_is_refused() {
    let mut d = doc("yes");
    d.override_paths = vec![{
        let mut o = over("p");
        o.recurse = Some(s("nope"));
        o
    }];
    assert_eq!(parse(&d), Err(ConfigError::InvalidRecurse { value: s("yes") }));
    assert_eq!(
        parse(&doc("True")),
        Err(ConfigError::InvalidRecurse { value: s("True") })
    );
}

#[test]
fn malformed_override_recurse_is_refused() {
    let mut d = doc("true");
    let mut bad = over("q");
    bad.recurse = Some(s("1"));
    let mut worse = over("r");
    worse.recurse = Some(s(""));
    d.paths = vec![s("a")];
    d.override_paths = vec![over("p"), bad, worse];
    assert_eq!(
        parse(&d),
        Err(ConfigError::InvalidOverrideRecurse { index: 1, value: s("1") })
    );
}

#[test]
fn resolve_field_cases() {
    let tok = Field::Extras.token();
    assert_eq!(tok, "${extras}");
    assert_eq!(resolve_field(&None, tok, &Some(s("d"))), Some(s("d")));
    assert_eq!(resolve_field(&None, tok, &None), None);
    assert_eq!(resolve_field(&Some(s("a${extras}b")), tok, &Some(s("d"))), Some(s("adb")));
    assert_eq!(resolve_field(&Some(s("a${extras}b")), tok, &None), Some(s("ab")));
    assert_eq!(resolve_field(&Some(s("")), tok, &Some(s("d"))), None);
}

#[test]
fn field_tokens() {
    assert_eq!(Field::Languages.token(), "${languages}");
    assert_eq!(Field::LanguageMaps.token(), "${language_maps}");
    assert_eq!(Field::Extras.token(), "${extras}");
    assert_eq!(Field::Exclude.token(), "${exclude}");
    assert_eq!(Field::ExcludeException.token(), "${excludeException}");
}

#[test]
fn resolve_jobs_from_typed_records() {
    let defaults = Defaults {
        recurse: false,
        languages: Some(s("C")),
        language_maps: None,
        extras: None,
        exclude: None,
        exclude_exception: None,
        defines: Vec::new(),
    };
    let o = Override {
        path: s("o"),
        recurse: Some(true),
        languages: Some(s("${languages},Go")),
        language_maps: None,
        extras: None,
        exclude: None,
        exclude_exception: None,
    };
    let jobs = resolve_jobs(&defaults, &vec![s("p")], &vec![o]);
    assert_eq!(
        jobs[0],
        Job {
            path: s("p"),
            recurse: false,
            languages: Some(s("C")),
            language_maps: None,
            extras: None,
            exclude: None,
            exclude_exception: None,
            defines: Vec::new(),
        }
    );
    assert!(jobs[1].recurse);
    assert_eq!(jobs[1].languages, Some(s("C,Go")));
}

#[test]
fn typed_readers_report_errors() {
    let mut o = over("p");
    o.recurse = Some(s("false"));
    assert_eq!(Override::from_data(&o, 3).unwrap().recurse, Some(false));
    o.recurse = Some(s("FALSE"));
    assert_eq!(
        Override::from_data(&o, 3),
        Err(ConfigError::InvalidOverrideRecurse { index: 3, value: s("FALSE") })
    );
    assert!(Defaults::from_data(&doc("true")).unwrap().recurse);
    assert!(Defaults::from_data(&doc("")).is_err());
}

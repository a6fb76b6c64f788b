use extension_packager::diff::{changed_extension_ids, unpublished_extension_ids};
use extension_packager::manifest::{
    select_manifest, ExtensionManifest, ExtensionManifestFormat, GrammarManifestEntry,
    LanguageServerManifestEntry, LibManifestEntry, ManifestError, ManifestProbe,
};
use extension_packager::package::{
    add_grammar, add_language, add_theme, archive_name, begin_package, check_theme,
    check_version, language_package_path, new_package_manifest, theme_package_path,
    PackageError,
};
use extension_packager::registry::{ExtensionId, ExtensionInfo, Registry};
use extension_packager::theme::{
    theme_verdict, validate_theme, ThemeDocument, ThemeSchema, THEME_FAMILY_SCHEMA,
};
use indexmap::IndexMap;

const MINIMAL_THEME: &str = r#"{
  "name": "Demo",
  "author": "Someone",
  "themes": []
}"#;

const FULL_THEME: &str = r##"{
  // relaxed JSON: comments and trailing commas are accepted
  "$schema": "https://example.invalid/theme.json",
  "name": "Demo",
  "author": "Someone",
  "themes": [
    { "name": "Demo Dark", "appearance": "dark", "style": { "background": "#000000" }, },
  ],
}"##;

const THEME_WITHOUT_AUTHOR: &str = r#"{ "name": "Demo", "themes": [] }"#;

fn id(s: &str) -> ExtensionId {
    ExtensionId::new(s.to_string())
}

fn info(path: &str, version: &str) -> ExtensionInfo {
    ExtensionInfo { path: path.to_string(), version: version.to_string() }
}

fn registry(entries: &[(&str, &str)]) -> Registry {
    let mut r = Registry::new();
    for (name, version) in entries {
        r.insert(id(name), info(&format!("./{}", name), version));
    }
    r
}

fn names(ids: &[ExtensionId]) -> Vec<String> {
    ids.iter().map(|i| i.to_string()).collect()
}

fn manifest(name: &str, version: &str) -> ExtensionManifest {
    ExtensionManifest {
        name: name.to_string(),
        version: version.to_string(),
        description: Some("A demo".to_string()),
        repository: Some("https://example.invalid/demo".to_string()),
        authors: vec!["Someone <someone@example.invalid>".to_string()],
        lib: Some(LibManifestEntry { path: "lib/demo.wasm".to_string() }),
        themes: vec!["themes/old.json".to_string()],
        languages: vec!["languages/old".to_string()],
        grammars: IndexMap::new(),
        language_servers: IndexMap::new(),
    }
}

fn schema() -> ThemeSchema {
    ThemeSchema::embedded().unwrap()
}

#[test]
fn registry_keeps_insertion_order() {
    let r = registry(&[("zeta", "1.0.0"), ("alpha", "2.0.0"), ("mid", "0.1.0")]);
    assert_eq!(r.len(), 3);
    let keys: Vec<String> = (0..r.len()).map(|i| r.entry(i).0.clone()).collect();
    assert_eq!(keys, vec!["zeta", "alpha", "mid"]);
}

#[test]
fn registry_insert_of_known_id_keeps_place() {
    let mut r = registry(&[("a", "1.0.0"), ("b", "1.0.0")]);
    r.insert(id("a"), info("./elsewhere", "1.1.0"));
    assert_eq!(r.len(), 2);
    assert_eq!(r.entry(0).0, "a");
    assert_eq!(r.entry(0).1.version, "1.1.0");
    assert_eq!(r.entry(0).1.path, "./elsewhere");
}

#[test]
fn registry_lookup() {
    let r = registry(&[("demo", "0.1.0")]);
    let found = r.get(&id("demo")).unwrap();
    assert_eq!(found.path, "./demo");
    assert_eq!(found.version, "0.1.0");
    assert!(r.get(&id("other")).is_none());
}

#[test]
fn changed_reports_new_and_bumped_in_current_order() {
    let current = registry(&[("new", "1.0.0"), ("same", "1.0.0"), ("bumped", "1.1.0")]);
    let baseline = registry(&[("bumped", "1.0.0"), ("same", "1.0.0"), ("gone", "3.0.0")]);
    let changed = changed_extension_ids(&current, &baseline);
    assert_eq!(names(&changed), vec!["new", "bumped"]);
}

#[test]
fn changed_against_itself_is_empty() {
    let r = registry(&[("a", "1.0.0"), ("b", "0.2.0")]);
    assert!(changed_extension_ids(&r, &r).is_empty());
}

#[test]
fn changed_is_empty_when_every_version_matches() {
    let current = registry(&[("a", "1.0.0")]);
    let baseline = registry(&[("b", "9.9.9"), ("a", "1.0.0")]);
    assert!(changed_extension_ids(&current, &baseline).is_empty());
    let downgraded = registry(&[("a", "0.9.0")]);
    assert_eq!(names(&changed_extension_ids(&downgraded, &baseline)), vec!["a"]);
}

#[test]
fn changed_of_empty_registry_is_empty() {
    let empty = Registry::new();
    let baseline = registry(&[("a", "1.0.0")]);
    assert!(changed_extension_ids(&empty, &baseline).is_empty());
    assert_eq!(names(&changed_extension_ids(&baseline, &empty)), vec!["a"]);
}

#[test]
fn unpublished_selects_missing_and_unlisted_versions() {
    let current = registry(&[("fresh", "0.1.0"), ("done", "1.0.0"), ("bumped", "2.0.0")]);
    let published = vec![
        (id("done"), vec!["0.9.0".to_string(), "1.0.0".to_string()]),
        (id("bumped"), vec!["1.0.0".to_string()]),
    ];
    let ids = unpublished_extension_ids(&current, &published);
    assert_eq!(names(&ids), vec!["fresh", "bumped"]);
}

#[test]
fn unpublished_with_empty_index_selects_all() {
    let current = registry(&[("a", "1.0.0"), ("b", "1.0.0")]);
    assert_eq!(names(&unpublished_extension_ids(&current, &Vec::new())), vec!["a", "b"]);
}

#[test]
fn structured_manifest_is_preferred() {
    let toml_form = manifest("Demo", "0.1.0");
    let json_form = manifest("Other", "9.0.0");
    let (m, format) = select_manifest(
        ManifestProbe::Parsed(toml_form.clone()),
        ManifestProbe::Parsed(json_form),
    )
    .unwrap();
    assert_eq!(m, toml_form);
    assert_eq!(format, ExtensionManifestFormat::Toml);
}

#[test]
fn legacy_manifest_is_used_without_structured_one() {
    let same = manifest("Demo", "0.1.0");
    let (from_toml, _) = select_manifest(
        ManifestProbe::Parsed(same.clone()),
        ManifestProbe::Parsed(same.clone()),
    )
    .unwrap();
    let (from_json, format) =
        select_manifest(ManifestProbe::Absent, ManifestProbe::Parsed(same.clone())).unwrap();
    assert_eq!(format, ExtensionManifestFormat::Json);
    assert_eq!(from_json, from_toml);
}

#[test]
fn malformed_structured_manifest_does_not_fall_back() {
    let r = select_manifest(
        ManifestProbe::Invalid("expected `=`".to_string()),
        ManifestProbe::Parsed(manifest("Demo", "0.1.0")),
    );
    match r {
        Err(ManifestError::Malformed { format, detail }) => {
            assert_eq!(format, ExtensionManifestFormat::Toml);
            assert_eq!(detail, "expected `=`");
        }
        other => panic!("unexpected {:?}", other),
    }
}

#[test]
fn malformed_legacy_manifest_and_missing_manifest() {
    match select_manifest(ManifestProbe::Absent, ManifestProbe::Invalid("eof".to_string())) {
        Err(ManifestError::Malformed { format, .. }) => {
            assert_eq!(format, ExtensionManifestFormat::Json)
        }
        other => panic!("unexpected {:?}", other),
    }
    assert!(matches!(
        select_manifest(ManifestProbe::Absent, ManifestProbe::Absent),
        Err(ManifestError::NotFound)
    ));
}

#[test]
fn version_mismatch_names_both_versions() {
    let m = manifest("Demo", "1.2.0");
    let err = check_version(&id("demo"), &m, &"1.3.0".to_string()).unwrap_err();
    match &err {
        PackageError::VersionMismatch { id, name, expected, actual } => {
            assert_eq!(id.as_str(), "demo");
            assert_eq!(name, "Demo");
            assert_eq!(expected, "1.3.0");
            assert_eq!(actual, "1.2.0");
        }
        other => panic!("unexpected {:?}", other),
    }
    assert_eq!(
        err.message(),
        "Incorrect version for extension demo (Demo)\n\nExpected version: 1.3.0\nActual version: 1.2.0"
    );
    assert!(check_version(&id("demo"), &m, &"1.2.0".to_string()).is_ok());
}

#[test]
fn mismatched_version_produces_no_package() {
    let r = begin_package(&id("demo"), manifest("Demo", "1.2.0"), &"1.3.0".to_string());
    assert!(matches!(r, Err(PackageError::VersionMismatch { .. })));
}

#[test]
fn fresh_package_manifest_copies_metadata_only() {
    let mut src = manifest("Demo", "0.1.0");
    src.grammars.insert(
        "demo".to_string(),
        GrammarManifestEntry { repository: "https://example.invalid/g".to_string(), rev: "abc".to_string() },
    );
    src.language_servers.insert(
        "demo-ls".to_string(),
        LanguageServerManifestEntry { name: "Demo LS".to_string(), language: "Demo".to_string() },
    );
    let out = new_package_manifest(src.clone());
    assert_eq!(out.name, src.name);
    assert_eq!(out.version, src.version);
    assert_eq!(out.description, src.description);
    assert_eq!(out.repository, src.repository);
    assert_eq!(out.authors, src.authors);
    assert!(out.lib.is_none());
    assert!(out.themes.is_empty());
    assert!(out.languages.is_empty());
    assert!(out.grammars.is_empty());
    assert!(out.language_servers.is_empty());
}

#[test]
fn archive_name_is_id_dash_version() {
    assert_eq!(archive_name(&id("demo"), &"0.1.0".to_string()), "demo-0.1.0.tar.gz");
}

#[test]
fn asset_paths_are_package_relative() {
    assert_eq!(theme_package_path("demo.json"), "themes/demo.json");
    assert_eq!(language_package_path("demo"), "languages/demo");
    let mut m = new_package_manifest(manifest("Demo", "0.1.0"));
    add_theme(&mut m, "a.json");
    add_theme(&mut m, "b.json");
    add_language(&mut m, "demo");
    assert_eq!(m.themes, vec!["themes/a.json", "themes/b.json"]);
    assert_eq!(m.languages, vec!["languages/demo"]);
}

#[test]
fn grammars_keep_declaration_order() {
    let mut m = new_package_manifest(manifest("Demo", "0.1.0"));
    let g = |rev: &str| GrammarManifestEntry {
        repository: "https://example.invalid/g".to_string(),
        rev: rev.to_string(),
    };
    add_grammar(&mut m, "zed".to_string(), g("1"));
    add_grammar(&mut m, "abc".to_string(), g("2"));
    add_grammar(&mut m, "zed".to_string(), g("3"));
    let keys: Vec<&String> = m.grammars.keys().collect();
    assert_eq!(keys, vec!["zed", "abc"]);
    assert_eq!(m.grammars["zed"].rev, "3");
}

#[test]
fn theme_verdict_passes_only_without_violations() {
    assert!(theme_verdict(Some(Vec::new())).is_ok());
    let errs = vec!["a".to_string(), "b".to_string()];
    assert_eq!(theme_verdict(Some(errs.clone())).unwrap_err().errors, errs);
    assert_eq!(
        theme_verdict(None).unwrap_err().errors,
        vec!["the theme schema does not compile".to_string()]
    );
}

#[test]
fn minimal_and_full_themes_pass() {
    let s = schema();
    assert!(check_theme(&s, &"min.json".to_string(), MINIMAL_THEME).is_ok());
    assert!(check_theme(&s, &"full.json".to_string(), FULL_THEME).is_ok());
    let doc = ThemeDocument::parse(MINIMAL_THEME).unwrap();
    assert!(validate_theme(&s, &doc).is_ok());
    let bad = ThemeDocument::parse(THEME_WITHOUT_AUTHOR).unwrap();
    let errors = validate_theme(&s, &bad).unwrap_err().errors;
    assert!(errors.iter().any(|e| e.contains("author")));
}

#[test]
fn theme_missing_required_field_fails() {
    let s = schema();
    match check_theme(&s, &"bad.json".to_string(), THEME_WITHOUT_AUTHOR) {
        Err(PackageError::InvalidTheme { file, errors }) => {
            assert_eq!(file, "bad.json");
            assert!(!errors.is_empty());
            assert!(errors.iter().any(|e| e.contains("author")));
        }
        other => panic!("unexpected {:?}", other),
    }
}

#[test]
fn theme_that_is_not_json_is_malformed() {
    let s = schema();
    let r = check_theme(&s, &"broken.json".to_string(), "{ \"name\": ");
    assert!(matches!(r, Err(PackageError::MalformedTheme { ref file, .. }) if file == "broken.json"));
}

#[test]
fn embedded_schema_is_strict_json() {
    assert!(serde_json::from_str::<serde_json::Value>(THEME_FAMILY_SCHEMA).is_ok());
    assert!(ThemeSchema::embedded().is_ok());
}

#[test]
fn theme_document_must_be_relaxed_json() {
    assert!(ThemeDocument::parse("{ not json").is_err());
    assert!(ThemeDocument::parse("{ \"a\": 1, /* note */ }").is_ok());
}

#[test]
fn theme_with_wrong_appearance_fails_with_every_diagnostic() {
    let text = r#"{ "name": "Demo", "themes": [ { "name": "X", "appearance": "dim", "style": {} } ] }"#;
    match check_theme(&schema(), &"two.json".to_string(), text) {
        Err(PackageError::InvalidTheme { errors, .. }) => {
            assert!(errors.len() >= 2);
            assert!(errors.iter().any(|e| e.contains("author")));
            assert!(errors.iter().any(|e| e.contains("appearance")));
        }
        other => panic!("unexpected {:?}", other),
    }
}

#[test]
fn invalid_theme_message_lists_every_diagnostic() {
    let e = PackageError::InvalidTheme {
        file: "t.json".to_string(),
        errors: vec!["one".to_string(), "two".to_string()],
    };
    assert_eq!(e.message(), "Theme validation failed for t.json: one; two");
    assert_eq!(
        PackageError::Manifest(ManifestError::NotFound).message(),
        "no extension manifest found"
    );
}

#[test]
fn demo_extension_end_to_end_plan() {
    let reg = registry(&[("demo", "0.1.0")]);
    let entry = reg.get(&id("demo")).unwrap();
    assert_eq!(entry.path, "./demo");
    let loaded = select_manifest(
        ManifestProbe::Parsed(manifest("Demo", "0.1.0")),
        ManifestProbe::Absent,
    )
    .unwrap()
    .0;
    let (mut out, name) = begin_package(&id("demo"), loaded, &entry.version).unwrap();
    assert_eq!(name, "demo-0.1.0.tar.gz");
    check_theme(&schema(), &"demo.json".to_string(), MINIMAL_THEME).unwrap();
    add_theme(&mut out, "demo.json");
    assert_eq!(out.themes, vec!["themes/demo.json"]);
}

#[test]
fn packaging_twice_gives_the_same_manifest() {
    let a = begin_package(&id("demo"), manifest("Demo", "0.1.0"), &"0.1.0".to_string()).unwrap();
    let b = begin_package(&id("demo"), manifest("Demo", "0.1.0"), &"0.1.0".to_string()).unwrap();
    assert_eq!(a, b);
}

use cpm::manifest::{
    check_doc_wf, empty_doc, get_in, get_top, manifest_file_name, remove_in, set_in, set_top,
    FieldValue, ManifestDoc, ManifestKind, TopValue,
};

fn text(s: &str) -> FieldValue {
    FieldValue::Text(s.to_string())
}

fn doc_with_scripts() -> ManifestDoc {
    ManifestDoc {
        entries: vec![
            ("name".to_string(), TopValue::Field(text("demo"))),
            (
                "scripts".to_string(),
                TopValue::Table(vec![("start".to_string(), text("node index.js"))]),
            ),
        ],
    }
}

fn get_in_text(doc: &ManifestDoc, section: &str, key: &str) -> Option<String> {
    match get_in(doc, section, key) {
        Some(FieldValue::Text(s)) => Some(s.clone()),
        _ => None,
    }
}

#[test]
fn manifest_file_names() {
    assert_eq!(manifest_file_name(ManifestKind::Script), "package.json");
    assert_eq!(manifest_file_name(ManifestKind::Compiled), "Cargo.toml");
}

#[test]
fn set_then_get_round_trips() {
    let mut doc = empty_doc();
    set_in(&mut doc, "scripts", "dev", text("cpm dev"));
    assert_eq!(get_in_text(&doc, "scripts", "dev"), Some("cpm dev".to_string()));
}

#[test]
fn set_preserves_siblings() {
    let mut doc = doc_with_scripts();
    assert!(check_doc_wf(&doc));
    set_in(&mut doc, "scripts", "dev", text("cpm dev"));
    assert_eq!(get_in_text(&doc, "scripts", "start"), Some("node index.js".to_string()));
    assert_eq!(get_in_text(&doc, "scripts", "dev"), Some("cpm dev".to_string()));
    match get_top(&doc, "name") {
        Some(TopValue::Field(FieldValue::Text(n))) => assert_eq!(n, "demo"),
        _ => panic!("name entry lost"),
    }
}

#[test]
fn set_overwrites_in_place() {
    let mut doc = doc_with_scripts();
    set_in(&mut doc, "scripts", "start", text("cpm dev"));
    assert_eq!(get_in_text(&doc, "scripts", "start"), Some("cpm dev".to_string()));
    match get_top(&doc, "scripts") {
        Some(TopValue::Table(t)) => assert_eq!(t.len(), 1),
        _ => panic!("scripts entry lost"),
    }
}

#[test]
fn set_refuses_scalar_section() {
    let mut doc = ManifestDoc {
        entries: vec![("scripts".to_string(), TopValue::Field(text("oops")))],
    };
    set_in(&mut doc, "scripts", "dev", text("cpm dev"));
    assert_eq!(get_in_text(&doc, "scripts", "dev"), None);
    match get_top(&doc, "scripts") {
        Some(TopValue::Field(FieldValue::Text(s))) => assert_eq!(s, "oops"),
        _ => panic!("scalar section was disturbed"),
    }
}

#[test]
fn remove_drops_only_the_key() {
    let mut doc = ManifestDoc {
        entries: vec![(
            "dependencies".to_string(),
            TopValue::Table(vec![
                ("wasm-bindgen".to_string(), text("^0.2")),
                ("left".to_string(), text("1.0.0")),
            ]),
        )],
    };
    remove_in(&mut doc, "dependencies", "wasm-bindgen");
    assert_eq!(get_in_text(&doc, "dependencies", "wasm-bindgen"), None);
    assert_eq!(get_in_text(&doc, "dependencies", "left"), Some("1.0.0".to_string()));
}

#[test]
fn remove_missing_is_a_no_op() {
    let mut doc = doc_with_scripts();
    remove_in(&mut doc, "dependencies", "wasm-bindgen");
    assert_eq!(doc.entries.len(), 2);
}

#[test]
fn set_top_replaces_and_appends() {
    let mut doc = doc_with_scripts();
    set_top(&mut doc, "name", TopValue::Field(text("renamed")));
    assert_eq!(doc.entries.len(), 2);
    match get_top(&doc, "name") {
        Some(TopValue::Field(FieldValue::Text(n))) => assert_eq!(n, "renamed"),
        _ => panic!("name entry lost"),
    }
    set_top(&mut doc, "version", TopValue::Field(text("0.1.0")));
    assert_eq!(doc.entries.len(), 3);
    assert_eq!(doc.entries[2].0, "version");
}

#[test]
fn check_doc_wf_rejects_duplicate_keys() {
    let doc = ManifestDoc {
        entries: vec![
            ("name".to_string(), TopValue::Field(text("a"))),
            ("name".to_string(), TopValue::Field(text("b"))),
        ],
    };
    assert!(!check_doc_wf(&doc));
    let nested = ManifestDoc {
        entries: vec![(
            "scripts".to_string(),
            TopValue::Table(vec![
                ("dev".to_string(), text("x")),
                ("dev".to_string(), text("y")),
            ]),
        )],
    };
    assert!(!check_doc_wf(&nested));
    assert!(check_doc_wf(&doc_with_scripts()));
}

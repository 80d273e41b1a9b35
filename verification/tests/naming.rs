use dbc_batch::naming::{derive_module_ident, file_stem, has_dbc_extension, output_file_name};

#[test]
fn recognizes_dbc_extension() {
    assert!(has_dbc_extension("engine.dbc"));
    assert!(has_dbc_extension("a.dbc"));
    assert!(has_dbc_extension("many.dots.dbc"));
    assert!(!has_dbc_extension("engine.rs"));
    assert!(!has_dbc_extension("engine"));
    assert!(!has_dbc_extension(""));
    // A lone `.dbc` is a hidden file without an extension.
    assert!(!has_dbc_extension(".dbc"));
    // Case matters: the recognized extension is lowercase.
    assert!(!has_dbc_extension("ENGINE.DBC"));
}

#[test]
fn stem_strips_the_last_extension_only() {
    assert_eq!(file_stem("engine.dbc"), "engine");
    assert_eq!(file_stem("a.b.c"), "a.b");
    assert_eq!(file_stem("noext"), "noext");
    assert_eq!(file_stem(".hidden"), ".hidden");
    assert_eq!(file_stem("trailing."), "trailing");
    assert_eq!(file_stem(""), "");
}

#[test]
fn derives_snake_case_identifiers() {
    assert_eq!(derive_module_ident("engine.dbc"), "engine");
    assert_eq!(derive_module_ident("CamelCase.dbc"), "camel_case");
    assert_eq!(derive_module_ident("SOME-File Name.dbc"), "some_file_name");
    // Identical base names always derive the same identifier.
    assert_eq!(
        derive_module_ident("Gear Box.dbc"),
        derive_module_ident("Gear Box.dbc")
    );
}

#[test]
fn output_file_names_carry_the_generated_extension() {
    assert_eq!(output_file_name(&String::from("engine")), "engine.rs");
    assert_eq!(output_file_name(&String::from("")), ".rs");
}

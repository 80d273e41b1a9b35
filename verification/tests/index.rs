use dbc_batch::index::render_index;

#[test]
fn an_empty_success_list_renders_an_empty_index() {
    assert_eq!(render_index(&vec![]), "");
}

#[test]
fn one_declaration_per_module_in_order() {
    assert_eq!(render_index(&vec![String::from("engine")]), "pub mod engine;");
    assert_eq!(
        render_index(&vec![String::from("engine"), String::from("gear_box")]),
        "pub mod engine;\npub mod gear_box;"
    );
}

use dbc_batch::batch::{plan_run, process_unit, BatchConfig, RunPlan, UnitAction, UnitInput};

const VALID_DBC: &str =
    "VERSION \"1\"\n\nNS_ :\n\nBS_:\n\nBU_: TestNode\n\nBO_ 1024 Message1: 5 TestNode\n";

fn unit(name: &str, content: Option<&str>) -> UnitInput {
    UnitInput {
        name: String::from(name),
        content: content.map(|c| c.as_bytes().to_vec()),
    }
}

fn cfg() -> BatchConfig {
    BatchConfig { debug: false }
}

#[test]
fn a_valid_unit_yields_a_write_of_generated_source() {
    let action = process_unit(&cfg(), &unit("engine.dbc", Some(VALID_DBC)));
    match action {
        UnitAction::Write { file_name, output } => {
            assert_eq!(file_name, "engine.rs");
            let text = String::from_utf8(output).expect("generated source is UTF-8");
            assert!(text.contains("Message1"));
            assert!(text != VALID_DBC);
        }
        _ => panic!("expected a write"),
    }
}

#[test]
fn an_unreadable_unit_is_skipped_with_its_name() {
    let action = process_unit(&cfg(), &unit("gone.dbc", None));
    match action {
        UnitAction::SkipUnreadable { name } => assert_eq!(name, "gone.dbc"),
        _ => panic!("expected an unreadable skip"),
    }
}

#[test]
fn a_malformed_unit_is_skipped_with_a_diagnostic() {
    let action = process_unit(&cfg(), &unit("broken.dbc", Some("not a dbc at all")));
    match action {
        UnitAction::SkipFailed { name, message, .. } => {
            assert_eq!(name, "broken.dbc");
            assert!(!message.is_empty());
        }
        _ => panic!("expected a failed skip"),
    }
}

#[test]
fn non_utf8_content_is_a_recoverable_failure_not_a_crash() {
    let u = UnitInput {
        name: String::from("binary.dbc"),
        content: Some(vec![0xFF, 0xFE, 0x00]),
    };
    let action = process_unit(&cfg(), &u);
    assert!(matches!(action, UnitAction::SkipFailed { .. }));
}

#[test]
fn an_out_of_range_message_size_is_skipped_not_a_crash() {
    // The engine would abort computing this message's bit width
    // (size * 8 overflows u64) once it renders the signal.
    let dbc = "VERSION \"1\"\n\nNS_ :\n\nBS_:\n\nBU_: N\n\nBO_ 1 M: 4611686018427387904 N\n SG_ S : 0|8@1+ (1,0) [0|255] \"\" N\n";
    let action = process_unit(&cfg(), &unit("huge.dbc", Some(dbc)));
    assert!(matches!(action, UnitAction::SkipFailed { .. }));
}

#[test]
fn a_value_table_naming_a_missing_signal_is_skipped_not_a_crash() {
    // Message 1024 exists but has no signal named `Missing`: the engine
    // would abort resolving the reference while rendering the message.
    let dbc = "VERSION \"1\"\n\nNS_ :\n\nBS_:\n\nBU_: TestNode\n\nBO_ 1024 Message1: 5 TestNode\n\nVAL_ 1024 Missing 0 \"Off\";\n";
    let action = process_unit(&cfg(), &unit("orphan.dbc", Some(dbc)));
    assert!(matches!(action, UnitAction::SkipFailed { .. }));
}

#[test]
fn a_value_table_for_an_undeclared_message_still_generates() {
    // No message carries id 999, so the engine never resolves this
    // reference; the unit must still generate.
    let dbc = "VERSION \"1\"\n\nNS_ :\n\nBS_:\n\nBU_: TestNode\n\nBO_ 1024 Message1: 5 TestNode\n\nVAL_ 999 Ghost 0 \"Off\";\n";
    let action = process_unit(&cfg(), &unit("ghost.dbc", Some(dbc)));
    assert!(matches!(action, UnitAction::Write { .. }));
}

#[test]
fn one_malformed_unit_removes_only_itself() {
    let units = vec![
        unit("engine.dbc", Some(VALID_DBC)),
        unit("broken.dbc", Some("garbage")),
        unit("gear.dbc", Some(VALID_DBC)),
    ];
    match plan_run(true, &cfg(), &units, false) {
        RunPlan::Ready { actions, modules, index } => {
            assert_eq!(actions.len(), 3);
            let writes = actions
                .iter()
                .filter(|a| matches!(a, UnitAction::Write { .. }))
                .count();
            assert_eq!(writes, 2);
            assert_eq!(modules, vec!["engine", "gear"]);
            assert!(index.is_none());
        }
        RunPlan::OutputDirInvalid => panic!("the output directory was valid"),
    }
}

#[test]
fn an_invalid_output_directory_is_fatal_before_any_unit() {
    let units = vec![unit("engine.dbc", Some(VALID_DBC))];
    assert!(matches!(
        plan_run(false, &cfg(), &units, true),
        RunPlan::OutputDirInvalid
    ));
}

#[test]
fn the_index_reflects_exactly_the_successful_units() {
    let units = vec![
        unit("engine.dbc", Some(VALID_DBC)),
        unit("broken.dbc", Some("garbage")),
    ];
    match plan_run(true, &cfg(), &units, true) {
        RunPlan::Ready { actions, modules, index } => {
            assert!(matches!(&actions[0], UnitAction::Write { file_name, .. } if file_name == "engine.rs"));
            assert!(matches!(&actions[1], UnitAction::SkipFailed { name, .. } if name == "broken.dbc"));
            assert_eq!(modules, vec!["engine"]);
            assert_eq!(index.as_deref(), Some("pub mod engine;"));
        }
        RunPlan::OutputDirInvalid => panic!("the output directory was valid"),
    }
}

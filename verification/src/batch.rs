//! The batch processor: drives the code-generation engine over each
//! discovered unit, isolating per-unit failures, and plans the writes that
//! realise the run. One malformed or unreadable unit never prevents the rest
//! of the batch from completing; only an invalid output location is fatal.

use vstd::prelude::*;

use crate::engine::{
    content_is_utf8, engine_accepts, engine_input_safe, generated_module_source, run_codegen,
};
use crate::index::{index_document_of, render_index};
use crate::naming::{derive_module_ident, module_ident_of, output_file_name, output_file_name_of};

verus! {

/// The configuration shared by a whole batch run.
pub struct BatchConfig {
    /// Whether diagnostics carry full underlying error detail.
    pub debug: bool,
}

/// One unit as handed to the batch: its declared file name and its raw
/// content, or `None` where the content could not be read.
pub struct UnitInput {
    pub name: String,
    pub content: Option<Vec<u8>>,
}

/// What the batch decides for one unit.
pub enum UnitAction {
    /// Generation succeeded: write `output` to `file_name` under the output
    /// directory. Two distinct units whose base names canonicalize to the
    /// same identifier share one output path; the later write wins. That
    /// collision is accepted behavior, as it is for the batch as a whole.
    Write { file_name: String, output: Vec<u8> },
    /// The unit's content could not be read: skip it with a diagnostic.
    SkipUnreadable { name: String },
    /// The engine rejected the unit: skip it with a diagnostic carrying the
    /// failure's plain text and its full detail.
    SkipFailed { name: String, message: String, detail: String },
}

/// The whole run's plan: fatal before any unit, or one action per unit plus
/// the optional index document.
pub enum RunPlan {
    /// The output directory does not exist or is not a directory: fatal, no
    /// unit is processed and nothing is written.
    OutputDirInvalid,
    /// One action per unit in discovery order, the success list, and the
    /// rendered index document where one was requested.
    Ready { actions: Vec<UnitAction>, modules: Vec<String>, index: Option<String> },
}

/// A unit succeeds exactly when its content was readable, is valid UTF-8
/// (the engine accepts nothing else), is within the engine's safe range (the
/// engine aborts outside it, see `engine_input_safe`), and the engine
/// generates source from it.
pub open spec fn unit_succeeds(u: UnitInput) -> bool {
    &&& u.content is Some
    &&& vstd::utf8::valid_utf8(u.content->0@)
    &&& engine_input_safe(u.content->0@)
    &&& generated_module_source(u.name@, u.content->0@) is Some
}

/// The action owed to one unit: a write of the generated source to the
/// derived file name where the unit succeeds, the matching skip otherwise.
pub open spec fn action_matches(u: UnitInput, a: UnitAction) -> bool {
    if u.content is None {
        a matches UnitAction::SkipUnreadable { name } && name@ == u.name@
    } else if unit_succeeds(u) {
        a matches UnitAction::Write { file_name, output } && file_name@ == output_file_name_of(
            module_ident_of(u.name@),
        ) && output@ == generated_module_source(u.name@, u.content->0@)->0
    } else {
        a matches UnitAction::SkipFailed { name, message, detail } && name@ == u.name@
    }
}

/// The success list of a batch: the module identifier of every unit that
/// succeeds, in discovery order; failed units are simply absent.
pub open spec fn successful_idents(us: Seq<UnitInput>) -> Seq<Seq<char>>
    decreases us.len(),
{
    if us.len() == 0 {
        Seq::empty()
    } else {
        successful_idents(us.drop_last()) + if unit_succeeds(us.last()) {
            seq![module_ident_of(us.last().name@)]
        } else {
            Seq::empty()
        }
    }
}

/// Where every unit succeeds, the success list is the identifier of every
/// unit, in discovery order.
pub proof fn lemma_all_units_succeed(us: Seq<UnitInput>)
    requires
        forall|j: int| 0 <= j < us.len() ==> unit_succeeds(#[trigger] us[j]),
    ensures
        successful_idents(us) == us.map_values(|u: UnitInput| module_ident_of(u.name@)),
    decreases us.len(),
{
    let f = |u: UnitInput| module_ident_of(u.name@);
    if us.len() == 0 {
        assert(successful_idents(us) =~= us.map_values(f));
    } else {
        lemma_all_units_succeed(us.drop_last());
        assert(us.map_values(f) =~= us.drop_last().map_values(f) + seq![f(us.last())]);
        assert(successful_idents(us) =~= us.map_values(f));
    }
}

/// Failure isolation: where every unit but one succeeds, the success list is
/// the identifier list of all the others, in discovery order — the one
/// failing unit removes only itself, and a batch of `n` units yields exactly
/// `n - 1` generated modules.
pub proof fn lemma_failure_isolation(us: Seq<UnitInput>, i: int)
    requires
        0 <= i < us.len(),
        !unit_succeeds(us[i]),
        forall|j: int| 0 <= j < us.len() && j != i ==> unit_succeeds(#[trigger] us[j]),
    ensures
        successful_idents(us).len() == us.len() - 1,
        successful_idents(us) == us.remove(i).map_values(|u: UnitInput| module_ident_of(u.name@)),
    decreases us.len(),
{
    let f = |u: UnitInput| module_ident_of(u.name@);
    if i == us.len() - 1 {
        assert(successful_idents(us) =~= successful_idents(us.drop_last()));
        lemma_all_units_succeed(us.drop_last());
        assert(us.remove(i) =~= us.drop_last());
    } else {
        lemma_failure_isolation(us.drop_last(), i);
        assert(successful_idents(us) =~= successful_idents(us.drop_last()) + seq![f(us.last())]);
        assert(us.remove(i) =~= us.drop_last().remove(i).push(us.last()));
        assert(us.remove(i).map_values(f) =~= us.drop_last().remove(i).map_values(f) + seq![
            f(us.last()),
        ]);
    }
}

/// Decides one unit: reads nothing and writes nothing itself, but settles
/// whether the unit contributes a generated module or a diagnostic.
pub fn process_unit(cfg: &BatchConfig, unit: &UnitInput) -> (a: UnitAction)
    ensures
        action_matches(*unit, a),
{
    match &unit.content {
        None => UnitAction::SkipUnreadable { name: unit.name.clone() },
        Some(content) => {
            if !content_is_utf8(content) {
                UnitAction::SkipFailed {
                    name: unit.name.clone(),
                    message: "content is not valid UTF-8".to_owned(),
                    detail: "the engine requires UTF-8 description files".to_owned(),
                }
            } else if !engine_accepts(content) {
                UnitAction::SkipFailed {
                    name: unit.name.clone(),
                    message: "the description cannot be rendered".to_owned(),
                    detail: "a declared message size is out of the engine's range, or a value table references a missing signal of a declared message".to_owned(),
                }
            } else {
                match run_codegen(unit.name.as_str(), content, cfg.debug) {
                    Ok(output) => {
                        let ident = derive_module_ident(unit.name.as_str());
                        UnitAction::Write { file_name: output_file_name(&ident), output }
                    },
                    Err((message, detail)) => UnitAction::SkipFailed {
                        name: unit.name.clone(),
                        message,
                        detail,
                    },
                }
            }
        },
    }
}

/// Processes every unit in discovery order: one action per unit, and the
/// success list of module identifiers.
pub fn plan_units(cfg: &BatchConfig, units: &Vec<UnitInput>) -> (r: (
    Vec<UnitAction>,
    Vec<String>,
))
    ensures
        r.0@.len() == units@.len(),
        forall|i: int| 0 <= i < units@.len() ==> action_matches(units@[i], #[trigger] r.0@[i]),
        r.1@.map_values(|m: String| m@) == successful_idents(units@),
{
    let ghost idents = |m: String| m@;
    let mut actions: Vec<UnitAction> = Vec::new();
    let mut modules: Vec<String> = Vec::new();
    let n = units.len();
    let mut i: usize = 0;
    while i < n
        invariant
            i <= n,
            n == units@.len(),
            actions@.len() == i,
            forall|j: int| 0 <= j < i ==> action_matches(units@[j], #[trigger] actions@[j]),
            modules@.map_values(idents) == successful_idents(units@.take(i as int)),
            idents == (|m: String| m@),
        decreases n - i,
    {
        let unit = &units[i];
        let action = process_unit(cfg, unit);
        let ghost prev_modules = modules@;
        let is_write = match &action {
            UnitAction::Write { .. } => true,
            _ => false,
        };
        if is_write {
            let ident = derive_module_ident(unit.name.as_str());
            modules.push(ident);
        }
        actions.push(action);
        proof {
            let taken = units@.take(i + 1int);
            assert(taken.drop_last() =~= units@.take(i as int));
            assert(taken.last() == units@[i as int]);
            if unit_succeeds(units@[i as int]) {
                assert(modules@.map_values(idents) =~= prev_modules.map_values(idents) + seq![
                    module_ident_of(units@[i as int].name@),
                ]);
            } else {
                assert(modules@.map_values(idents) =~= successful_idents(taken));
            }
        }
        i = i + 1;
    }
    proof {
        assert(units@.take(n as int) =~= units@);
    }
    (actions, modules)
}

/// Plans a whole run. The output directory's validity is checked before any
/// unit is processed: where it fails, the plan is fatal and holds zero
/// writes. Otherwise every unit gets its action, and the index document is
/// rendered exactly when an index was requested.
pub fn plan_run(
    out_dir_is_dir: bool,
    cfg: &BatchConfig,
    units: &Vec<UnitInput>,
    index_requested: bool,
) -> (r: RunPlan)
    ensures
        !out_dir_is_dir <==> r is OutputDirInvalid,
        r matches RunPlan::Ready { actions, modules, index } ==> {
            &&& actions@.len() == units@.len()
            &&& forall|i: int|
                0 <= i < units@.len() ==> action_matches(units@[i], #[trigger] actions@[i])
            &&& modules@.map_values(|m: String| m@) == successful_idents(units@)
            &&& (index is Some <==> index_requested)
            &&& (index matches Some(doc) ==> doc@ == index_document_of(successful_idents(units@)))
        },
{
    if !out_dir_is_dir {
        return RunPlan::OutputDirInvalid;
    }
    let (actions, modules) = plan_units(cfg, units);
    let index = if index_requested {
        Some(render_index(&modules))
    } else {
        None
    };
    RunPlan::Ready { actions, modules, index }
}

} // verus!

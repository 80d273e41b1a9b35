//! The code-generation engine, an external collaborator: `dbc_codegen`
//! translates one unit's description content into generated Rust source. The
//! batch logic only decides what to hand it and what to do with each outcome.

use vstd::prelude::*;

verus! {

/// What the code-generation engine produces for a given unit name and
/// content: `Some` of the generated source bytes where generation succeeds,
/// `None` where the engine rejects the unit. Both the outcome and the bytes
/// are a function of the name and content alone.
pub uninterp spec fn generated_module_source(name: Seq<char>, content: Seq<u8>) -> Option<Seq<u8>>;

/// Relies on `str::from_utf8`: it succeeds exactly on valid UTF-8 input.
#[verifier::external_body]
pub(crate) fn content_is_utf8(b: &Vec<u8>) -> (r: bool)
    ensures
        r == vstd::utf8::valid_utf8(b@),
{
    std::str::from_utf8(b.as_slice()).is_ok()
}

/// What the engine's own parser extracts from the content, as plain values:
/// `None` where the content does not parse; otherwise one triple per
/// declared message (its raw id, its declared size, its signal count), in
/// declaration order, and one pair per value-table signal reference (the
/// referenced message's raw id, and whether the reference resolves to a
/// signal of that message). A function of the content alone.
pub uninterp spec fn parsed_dbc_overview(content: Seq<u8>) -> Option<
    (Seq<(u32, u64, u64)>, Seq<(u32, bool)>),
>;

/// Relies on `can_dbc::DBC::from_slice` and the parsed database's accessors
/// (`messages`, `message_id`, `message_size`, `signals`,
/// `value_descriptions`, `signal_by_name`): hands the parse out as plain
/// values, one triple per declared message and one pair per value-table
/// signal reference; an environment-variable entry, which never names a
/// signal, is handed out as resolved. Parsing and every accessor are
/// functions of the content alone. `from_slice` requires UTF-8 input (it
/// panics otherwise).
#[verifier::external_body]
fn parse_overview(content: &Vec<u8>) -> (r: Option<(Vec<(u32, u64, u64)>, Vec<(u32, bool)>)>)
    requires
        vstd::utf8::valid_utf8(content@),
    ensures
        r is Some <==> parsed_dbc_overview(content@) is Some,
        r matches Some(ov) ==> ov.0@ == (parsed_dbc_overview(content@)->0).0 && ov.1@ == (
        parsed_dbc_overview(content@)->0).1,
{
    let dbc = match can_dbc::DBC::from_slice(content.as_slice()) {
        Ok(dbc) => dbc,
        Err(_) => return None,
    };
    let messages: Vec<(u32, u64, u64)> = dbc.messages().iter().map(
        |m| (m.message_id().0, *m.message_size(), m.signals().len() as u64)).collect();
    let refs: Vec<(u32, bool)> = dbc.value_descriptions().iter().map(|vd| match vd {
        can_dbc::ValueDescription::Signal { message_id, signal_name, .. } =>
            (message_id.0, dbc.signal_by_name(*message_id, signal_name).is_some()),
        can_dbc::ValueDescription::EnvironmentVariable { .. } => (0, true),
    }).collect();
    Some((messages, refs))
}

/// Whether some declared message carries this raw id.
pub open spec fn message_id_declared(msgs: Seq<(u32, u64, u64)>, id: u32) -> bool {
    exists|j: int| 0 <= j < msgs.len() && (#[trigger] msgs[j]).0 == id
}

/// The engine aborts (a panicking `unwrap`), rather than failing cleanly, on
/// two kinds of parseable content: a message whose declared size exceeds
/// `u64::MAX / 8` (its bit width overflows) while it has signals to render,
/// and a value-table entry referencing a signal that its — declared —
/// message does not have. Content is safe when it does not parse at all (the
/// engine then fails cleanly) or when neither kind occurs.
pub open spec fn engine_input_safe(content: Seq<u8>) -> bool {
    parsed_dbc_overview(content) is None || {
        let msgs = (parsed_dbc_overview(content)->0).0;
        let refs = (parsed_dbc_overview(content)->0).1;
        &&& forall|i: int|
            0 <= i < msgs.len() ==> (#[trigger] msgs[i]).1 <= u64::MAX / 8 || msgs[i].2 == 0
        &&& forall|i: int|
            0 <= i < refs.len() ==> (#[trigger] refs[i]).1 || !message_id_declared(
                msgs,
                refs[i].0,
            )
    }
}

/// Returns whether every declared message's bit width stays computable, or
/// the message has no signals (the engine never computes the width then).
fn messages_within_range(msgs: &Vec<(u32, u64, u64)>) -> (r: bool)
    ensures
        r == (forall|i: int|
            0 <= i < msgs@.len() ==> (#[trigger] msgs@[i]).1 <= u64::MAX / 8 || msgs@[i].2 == 0),
{
    let n = msgs.len();
    let mut i: usize = 0;
    while i < n
        invariant
            i <= n,
            n == msgs@.len(),
            forall|j: int|
                0 <= j < i ==> (#[trigger] msgs@[j]).1 <= u64::MAX / 8 || msgs@[j].2 == 0,
        decreases n - i,
    {
        let m = msgs[i];
        if m.1 > u64::MAX / 8 && m.2 != 0 {
            return false;
        }
        i = i + 1;
    }
    true
}

/// Returns whether some declared message carries this raw id.
fn message_id_is_declared(msgs: &Vec<(u32, u64, u64)>, id: u32) -> (r: bool)
    ensures
        r == message_id_declared(msgs@, id),
{
    let n = msgs.len();
    let mut i: usize = 0;
    while i < n
        invariant
            i <= n,
            n == msgs@.len(),
            forall|j: int| 0 <= j < i ==> (#[trigger] msgs@[j]).0 != id,
        decreases n - i,
    {
        if msgs[i].0 == id {
            return true;
        }
        i = i + 1;
    }
    false
}

/// Returns whether every value-table signal reference either resolves or
/// names a message that is not declared (the engine skips those).
fn refs_resolve(msgs: &Vec<(u32, u64, u64)>, refs: &Vec<(u32, bool)>) -> (r: bool)
    ensures
        r == (forall|i: int|
            0 <= i < refs@.len() ==> (#[trigger] refs@[i]).1 || !message_id_declared(
                msgs@,
                refs@[i].0,
            )),
{
    let n = refs.len();
    let mut i: usize = 0;
    while i < n
        invariant
            i <= n,
            n == refs@.len(),
            forall|j: int|
                0 <= j < i ==> (#[trigger] refs@[j]).1 || !message_id_declared(msgs@, refs@[j].0),
        decreases n - i,
    {
        let entry = refs[i];
        if !entry.1 && message_id_is_declared(msgs, entry.0) {
            return false;
        }
        i = i + 1;
    }
    true
}

/// Returns whether the engine can be run on this content without aborting:
/// the parse-level safety conditions, checked through the engine's own
/// parser before the engine itself is invoked.
pub(crate) fn engine_accepts(content: &Vec<u8>) -> (r: bool)
    requires
        vstd::utf8::valid_utf8(content@),
    ensures
        r == engine_input_safe(content@),
{
    match parse_overview(content) {
        None => true,
        Some((msgs, refs)) => messages_within_range(&msgs) && refs_resolve(&msgs, &refs),
    }
}

/// Relies on `dbc_codegen::codegen`: it parses the content (through
/// `can_dbc::DBC::from_slice`, which requires UTF-8 input and panics
/// otherwise) and writes the generated module source into the buffer, or
/// fails; the outcome and the generated bytes depend on the unit name and
/// content alone — the debug flag only adds detail to the error value and
/// prints to stderr. On failure the wrapper hands back the error's plain
/// text and its full debug rendering. The `requires` leaves out every input
/// on which the engine does not return: non-UTF-8 content, and the parseable
/// content enumerated by `engine_input_safe`, on which rendering reaches a
/// panicking `unwrap` (an out-of-range message size with signals to render;
/// a value-table reference to a missing signal of a declared message).
#[verifier::external_body]
pub(crate) fn run_codegen(name: &str, content: &Vec<u8>, debug: bool) -> (r: Result<
    Vec<u8>,
    (String, String),
>)
    requires
        vstd::utf8::valid_utf8(content@),
        engine_input_safe(content@),
    ensures
        r is Ok <==> generated_module_source(name@, content@) is Some,
        r matches Ok(out) ==> out@ == generated_module_source(name@, content@)->0,
{
    let mut buf: Vec<u8> = Vec::new();
    match dbc_codegen::codegen(name, content.as_slice(), &mut buf, debug) {
        Ok(()) => Ok(buf),
        Err(e) => Err((format!("{e}"), format!("{e:?}"))),
    }
}

} // verus!

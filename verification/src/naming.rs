//! File-name handling: the recognized input extension, base-name (stem)
//! extraction, and derivation of the canonical module identifier that names
//! a unit's generated output.

use vstd::prelude::*;

verus! {

/// The index of the last `.` strictly below position `i` in `s`, or `-1` if
/// there is none.
pub open spec fn last_dot_before(s: Seq<char>, i: int) -> int
    decreases i,
{
    if i <= 0 {
        -1
    } else if s[i - 1] == '.' {
        i - 1
    } else {
        last_dot_before(s, i - 1)
    }
}

/// A file name carries the recognized description-file extension exactly when
/// it ends in `.dbc` and the dot is not its first character.
pub open spec fn is_dbc_name(s: Seq<char>) -> bool {
    &&& s.len() >= 5
    &&& s[s.len() - 4] == '.'
    &&& s[s.len() - 3] == 'd'
    &&& s[s.len() - 2] == 'b'
    &&& s[s.len() - 1] == 'c'
}

/// Returns whether `name` ends in the recognized `.dbc` extension.
pub fn has_dbc_extension(name: &str) -> (r: bool)
    ensures
        r == is_dbc_name(name@),
{
    let n = name.unicode_len();
    if n < 5 {
        return false;
    }
    name.get_char(n - 4) == '.' && name.get_char(n - 3) == 'd' && name.get_char(n - 2) == 'b'
        && name.get_char(n - 1) == 'c'
}

/// The base name of a file name: everything before the last `.`, unless the
/// only `.` is a leading one (or there is none), in which case the whole name.
pub open spec fn stem_of(s: Seq<char>) -> Seq<char> {
    let d = last_dot_before(s, s.len() as int);
    if d >= 1 {
        s.subrange(0, d)
    } else {
        s
    }
}

/// Returns the base name of `name`, its extension (if any) stripped.
pub fn file_stem(name: &str) -> (r: String)
    ensures
        r@ == stem_of(name@),
{
    let n = name.unicode_len();
    let mut i: usize = n;
    while i >= 2
        invariant
            i <= n,
            n == name@.len(),
            last_dot_before(name@, n as int) == last_dot_before(name@, i as int),
        decreases i,
    {
        if name.get_char(i - 1) == '.' {
            return name.substring_char(0, i - 1).to_owned();
        }
        i = i - 1;
    }
    proof {
        assert(last_dot_before(name@, 0) == -1);
        if i == 1 {
            assert(last_dot_before(name@, 1) == if name@[0] == '.' {
                0int
            } else {
                last_dot_before(name@, 0)
            });
        }
    }
    name.to_owned()
}

/// The canonical word-separated lowercase identifier that `heck` derives
/// from a base name. The derivation depends on the characters alone.
pub uninterp spec fn snake_ident_of(s: Seq<char>) -> Seq<char>;

/// Relies on `heck::ToSnakeCase::to_snake_case`: a pure conversion of the
/// characters of `s` into `snake_case` form, the same on every call.
#[verifier::external_body]
fn to_snake_ident(s: &str) -> (r: String)
    ensures
        r@ == snake_ident_of(s@),
{
    heck::ToSnakeCase::to_snake_case(s)
}

/// The module identifier of a unit file name: the `snake_case` form of its
/// base name.
pub open spec fn module_ident_of(name: Seq<char>) -> Seq<char> {
    snake_ident_of(stem_of(name))
}

/// Derives the canonical module identifier from a unit's file name.
pub fn derive_module_ident(name: &str) -> (r: String)
    ensures
        r@ == module_ident_of(name@),
{
    let stem = file_stem(name);
    to_snake_ident(stem.as_str())
}

/// The file name of a generated module: the identifier with the generated
/// source extension.
pub open spec fn output_file_name_of(ident: Seq<char>) -> Seq<char> {
    ident + ".rs"@
}

/// Appends the generated source extension to a module identifier.
pub fn output_file_name(ident: &String) -> (r: String)
    ensures
        r@ == output_file_name_of(ident@),
{
    let r = ident.clone();
    r.concat(".rs")
}

/// Identifier derivation is deterministic: identical base names always
/// derive the same module identifier.
pub proof fn lemma_derivation_deterministic(a: Seq<char>, b: Seq<char>)
    requires
        a == b,
    ensures
        module_ident_of(a) == module_ident_of(b),
{
}

} // verus!

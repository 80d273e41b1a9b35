//! The module index builder: renders the aggregating document that declares
//! one module reference per successfully generated unit, in processing order.
//! The engine version in use offers no aggregator entry point, so the index
//! document is rendered here, in full.

use vstd::prelude::*;

verus! {

/// The declaration that the index owes one generated module.
pub open spec fn declaration_of(ident: Seq<char>) -> Seq<char> {
    "pub mod "@ + ident + ";"@
}

/// The whole index document: one declaration per identifier, in order,
/// separated by line breaks.
pub open spec fn index_document_of(idents: Seq<Seq<char>>) -> Seq<char>
    decreases idents.len(),
{
    if idents.len() == 0 {
        Seq::empty()
    } else if idents.len() == 1 {
        declaration_of(idents[0])
    } else {
        index_document_of(idents.drop_last()) + "\n"@ + declaration_of(idents.last())
    }
}

/// Renders the index document for the given success list.
pub fn render_index(modules: &Vec<String>) -> (r: String)
    ensures
        r@ == index_document_of(modules@.map_values(|m: String| m@)),
{
    let ghost idents = |m: String| m@;
    let mut out = String::new();
    let n = modules.len();
    let mut i: usize = 0;
    while i < n
        invariant
            i <= n,
            n == modules@.len(),
            out@ == index_document_of(modules@.map_values(idents).take(i as int)),
            idents == (|m: String| m@),
        decreases n - i,
    {
        let ghost before = out@;
        if i > 0 {
            out.append("\n");
        }
        out.append("pub mod ");
        out.append(modules[i].as_str());
        out.append(";");
        proof {
            let ids = modules@.map_values(idents);
            let taken = ids.take(i + 1int);
            assert(taken.drop_last() =~= ids.take(i as int));
            assert(taken.last() == ids[i as int]);
            if i == 0 {
                assert(out@ =~= declaration_of(ids[0]));
                assert(taken.len() == 1);
                assert(taken[0] == ids[0]);
            } else {
                assert(out@ =~= index_document_of(taken.drop_last()) + "\n"@ + declaration_of(
                    taken.last(),
                ));
            }
        }
        i = i + 1;
    }
    proof {
        assert(modules@.map_values(idents).take(n as int) =~= modules@.map_values(idents));
    }
    out
}

} // verus!

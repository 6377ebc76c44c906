//! Small string-building helpers shared by the formatting modules.

use vstd::prelude::*;
use vstd::string::StringExecFns;

verus! {

/// Relies on std's `String::push`: appends exactly the given character.
#[verifier::external_body]
pub(crate) fn push_char(s: &mut String, c: char)
    ensures
        final(s)@ == old(s)@.push(c),
{
    s.push(c);
}

/// The parts joined left to right with `sep` between neighbours; no
/// separator before the first part or after the last.
pub open spec fn joined_with(parts: Seq<Seq<char>>, sep: char) -> Seq<char>
    decreases parts.len(),
{
    if parts.len() == 0 {
        Seq::empty()
    } else if parts.len() == 1 {
        parts[0]
    } else {
        joined_with(parts.drop_last(), sep) + seq![sep] + parts.last()
    }
}

/// Join the parts with `sep` between neighbours, per `joined_with`.
pub fn join_with(parts: &Vec<String>, sep: char) -> (r: String)
    ensures
        r@ == joined_with(parts@.map_values(|p: String| p@), sep),
{
    let ghost vs = parts@.map_values(|p: String| p@);
    let mut out = String::new();
    let mut i: usize = 0;
    while i < parts.len()
        invariant
            0 <= i <= parts.len(),
            vs == parts@.map_values(|p: String| p@),
            out@ == joined_with(vs.take(i as int), sep),
        decreases parts.len() - i,
    {
        if i > 0 {
            push_char(&mut out, sep);
        }
        out.append(parts[i].as_str());
        proof {
            assert(vs.take(i + 1 as int).drop_last() =~= vs.take(i as int));
            assert(vs.take(i + 1 as int).last() == vs[i as int]);
            assert(out@ =~= joined_with(vs.take(i + 1 as int), sep));
        }
        i = i + 1;
    }
    proof {
        assert(vs.take(parts.len() as int) =~= vs);
    }
    out
}

} // verus!

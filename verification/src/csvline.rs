//! The output line format: comma-delimited fields, double-quote escaped,
//! one record per `\n`-terminated line.
//!
//! A field is written verbatim unless it contains a delimiter, a double
//! quote or a line break; such a field is wrapped in double quotes with
//! every inner quote doubled.

use crate::strutil::push_char;
use vstd::prelude::*;
use vstd::string::StrSliceExecFns;
use vstd::string::StringExecFns;

verus! {

/// Characters that force a field into quotes: the delimiter, the quote
/// itself, and the record terminators.
pub open spec fn is_csv_special(c: char) -> bool {
    c == ',' || c == '"' || c == '\n' || c == '\r'
}

/// Whether a field must be quoted.
pub open spec fn needs_quoting(s: Seq<char>) -> bool {
    exists|i: int| 0 <= i < s.len() && is_csv_special(s[i])
}

/// The field's characters with every double quote doubled.
pub open spec fn escaped_chars(s: Seq<char>) -> Seq<char>
    decreases s.len(),
{
    if s.len() == 0 {
        Seq::empty()
    } else if s.last() == '"' {
        escaped_chars(s.drop_last()) + seq!['"', '"']
    } else {
        escaped_chars(s.drop_last()) + seq![s.last()]
    }
}

/// One encoded field: quoted and escaped when needed, verbatim otherwise.
pub open spec fn csv_field(s: Seq<char>) -> Seq<char> {
    if needs_quoting(s) {
        seq!['"'] + escaped_chars(s) + seq!['"']
    } else {
        s
    }
}

/// The encoded fields joined with commas.
pub open spec fn csv_fields_joined(fields: Seq<Seq<char>>) -> Seq<char>
    decreases fields.len(),
{
    if fields.len() == 0 {
        Seq::empty()
    } else if fields.len() == 1 {
        csv_field(fields[0])
    } else {
        csv_fields_joined(fields.drop_last()) + seq![','] + csv_field(fields.last())
    }
}

/// One full record line: the joined fields and the terminator.
pub open spec fn csv_line(fields: Seq<Seq<char>>) -> Seq<char> {
    csv_fields_joined(fields) + seq!['\n']
}

fn is_csv_special_exec(c: char) -> (r: bool)
    ensures
        r == is_csv_special(c),
{
    c == ',' || c == '"' || c == '\n' || c == '\r'
}

/// Encode one field, per `csv_field`.
pub fn csv_encode_field(s: &str) -> (r: String)
    ensures
        r@ == csv_field(s@),
{
    let n = s.unicode_len();
    let mut special = false;
    let mut j: usize = 0;
    while j < n
        invariant
            0 <= j <= n,
            n == s@.len(),
            special == needs_quoting(s@.take(j as int)),
        decreases n - j,
    {
        let c = s.get_char(j);
        proof {
            assert(s@.take(j + 1 as int).drop_last() =~= s@.take(j as int));
            assert(s@.take(j + 1 as int)[j as int] == s@[j as int]);
            assert(forall|i: int| 0 <= i < j ==> s@.take(j + 1 as int)[i] == s@.take(j as int)[i]);
        }
        if is_csv_special_exec(c) {
            special = true;
        }
        j = j + 1;
    }
    proof {
        assert(s@.take(n as int) =~= s@);
    }
    if !special {
        return s.to_owned();
    }
    let mut out = String::new();
    push_char(&mut out, '"');
    proof {
        assert(out@ =~= seq!['"'] + escaped_chars(s@.take(0)));
    }
    let mut j: usize = 0;
    while j < n
        invariant
            0 <= j <= n,
            n == s@.len(),
            out@ == seq!['"'] + escaped_chars(s@.take(j as int)),
        decreases n - j,
    {
        let c = s.get_char(j);
        proof {
            assert(s@.take(j + 1 as int).drop_last() =~= s@.take(j as int));
        }
        if c == '"' {
            push_char(&mut out, '"');
            push_char(&mut out, '"');
        } else {
            push_char(&mut out, c);
        }
        proof {
            assert(out@ =~= seq!['"'] + escaped_chars(s@.take(j + 1 as int)));
        }
        j = j + 1;
    }
    push_char(&mut out, '"');
    proof {
        assert(s@.take(n as int) =~= s@);
        assert(out@ =~= csv_field(s@));
    }
    out
}

/// Encode one full record line, per `csv_line`.
pub fn csv_encode_line(fields: &Vec<String>) -> (r: String)
    ensures
        r@ == csv_line(fields@.map_values(|f: String| f@)),
{
    let ghost vs = fields@.map_values(|f: String| f@);
    let mut out = String::new();
    let mut i: usize = 0;
    while i < fields.len()
        invariant
            0 <= i <= fields.len(),
            vs == fields@.map_values(|f: String| f@),
            out@ == csv_fields_joined(vs.take(i as int)),
        decreases fields.len() - i,
    {
        if i > 0 {
            push_char(&mut out, ',');
        }
        let encoded = csv_encode_field(fields[i].as_str());
        out.append(encoded.as_str());
        proof {
            assert(vs.take(i + 1 as int).drop_last() =~= vs.take(i as int));
            assert(vs.take(i + 1 as int).last() == vs[i as int]);
            assert(out@ =~= csv_fields_joined(vs.take(i + 1 as int)));
        }
        i = i + 1;
    }
    push_char(&mut out, '\n');
    proof {
        assert(vs.take(fields.len() as int) =~= vs);
        assert(out@ =~= csv_line(vs));
    }
    out
}

} // verus!

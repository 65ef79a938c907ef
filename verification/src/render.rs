use vstd::prelude::*;

use crate::event::{FieldView, SubmittedField};
use crate::text::string_from_chars;

verus! {

/// The hexadecimal digit naming a value below sixteen.
pub open spec fn hex_digit(d: int) -> char {
    if d == 0 {
        '0'
    } else if d == 1 {
        '1'
    } else if d == 2 {
        '2'
    } else if d == 3 {
        '3'
    } else if d == 4 {
        '4'
    } else if d == 5 {
        '5'
    } else if d == 6 {
        '6'
    } else if d == 7 {
        '7'
    } else if d == 8 {
        '8'
    } else if d == 9 {
        '9'
    } else if d == 10 {
        'a'
    } else if d == 11 {
        'b'
    } else if d == 12 {
        'c'
    } else if d == 13 {
        'd'
    } else if d == 14 {
        'e'
    } else {
        'f'
    }
}

/// How one character appears inside a rendered string literal: quote and
/// backslash are escaped, the common control characters get their short
/// escapes, the remaining control characters a four-digit escape, and every
/// other character stands as itself.
pub open spec fn escaped_char(c: char) -> Seq<char> {
    if c == '"' {
        seq!['\\', '"']
    } else if c == '\\' {
        seq!['\\', '\\']
    } else if c == '\n' {
        seq!['\\', 'n']
    } else if c == '\r' {
        seq!['\\', 'r']
    } else if c == '\t' {
        seq!['\\', 't']
    } else if (c as u32) < 32 {
        seq!['\\', 'u', '0', '0', hex_digit((c as u32) as int / 16), hex_digit((c as u32) as int % 16)]
    } else {
        seq![c]
    }
}

/// The body of a rendered string literal: each character escaped, in order.
pub open spec fn escaped(s: Seq<char>) -> Seq<char>
    decreases s.len(),
{
    if s.len() == 0 {
        Seq::empty()
    } else {
        escaped(s.drop_last()) + escaped_char(s.last())
    }
}

/// A rendered string literal: the escaped body between double quotes.
pub open spec fn quoted(s: Seq<char>) -> Seq<char> {
    seq!['"'] + escaped(s) + seq!['"']
}

/// The lines of a rendered value array, one indented literal per value,
/// consecutive lines separated by a comma.
pub open spec fn value_lines(vs: Seq<Seq<char>>) -> Seq<char>
    decreases vs.len(),
{
    if vs.len() == 0 {
        Seq::empty()
    } else if vs.len() == 1 {
        "    "@ + quoted(vs[0])
    } else {
        value_lines(vs.drop_last()) + ",\n"@ + "    "@ + quoted(vs.last())
    }
}

/// A rendered value array: empty on one line, otherwise one value per line.
pub open spec fn value_block(vs: Seq<Seq<char>>) -> Seq<char> {
    if vs.len() == 0 {
        "[]"@
    } else {
        "[\n"@ + value_lines(vs) + "\n  ]"@
    }
}

/// One rendered field entry: the field identifier, then its value array.
pub open spec fn entry_line(f: FieldView) -> Seq<char> {
    "  "@ + quoted(f.field_id) + ": "@ + value_block(f.values)
}

/// The entries of a rendered field mapping, consecutive entries separated by
/// a comma.
pub open spec fn entry_lines(fs: Seq<FieldView>) -> Seq<char>
    decreases fs.len(),
{
    if fs.len() == 0 {
        Seq::empty()
    } else if fs.len() == 1 {
        entry_line(fs[0])
    } else {
        entry_lines(fs.drop_last()) + ",\n"@ + entry_line(fs.last())
    }
}

/// The full rendering of a submitted field mapping: an empty mapping on one
/// line, otherwise one entry per field between braces.
pub open spec fn rendered_fields(fs: Seq<FieldView>) -> Seq<char> {
    if fs.len() == 0 {
        "{}"@
    } else {
        "{\n"@ + entry_lines(fs) + "\n}"@
    }
}

fn hex_digit_exec(d: u32) -> (r: char)
    requires
        d < 16,
    ensures
        r == hex_digit(d as int),
{
    if d == 0 {
        '0'
    } else if d == 1 {
        '1'
    } else if d == 2 {
        '2'
    } else if d == 3 {
        '3'
    } else if d == 4 {
        '4'
    } else if d == 5 {
        '5'
    } else if d == 6 {
        '6'
    } else if d == 7 {
        '7'
    } else if d == 8 {
        '8'
    } else if d == 9 {
        '9'
    } else if d == 10 {
        'a'
    } else if d == 11 {
        'b'
    } else if d == 12 {
        'c'
    } else if d == 13 {
        'd'
    } else if d == 14 {
        'e'
    } else {
        'f'
    }
}

/// Appends every character of `s`, unescaped, to `out`.
fn push_chars(out: &mut Vec<char>, s: &str)
    ensures
        final(out)@ == old(out)@ + s@,
{
    let n = s.unicode_len();
    let mut i: usize = 0;
    while i < n
        invariant
            n == s@.len(),
            i <= n,
            out@ == old(out)@ + s@.take(i as int),
        decreases n - i,
    {
        let c = s.get_char(i);
        out.push(c);
        proof {
            assert(old(out)@ + s@.take((i + 1) as int) =~= (old(out)@ + s@.take(i as int)).push(
                s@[i as int],
            ));
        }
        i = i + 1;
    }
    proof {
        assert(s@.take(n as int) =~= s@);
    }
}

/// Appends the escaped body of `s` to `out`.
fn push_escaped(out: &mut Vec<char>, s: &str)
    ensures
        final(out)@ == old(out)@ + escaped(s@),
{
    let n = s.unicode_len();
    let mut i: usize = 0;
    while i < n
        invariant
            n == s@.len(),
            i <= n,
            out@ == old(out)@ + escaped(s@.take(i as int)),
        decreases n - i,
    {
        let ghost prev = out@;
        let c = s.get_char(i);
        if c == '"' {
            out.push('\\');
            out.push('"');
        } else if c == '\\' {
            out.push('\\');
            out.push('\\');
        } else if c == '\n' {
            out.push('\\');
            out.push('n');
        } else if c == '\r' {
            out.push('\\');
            out.push('r');
        } else if c == '\t' {
            out.push('\\');
            out.push('t');
        } else if (c as u32) < 32 {
            out.push('\\');
            out.push('u');
            out.push('0');
            out.push('0');
            out.push(hex_digit_exec((c as u32) / 16));
            out.push(hex_digit_exec((c as u32) % 16));
        } else {
            out.push(c);
        }
        proof {
            assert(out@ =~= prev + escaped_char(s@[i as int]));
            assert(s@.take((i + 1) as int).drop_last() =~= s@.take(i as int));
            assert(out@ =~= old(out)@ + escaped(s@.take((i + 1) as int)));
        }
        i = i + 1;
    }
    proof {
        assert(s@.take(n as int) =~= s@);
    }
}

/// Appends the rendered literal of `s`, quotes included, to `out`.
fn push_quoted(out: &mut Vec<char>, s: &str)
    ensures
        final(out)@ == old(out)@ + quoted(s@),
{
    out.push('"');
    push_escaped(out, s);
    out.push('"');
    proof {
        assert(out@ =~= old(out)@ + quoted(s@));
    }
}

/// Appends the rendered value array of `vs` to `out`.
fn push_value_block(out: &mut Vec<char>, vs: &Vec<String>)
    ensures
        final(out)@ == old(out)@ + value_block(vs.deep_view()),
{
    let ghost views = vs.deep_view();
    if vs.len() == 0 {
        push_chars(out, "[]");
    } else {
        push_chars(out, "[\n");
        let mut j: usize = 0;
        while j < vs.len()
            invariant
                views == vs.deep_view(),
                views.len() == vs@.len(),
                0 < vs@.len(),
                j <= vs@.len(),
                out@ == old(out)@ + "[\n"@ + value_lines(views.take(j as int)),
            decreases vs@.len() - j,
        {
            let ghost prev = out@;
            if j > 0 {
                push_chars(out, ",\n");
            }
            push_chars(out, "    ");
            push_quoted(out, vs[j].as_str());
            proof {
                assert(views.take((j + 1) as int).drop_last() =~= views.take(j as int));
                assert(views[j as int] == vs@[j as int]@);
                if j == 0 {
                    assert(out@ =~= old(out)@ + "[\n"@ + value_lines(views.take(1)));
                } else {
                    assert(out@ =~= old(out)@ + "[\n"@ + value_lines(views.take((j + 1) as int)));
                }
            }
            j = j + 1;
        }
        push_chars(out, "\n  ]");
        proof {
            assert(views.take(views.len() as int) =~= views);
            assert(out@ =~= old(out)@ + value_block(views));
        }
    }
}

/// Appends the rendered entry of one submitted field to `out`.
fn push_entry(out: &mut Vec<char>, f: &SubmittedField)
    ensures
        final(out)@ == old(out)@ + entry_line(f@),
{
    push_chars(out, "  ");
    push_quoted(out, f.field_id.as_str());
    push_chars(out, ": ");
    push_value_block(out, &f.values);
    proof {
        assert(out@ =~= old(out)@ + entry_line(f@));
    }
}

/// Renders a submitted field mapping as indented text, one field entry per
/// line. The result is a function of the mapping alone, so equal mappings
/// render to identical text.
pub fn render_submission(fields: &Vec<SubmittedField>) -> (r: String)
    ensures
        r@ == rendered_fields(fields@.map_values(|f: SubmittedField| f@)),
{
    let ghost views = fields@.map_values(|f: SubmittedField| f@);
    let mut out: Vec<char> = Vec::new();
    if fields.len() == 0 {
        push_chars(&mut out, "{}");
    } else {
        push_chars(&mut out, "{\n");
        let mut j: usize = 0;
        while j < fields.len()
            invariant
                views == fields@.map_values(|f: SubmittedField| f@),
                views.len() == fields@.len(),
                0 < fields@.len(),
                j <= fields@.len(),
                out@ == "{\n"@ + entry_lines(views.take(j as int)),
            decreases fields@.len() - j,
        {
            if j > 0 {
                push_chars(&mut out, ",\n");
            }
            push_entry(&mut out, &fields[j]);
            proof {
                assert(views.take((j + 1) as int).drop_last() =~= views.take(j as int));
                assert(views[j as int] == fields@[j as int]@);
                if j == 0 {
                    assert(out@ =~= "{\n"@ + entry_lines(views.take(1)));
                } else {
                    assert(out@ =~= "{\n"@ + entry_lines(views.take((j + 1) as int)));
                }
            }
            j = j + 1;
        }
        push_chars(&mut out, "\n}");
        proof {
            assert(views.take(views.len() as int) =~= views);
            assert(out@ =~= rendered_fields(views));
        }
    }
    string_from_chars(&out)
}

} // verus!

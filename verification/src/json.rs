//! Rendering of response bodies as JSON text.  The wire shapes are part
//! of the service's contract — `School` as `{"id":<n>,"name":"<s>"}`,
//! errors as `{"message":"<s>"}`, the fallback body as a bare JSON
//! string — so the encoding is spelled out here and proved, character
//! by character.

use vstd::prelude::*;
use vstd::string::StringExecFns;

use crate::handlers::ResponseBody;
use crate::models::{ErrorDetail, RouteDefinition, School};

verus! {

/// The character of one decimal digit.
pub open spec fn digit_char(d: int) -> char {
    if d == 0 {
        '0'
    } else if d == 1 {
        '1'
    } else if d == 2 {
        '2'
    } else if d == 3 {
        '3'
    } else if d == 4 {
        '4'
    } else if d == 5 {
        '5'
    } else if d == 6 {
        '6'
    } else if d == 7 {
        '7'
    } else if d == 8 {
        '8'
    } else {
        '9'
    }
}

/// The decimal digits of a non-negative number, most significant first;
/// empty for 0 (the sole zero digit is handled by `spec_dec_string`).
pub open spec fn spec_digits(n: int) -> Seq<char>
    decreases n,
{
    if n <= 0 {
        Seq::empty()
    } else {
        spec_digits(n / 10).push(digit_char(n % 10))
    }
}

/// The decimal rendering of an integer, as the standard formatter
/// writes it: an optional minus sign, no leading zeros, `0` for zero.
pub open spec fn spec_dec_string(n: int) -> Seq<char> {
    if n == 0 {
        seq!['0']
    } else if n < 0 {
        seq!['-'] + spec_digits(-n)
    } else {
        spec_digits(n)
    }
}

/// Appends the character of one digit.
fn append_digit(out: &mut String, d: u64)
    requires
        d < 10,
    ensures
        final(out)@ == old(out)@ + seq![digit_char(d as int)],
{
    proof {
        reveal_strlit("0");
        reveal_strlit("1");
        reveal_strlit("2");
        reveal_strlit("3");
        reveal_strlit("4");
        reveal_strlit("5");
        reveal_strlit("6");
        reveal_strlit("7");
        reveal_strlit("8");
        reveal_strlit("9");
        assert("0"@ =~= seq!['0']);
        assert("1"@ =~= seq!['1']);
        assert("2"@ =~= seq!['2']);
        assert("3"@ =~= seq!['3']);
        assert("4"@ =~= seq!['4']);
        assert("5"@ =~= seq!['5']);
        assert("6"@ =~= seq!['6']);
        assert("7"@ =~= seq!['7']);
        assert("8"@ =~= seq!['8']);
        assert("9"@ =~= seq!['9']);
    }
    match d {
        0 => out.append("0"),
        1 => out.append("1"),
        2 => out.append("2"),
        3 => out.append("3"),
        4 => out.append("4"),
        5 => out.append("5"),
        6 => out.append("6"),
        7 => out.append("7"),
        8 => out.append("8"),
        _ => out.append("9"),
    }
}

/// Appends the decimal digits of a positive number.
fn append_digits(out: &mut String, n: u64)
    requires
        n > 0,
    ensures
        final(out)@ == old(out)@ + spec_digits(n as int),
    decreases n,
{
    let q = n / 10;
    let d = n % 10;
    if q > 0 {
        append_digits(out, q);
    }
    append_digit(out, d);
    proof {
        assert(old(out)@ + spec_digits(q as int) + seq![digit_char(d as int)] =~= old(out)@
            + (spec_digits(q as int) + seq![digit_char(d as int)]));
        assert(spec_digits(q as int).push(digit_char(d as int)) =~= spec_digits(q as int)
            + seq![digit_char(d as int)]);
    }
}

/// Appends the decimal rendering of a signed 32-bit integer.
pub fn append_i32_decimal(out: &mut String, n: i32)
    ensures
        final(out)@ == old(out)@ + spec_dec_string(n as int),
{
    proof {
        reveal_strlit("0");
        reveal_strlit("-");
        assert("0"@ =~= seq!['0']);
        assert("-"@ =~= seq!['-']);
    }
    if n == 0 {
        out.append("0");
    } else if n < 0 {
        out.append("-");
        let mag = (-(n as i64)) as u64;
        append_digits(out, mag);
        proof {
            assert(old(out)@ + seq!['-'] + spec_digits(mag as int) =~= old(out)@ + (seq!['-']
                + spec_digits(mag as int)));
        }
    } else {
        append_digits(out, n as u64);
    }
}

/// The character of one lower-case hexadecimal digit.
pub open spec fn hex_char(d: int) -> char {
    if d < 10 {
        digit_char(d)
    } else if d == 10 {
        'a'
    } else if d == 11 {
        'b'
    } else if d == 12 {
        'c'
    } else if d == 13 {
        'd'
    } else if d == 14 {
        'e'
    } else {
        'f'
    }
}

/// How one character appears inside a JSON string literal: quote and
/// backslash get a backslash escape, the five short control escapes are
/// used where they exist, any other control character becomes a
/// `\u00xx` escape, and everything else stands for itself.
pub open spec fn escape_char(c: char) -> Seq<char> {
    if c == '"' {
        seq!['\\', '"']
    } else if c == '\\' {
        seq!['\\', '\\']
    } else if c as u32 == 8 {
        seq!['\\', 'b']
    } else if c as u32 == 9 {
        seq!['\\', 't']
    } else if c as u32 == 10 {
        seq!['\\', 'n']
    } else if c as u32 == 12 {
        seq!['\\', 'f']
    } else if c as u32 == 13 {
        seq!['\\', 'r']
    } else if (c as u32) < 32 {
        let hi = hex_char((c as int) / 16);
        let lo = hex_char((c as int) % 16);
        seq!['\\', 'u', '0', '0', hi, lo]
    } else {
        seq![c]
    }
}

/// The body of a JSON string literal: each character escaped.
pub open spec fn json_escaped(s: Seq<char>) -> Seq<char>
    decreases s.len(),
{
    if s.len() == 0 {
        Seq::empty()
    } else {
        json_escaped(s.drop_last()) + escape_char(s.last())
    }
}

/// A whole JSON string literal: the escaped body between quotes.
pub open spec fn json_string(s: Seq<char>) -> Seq<char> {
    seq!['"'] + json_escaped(s) + seq!['"']
}

/// Appends the character of one hexadecimal digit.
fn append_hex_digit(out: &mut String, d: u64)
    requires
        d < 16,
    ensures
        final(out)@ == old(out)@ + seq![hex_char(d as int)],
{
    proof {
        reveal_strlit("a");
        reveal_strlit("b");
        reveal_strlit("c");
        reveal_strlit("d");
        reveal_strlit("e");
        reveal_strlit("f");
        assert("a"@ =~= seq!['a']);
        assert("b"@ =~= seq!['b']);
        assert("c"@ =~= seq!['c']);
        assert("d"@ =~= seq!['d']);
        assert("e"@ =~= seq!['e']);
        assert("f"@ =~= seq!['f']);
    }
    if d < 10 {
        append_digit(out, d);
    } else {
        match d {
            10 => out.append("a"),
            11 => out.append("b"),
            12 => out.append("c"),
            13 => out.append("d"),
            14 => out.append("e"),
            _ => out.append("f"),
        }
    }
}

/// Appends the escaped body of a JSON string literal.
pub fn append_json_escaped(out: &mut String, s: &str)
    ensures
        final(out)@ == old(out)@ + json_escaped(s@),
{
    let n = s.unicode_len();
    let mut i: usize = 0;
    while i < n
        invariant
            i <= n,
            n == s@.len(),
            out@ == old(out)@ + json_escaped(s@.take(i as int)),
        decreases n - i,
    {
        proof {
            assert(s@.take(i as int + 1).drop_last() =~= s@.take(i as int));
            assert(s@.take(i as int + 1).last() == s@[i as int]);
        }
        let ghost done = s@.take(i as int);
        let c = s.get_char(i);
        let u = c as u32;
        if c == '"' {
            proof {
                reveal_strlit("\\\"");
                assert("\\\""@ =~= seq!['\\', '"']);
            }
            out.append("\\\"");
        } else if c == '\\' {
            proof {
                reveal_strlit("\\\\");
                assert("\\\\"@ =~= seq!['\\', '\\']);
            }
            out.append("\\\\");
        } else if u == 8 {
            proof {
                reveal_strlit("\\b");
                assert("\\b"@ =~= seq!['\\', 'b']);
            }
            out.append("\\b");
        } else if u == 9 {
            proof {
                reveal_strlit("\\t");
                assert("\\t"@ =~= seq!['\\', 't']);
            }
            out.append("\\t");
        } else if u == 10 {
            proof {
                reveal_strlit("\\n");
                assert("\\n"@ =~= seq!['\\', 'n']);
            }
            out.append("\\n");
        } else if u == 12 {
            proof {
                reveal_strlit("\\f");
                assert("\\f"@ =~= seq!['\\', 'f']);
            }
            out.append("\\f");
        } else if u == 13 {
            proof {
                reveal_strlit("\\r");
                assert("\\r"@ =~= seq!['\\', 'r']);
            }
            out.append("\\r");
        } else if u < 32 {
            proof {
                reveal_strlit("\\u00");
                assert("\\u00"@ =~= seq!['\\', 'u', '0', '0']);
            }
            out.append("\\u00");
            append_hex_digit(out, (u / 16) as u64);
            append_hex_digit(out, (u % 16) as u64);
            proof {
                assert(out@ =~= old(out)@ + json_escaped(done) + escape_char(s@[i as int]));
            }
        } else {
            let piece = s.substring_char(i, i + 1);
            proof {
                assert(piece@ =~= seq![s@[i as int]]);
            }
            out.append(piece);
        }
        proof {
            assert(out@ =~= old(out)@ + json_escaped(s@.take(i as int + 1)));
        }
        i += 1;
    }
    proof {
        assert(s@.take(n as int) =~= s@);
    }
}

/// Appends a whole JSON string literal.
pub fn append_json_string(out: &mut String, s: &str)
    ensures
        final(out)@ == old(out)@ + json_string(s@),
{
    proof {
        reveal_strlit("\"");
        assert("\""@ =~= seq!['"']);
    }
    out.append("\"");
    append_json_escaped(out, s);
    out.append("\"");
    proof {
        assert(out@ =~= old(out)@ + json_string(s@));
    }
}

/// Appends the decimal rendering of a count.
pub fn append_usize_decimal(out: &mut String, n: usize)
    ensures
        final(out)@ == old(out)@ + spec_dec_string(n as int),
{
    proof {
        reveal_strlit("0");
        assert("0"@ =~= seq!['0']);
    }
    if n == 0 {
        out.append("0");
    } else {
        append_digits(out, n as u64);
    }
}

/// The JSON object of a school: `{"id":<n>,"name":"<s>"}`, fields in
/// declaration order.
pub open spec fn school_json(s: School) -> Seq<char> {
    "{\"id\":"@ + spec_dec_string(s.id as int) + ",\"name\":"@ + json_string(s.name@) + "}"@
}

/// The JSON object of a route definition: `{"url":"<u>","method":"<m>"}`.
pub open spec fn route_json(d: RouteDefinition) -> Seq<char> {
    "{\"url\":"@ + json_string(d.url@) + ",\"method\":"@ + json_string(d.method@) + "}"@
}

/// The JSON object of an error: `{"message":"<s>"}`.
pub open spec fn error_json(d: ErrorDetail) -> Seq<char> {
    "{\"message\":"@ + json_string(d.message@) + "}"@
}

/// The comma-separated items of a JSON array of schools.
pub open spec fn schools_json_items(rows: Seq<School>) -> Seq<char>
    decreases rows.len(),
{
    if rows.len() == 0 {
        Seq::empty()
    } else if rows.len() == 1 {
        school_json(rows[0])
    } else {
        schools_json_items(rows.drop_last()) + seq![','] + school_json(rows.last())
    }
}

/// The JSON array of schools.
pub open spec fn schools_json(rows: Seq<School>) -> Seq<char> {
    seq!['['] + schools_json_items(rows) + seq![']']
}

/// The comma-separated items of a JSON array of route definitions.
pub open spec fn routes_json_items(defs: Seq<RouteDefinition>) -> Seq<char>
    decreases defs.len(),
{
    if defs.len() == 0 {
        Seq::empty()
    } else if defs.len() == 1 {
        route_json(defs[0])
    } else {
        routes_json_items(defs.drop_last()) + seq![','] + route_json(defs.last())
    }
}

/// The JSON array of route definitions.
pub open spec fn routes_json(defs: Seq<RouteDefinition>) -> Seq<char> {
    seq!['['] + routes_json_items(defs) + seq![']']
}

/// Appends the JSON object of a school.
pub fn append_school_json(out: &mut String, s: &School)
    ensures
        final(out)@ == old(out)@ + school_json(*s),
{
    out.append("{\"id\":");
    append_i32_decimal(out, s.id);
    out.append(",\"name\":");
    append_json_string(out, s.name.as_str());
    out.append("}");
    proof {
        assert(out@ =~= old(out)@ + school_json(*s));
    }
}

/// Appends the JSON object of a route definition.
pub fn append_route_json(out: &mut String, d: &RouteDefinition)
    ensures
        final(out)@ == old(out)@ + route_json(*d),
{
    out.append("{\"url\":");
    append_json_string(out, d.url.as_str());
    out.append(",\"method\":");
    append_json_string(out, d.method.as_str());
    out.append("}");
    proof {
        assert(out@ =~= old(out)@ + route_json(*d));
    }
}

/// Appends the JSON object of an error.
pub fn append_error_json(out: &mut String, d: &ErrorDetail)
    ensures
        final(out)@ == old(out)@ + error_json(*d),
{
    out.append("{\"message\":");
    append_json_string(out, d.message.as_str());
    out.append("}");
    proof {
        assert(out@ =~= old(out)@ + error_json(*d));
    }
}

/// Appends the JSON array of schools.
pub fn append_schools_json(out: &mut String, rows: &Vec<School>)
    ensures
        final(out)@ == old(out)@ + schools_json(rows@),
{
    out.append("[");
    proof {
        reveal_strlit("[");
        reveal_strlit("]");
        reveal_strlit(",");
        assert("["@ =~= seq!['[']);
        assert("]"@ =~= seq![']']);
        assert(","@ =~= seq![',']);
    }
    let n = rows.len();
    let mut i: usize = 0;
    while i < n
        invariant
            i <= n,
            n == rows@.len(),
            "["@ =~= seq!['['],
            ","@ =~= seq![','],
            out@ == old(out)@ + seq!['['] + schools_json_items(rows@.take(i as int)),
        decreases n - i,
    {
        proof {
            assert(rows@.take(i as int + 1).drop_last() =~= rows@.take(i as int));
            assert(rows@.take(i as int + 1).last() == rows@[i as int]);
        }
        if i > 0 {
            out.append(",");
        }
        append_school_json(out, &rows[i]);
        proof {
            assert(out@ =~= old(out)@ + seq!['['] + schools_json_items(rows@.take(i as int + 1)));
        }
        i += 1;
    }
    out.append("]");
    proof {
        assert(rows@.take(n as int) =~= rows@);
        assert(out@ =~= old(out)@ + schools_json(rows@));
    }
}

/// Appends the JSON array of route definitions.
pub fn append_routes_json(out: &mut String, defs: &Vec<RouteDefinition>)
    ensures
        final(out)@ == old(out)@ + routes_json(defs@),
{
    out.append("[");
    proof {
        reveal_strlit("[");
        reveal_strlit("]");
        reveal_strlit(",");
        assert("["@ =~= seq!['[']);
        assert("]"@ =~= seq![']']);
        assert(","@ =~= seq![',']);
    }
    let n = defs.len();
    let mut i: usize = 0;
    while i < n
        invariant
            i <= n,
            n == defs@.len(),
            "["@ =~= seq!['['],
            ","@ =~= seq![','],
            out@ == old(out)@ + seq!['['] + routes_json_items(defs@.take(i as int)),
        decreases n - i,
    {
        proof {
            assert(defs@.take(i as int + 1).drop_last() =~= defs@.take(i as int));
            assert(defs@.take(i as int + 1).last() == defs@[i as int]);
        }
        if i > 0 {
            out.append(",");
        }
        append_route_json(out, &defs[i]);
        proof {
            assert(out@ =~= old(out)@ + seq!['['] + routes_json_items(defs@.take(i as int + 1)));
        }
        i += 1;
    }
    out.append("]");
    proof {
        assert(defs@.take(n as int) =~= defs@);
        assert(out@ =~= old(out)@ + routes_json(defs@));
    }
}

/// The wire text of a response body: JSON for every shape the service
/// produces, including the fallback's bare JSON string.
pub open spec fn spec_render_body(b: ResponseBody) -> Seq<char> {
    match b {
        ResponseBody::Routes(defs) => routes_json(defs@),
        ResponseBody::Schools(rows) => schools_json(rows@),
        ResponseBody::School(s) => school_json(s),
        ResponseBody::Count(c) => spec_dec_string(c as int),
        ResponseBody::Error(d) => error_json(d),
        ResponseBody::Text(t) => json_string(t@),
    }
}

/// Renders a response body as the exact JSON text it travels as.
pub fn render_body(body: &ResponseBody) -> (r: String)
    ensures
        r@ == spec_render_body(*body),
{
    let mut out = String::new();
    match body {
        ResponseBody::Routes(defs) => append_routes_json(&mut out, defs),
        ResponseBody::Schools(rows) => append_schools_json(&mut out, rows),
        ResponseBody::School(s) => append_school_json(&mut out, s),
        ResponseBody::Count(c) => append_usize_decimal(&mut out, *c),
        ResponseBody::Error(d) => append_error_json(&mut out, d),
        ResponseBody::Text(t) => append_json_string(&mut out, t.as_str()),
    }
    out
}

} // verus!

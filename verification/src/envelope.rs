use vstd::prelude::*;

use crate::text::{
    lemma_dec_val_take_le, lemma_spec_dec, lemma_spec_dec_val_push, spec_dec, spec_dec_val,
    spec_digit_val, spec_is_digit,
};

verus! {

// ---------------------------------------------------------------------
// The wire form of the response envelope.
//
// An envelope with code `c`, message `m` and optional data `d` is
// rendered as the JSON text
//
//     {"code":C,"message":"M","data":D}
//
// where `C` is the decimal representation of `c`, `M` is `m` with the
// two delimiter characters `"` and `\` escaped, and `D` is either
// `null` or an escaped string.  The parser inverts the renderer
// exactly; the round trip is proved below.
// ---------------------------------------------------------------------
/// The escape sequence for one message character: the string delimiter
/// and the escape character themselves are escaped, everything else is
/// passed through unchanged.
pub open spec fn spec_esc_char(c: char) -> Seq<char> {
    if c == '"' {
        seq!['\\', '"']
    } else if c == '\\' {
        seq!['\\', '\\']
    } else {
        seq![c]
    }
}

/// A string with every character escaped.
pub open spec fn spec_esc(s: Seq<char>) -> Seq<char>
    decreases s.len(),
{
    if s.len() == 0 {
        Seq::empty()
    } else {
        spec_esc_char(s[0]) + spec_esc(s.skip(1))
    }
}

/// Escaping distributes over concatenation.
pub proof fn lemma_esc_concat(a: Seq<char>, b: Seq<char>)
    ensures
        spec_esc(a + b) == spec_esc(a) + spec_esc(b),
    decreases a.len(),
{
    if a.len() == 0 {
        assert(a + b =~= b);
        assert(spec_esc(a) + spec_esc(b) =~= spec_esc(b));
    } else {
        assert((a + b)[0] == a[0]);
        assert((a + b).skip(1) =~= a.skip(1) + b);
        assert((a + b).len() > 0);
        lemma_esc_concat(a.skip(1), b);
        assert(spec_esc_char(a[0]) + (spec_esc(a.skip(1)) + spec_esc(b)) =~= (spec_esc_char(a[0])
            + spec_esc(a.skip(1))) + spec_esc(b));
    }
}

/// Escaping a single character yields its escape sequence.
pub proof fn lemma_esc_single(c: char)
    ensures
        spec_esc(seq![c]) == spec_esc_char(c),
{
    assert(seq![c].skip(1) =~= Seq::<char>::empty());
    assert(spec_esc_char(c) + spec_esc(Seq::<char>::empty()) =~= spec_esc_char(c));
}

/// The leading characters of the rendered envelope.
pub open spec fn lit_open() -> Seq<char> {
    seq!['{', '"', 'c', 'o', 'd', 'e', '"', ':']
}

/// The characters between the code and the message string.
pub open spec fn lit_msg() -> Seq<char> {
    seq![',', '"', 'm', 'e', 's', 's', 'a', 'g', 'e', '"', ':', '"']
}

/// The characters between the message string and the data value.
pub open spec fn lit_data() -> Seq<char> {
    seq![',', '"', 'd', 'a', 't', 'a', '"', ':']
}

/// The rendered data value: `null`, or an escaped string.
pub open spec fn spec_data_part(d: Option<Seq<char>>) -> Seq<char> {
    match d {
        None => seq!['n', 'u', 'l', 'l'],
        Some(dd) => seq!['"'] + spec_esc(dd) + seq!['"'],
    }
}

/// The full rendered envelope.
#[verifier::opaque]
pub open spec fn spec_render(code: u16, m: Seq<char>, d: Option<Seq<char>>) -> Seq<char> {
    lit_open() + spec_dec(code as int) + lit_msg() + spec_esc(m) + seq!['"'] + lit_data()
        + spec_data_part(d) + seq!['}']
}

/// The character view of an optional string.
pub open spec fn spec_opt_chars(d: Option<String>) -> Option<Seq<char>> {
    match d {
        None => None,
        Some(s) => Some(s@),
    }
}

/// Appends every character of `s` to `out`.
fn push_str_chars(out: &mut Vec<char>, s: &str)
    ensures
        final(out)@ == old(out)@ + s@,
{
    let n = s.unicode_len();
    let mut i: usize = 0;
    proof {
        assert(out@ =~= old(out)@ + s@.take(0));
    }
    while i < n
        invariant
            n == s@.len(),
            0 <= i <= n,
            out@ == old(out)@ + s@.take(i as int),
        decreases n - i,
    {
        out.push(s.get_char(i));
        proof {
            assert(old(out)@ + s@.take(i + 1) =~= (old(out)@ + s@.take(i as int)).push(
                s@[i as int],
            ));
        }
        i += 1;
    }
    proof {
        assert(s@.take(n as int) =~= s@);
    }
}

/// Appends `s` with the two delimiter characters escaped.
fn push_escaped(out: &mut Vec<char>, s: &str)
    ensures
        final(out)@ == old(out)@ + spec_esc(s@),
{
    let n = s.unicode_len();
    let mut i: usize = 0;
    proof {
        assert(out@ =~= old(out)@ + spec_esc(s@.take(0)));
    }
    while i < n
        invariant
            n == s@.len(),
            0 <= i <= n,
            out@ == old(out)@ + spec_esc(s@.take(i as int)),
        decreases n - i,
    {
        let c = s.get_char(i);
        if c == '"' {
            out.push('\\');
            out.push('"');
        } else if c == '\\' {
            out.push('\\');
            out.push('\\');
        } else {
            out.push(c);
        }
        proof {
            lemma_esc_concat(s@.take(i as int), seq![s@[i as int]]);
            lemma_esc_single(s@[i as int]);
            assert(s@.take(i + 1) =~= s@.take(i as int) + seq![s@[i as int]]);
            assert(out@ =~= old(out)@ + spec_esc(s@.take(i + 1)));
        }
        i += 1;
    }
    proof {
        assert(s@.take(n as int) =~= s@);
    }
}

/// Renders an envelope with the given code, message and optional data
/// payload as JSON text.
pub fn render_envelope(code: u16, message: &String, data: &Option<String>) -> (r: Vec<char>)
    ensures
        r@ == spec_render(code, message@, spec_opt_chars(*data)),
{
    proof {
        reveal_strlit("{\"code\":");
        reveal_strlit(",\"message\":\"");
        reveal_strlit(",\"data\":");
        reveal_strlit("null");
    }
    proof {
        reveal(spec_render);
    }
    let mut out: Vec<char> = Vec::new();
    push_str_chars(&mut out, "{\"code\":");
    proof {
        assert("{\"code\":"@ =~= lit_open());
    }
    crate::text::push_dec_u128(code as u128, &mut out);
    push_str_chars(&mut out, ",\"message\":\"");
    proof {
        assert(",\"message\":\""@ =~= lit_msg());
    }
    push_escaped(&mut out, message.as_str());
    out.push('"');
    push_str_chars(&mut out, ",\"data\":");
    proof {
        assert(",\"data\":"@ =~= lit_data());
    }
    match data {
        None => {
            push_str_chars(&mut out, "null");
            proof {
                assert("null"@ =~= spec_data_part(spec_opt_chars(*data)));
            }
        },
        Some(d) => {
            out.push('"');
            push_escaped(&mut out, d.as_str());
            out.push('"');
            proof {
                assert(seq!['"'] + spec_esc(d@) + seq!['"'] =~= spec_data_part(
                    spec_opt_chars(*data),
                ));
            }
        },
    }
    out.push('}');
    proof {
        assert(out@ =~= spec_render(code, message@, spec_opt_chars(*data)));
    }
    out
}

/// A parsed response envelope: the code, the message characters, and
/// the data characters when data was present rather than `null`.
#[derive(Debug)]
pub struct ParsedEnvelope {
    pub code: u16,
    pub message: Vec<char>,
    pub data: Option<Vec<char>>,
}

impl ParsedEnvelope {
    /// The character view of the parsed data field.
    pub open spec fn data_view(&self) -> Option<Seq<char>> {
        match self.data {
            None => None,
            Some(v) => Some(v@),
        }
    }
}

/// Advances over the literal `lit` at `pos`, if it is exactly there.
fn expect_lit(s: &Vec<char>, pos: usize, lit: &str) -> (r: Option<usize>)
    ensures
        r matches Some(p) ==> pos + lit@.len() <= s@.len() && p == pos + lit@.len()
            && s@.subrange(pos as int, p as int) == lit@,
        r is None ==> !(pos + lit@.len() <= s@.len() && s@.subrange(
            pos as int,
            pos + lit@.len(),
        ) == lit@),
{
    let ln = lit.unicode_len();
    let slen = s.len();
    if pos > slen || ln > slen - pos {
        return None;
    }
    let mut j: usize = 0;
    while j < ln
        invariant
            slen == s@.len(),
            pos + ln <= s@.len(),
            ln == lit@.len(),
            0 <= j <= ln,
            forall|k: int| 0 <= k < j ==> s@[pos + k] == lit@[k],
        decreases ln - j,
    {
        if s[pos + j] != lit.get_char(j) {
            proof {
                assert(s@.subrange(pos as int, pos + lit@.len())[j as int] != lit@[j as int]);
            }
            return None;
        }
        j += 1;
    }
    proof {
        assert(s@.subrange(pos as int, pos + lit@.len()) =~= lit@);
    }
    Some(pos + ln)
}

/// Whether the character is a decimal digit.
fn is_digit_char(c: char) -> (r: bool)
    ensures
        r == spec_is_digit(c),
{
    let u = c as u32;
    48 <= u && u <= 57
}

/// Reads the decimal code field at `pos`: a maximal digit run whose
/// value fits in a `u16`.
fn parse_code(s: &Vec<char>, pos: usize) -> (r: Option<(u16, usize)>)
    ensures
        forall|v: u16, rest: Seq<char>|
            (pos <= s@.len() && s@.skip(pos as int) == spec_dec(v as int) + rest && (rest.len()
                > 0 ==> !spec_is_digit(rest[0]))) ==> (r matches Some(t) && t.0 == v && t.1 == pos
                + spec_dec(v as int).len()),
{
    let n = s.len();
    if pos > n {
        return None;
    }
    let mut p = pos;
    let mut val: u32 = 0;
    proof {
        assert(s@.subrange(pos as int, pos as int) =~= Seq::<char>::empty());
        assert(spec_dec_val(Seq::<char>::empty()) == 0);
    }
    while p < n && is_digit_char(s[p]) && val * 10 + ((s[p] as u32) - 48) <= 65535
        invariant
            n == s@.len(),
            pos <= p <= n,
            forall|k: int| pos <= k < p ==> spec_is_digit(#[trigger] s@[k]),
            val == spec_dec_val(s@.subrange(pos as int, p as int)),
            val <= 65535,
        decreases n - p,
    {
        proof {
            assert(s@.subrange(pos as int, p + 1).drop_last() =~= s@.subrange(
                pos as int,
                p as int,
            ));
            assert(s@.subrange(pos as int, p + 1).last() == s@[p as int]);
        }
        val = val * 10 + ((s[p] as u32) - 48);
        p += 1;
    }
    // Exactly one of these holds at exit: end of input, a non-digit, or
    // a digit that would push the value past u16::MAX.
    if p == pos {
        proof {
            assert forall|v: u16, rest: Seq<char>|
                (pos <= s@.len() && s@.skip(pos as int) == spec_dec(v as int) + rest && (
                rest.len() > 0 ==> !spec_is_digit(rest[0]))) implies false by {
                lemma_spec_dec(v as int);
                assert(s@.skip(pos as int).len() >= 1);
                assert(s@.skip(pos as int)[0] == s@[pos as int]);
                assert((spec_dec(v as int) + rest)[0] == spec_dec(v as int)[0]);
                assert(spec_is_digit(s@[pos as int]));
            }
        }
        return None;
    }
    if p < n && is_digit_char(s[p]) {
        // stopped only because the value no longer fits in a u16
        proof {
            assert forall|v: u16, rest: Seq<char>|
                (pos <= s@.len() && s@.skip(pos as int) == spec_dec(v as int) + rest && (
                rest.len() > 0 ==> !spec_is_digit(rest[0]))) implies false by {
                lemma_spec_dec(v as int);
                let dd = spec_dec(v as int);
                // the scanned run sits inside the rendered digit run
                assert forall|k: int| 0 <= k < dd.len() implies s@[pos + k] == dd[k] by {
                    assert(s@.skip(pos as int)[k] == s@[pos + k]);
                    assert((dd + rest)[k] == dd[k]);
                }
                if p - pos > dd.len() {
                    assert(s@.skip(pos as int)[dd.len() as int] == s@[pos + dd.len()]);
                    assert((dd + rest)[dd.len() as int] == rest[0]);
                    assert(spec_is_digit(s@[pos + dd.len()]));
                } else if p - pos == dd.len() {
                    assert(s@.skip(pos as int)[dd.len() as int] == s@[pos + dd.len()]);
                    assert((dd + rest)[dd.len() as int] == rest[0]);
                    assert(spec_is_digit(s@[p as int]));
                } else {
                    assert(s@.subrange(pos as int, p as int) =~= dd.take(p - pos));
                    lemma_dec_val_take_le(dd, p - pos);
                    assert(s@[p as int] == dd[p - pos]);
                    lemma_spec_dec_val_push(dd.take(p - pos), s@[p as int]);
                    assert(dd.take(p - pos).push(s@[p as int]) =~= dd.take(p - pos + 1));
                    lemma_dec_val_take_le(dd, p - pos + 1);
                    assert(spec_dec_val(dd.take(p - pos + 1)) == spec_dec_val(dd.take(p - pos))
                        * 10 + spec_digit_val(s@[p as int]));
                }
            }
        }
        return None;
    }
    let code: u16 = val as u16;
    proof {
        assert forall|v: u16, rest: Seq<char>|
            (pos <= s@.len() && s@.skip(pos as int) == spec_dec(v as int) + rest && (rest.len()
                > 0 ==> !spec_is_digit(rest[0]))) implies (code == v && p == pos + spec_dec(
            v as int,
        ).len()) by {
            lemma_spec_dec(v as int);
            let dd = spec_dec(v as int);
            assert(s@.skip(pos as int).len() == s@.len() - pos);
            assert(dd.len() + 1 + rest.len() == s@.len() - pos + 1);
            assert forall|k: int| 0 <= k < dd.len() implies s@[pos + k] == dd[k] by {
                assert((dd + rest)[k] == dd[k]);
                assert(s@.skip(pos as int)[k] == s@[pos + k]);
            }
            if p - pos < dd.len() {
                assert(spec_is_digit(dd[p - pos]));
                assert(s@[p as int] == dd[p - pos]);
            }
            if p - pos > dd.len() {
                assert(s@.skip(pos as int)[dd.len() as int] == s@[pos + dd.len()]);
                assert((dd + rest)[dd.len() as int] == rest[0]);
                assert(spec_is_digit(s@[pos + dd.len()]));
            }
            assert(p - pos == dd.len());
            assert(s@.subrange(pos as int, p as int) =~= dd);
        }
    }
    Some((code, p))
}

/// Reads an escaped string at `pos` up to its closing quote, appending
/// the unescaped characters to `acc`.
fn parse_jstring(s: &Vec<char>, pos: usize, acc: Vec<char>) -> (r: Option<(Vec<char>, usize)>)
    requires
        pos <= s@.len(),
    ensures
        forall|m: Seq<char>, rest: Seq<char>|
            s@.skip(pos as int) == spec_esc(m) + seq!['"'] + rest ==> (r matches Some(t) && t.0@
                == acc@ + m && t.1 == pos + spec_esc(m).len() + 1),
    decreases s@.len() - pos,
{
    let ghost acc0 = acc@;
    if pos == s.len() {
        proof {
            assert forall|m: Seq<char>, rest: Seq<char>|
                s@.skip(pos as int) == spec_esc(m) + seq!['"'] + rest implies false by {
                assert(s@.skip(pos as int).len() == 0);
            }
        }
        return None;
    }
    let c = s[pos];
    if c == '"' {
        proof {
            assert forall|m: Seq<char>, rest: Seq<char>|
                s@.skip(pos as int) == spec_esc(m) + seq!['"'] + rest implies (acc@ == acc0 + m
                && pos + 1 == pos + spec_esc(m).len() + 1) by {
                if m.len() > 0 {
                    assert(spec_esc(m) == spec_esc_char(m[0]) + spec_esc(m.skip(1)));
                    assert(spec_esc(m)[0] == spec_esc_char(m[0])[0]);
                    assert(s@.skip(pos as int)[0] == spec_esc(m)[0]);
                    assert(spec_esc_char(m[0])[0] != '"');
                }
                assert(m =~= Seq::<char>::empty());
                assert(spec_esc(m).len() == 0);
                assert(acc0 + m =~= acc0);
            }
        }
        return Some((acc, pos + 1));
    }
    if c == '\\' {
        if pos + 1 == s.len() {
            proof {
                assert forall|m: Seq<char>, rest: Seq<char>|
                    s@.skip(pos as int) == spec_esc(m) + seq!['"'] + rest implies false by {
                    assert(s@.skip(pos as int)[0] == '\\');
                    if m.len() > 0 {
                        assert(spec_esc(m) == spec_esc_char(m[0]) + spec_esc(m.skip(1)));
                        assert(spec_esc_char(m[0])[0] == '\\');
                        assert(m[0] == '"' || m[0] == '\\');
                        assert(spec_esc_char(m[0]).len() == 2);
                        assert(s@.skip(pos as int).len() >= 3);
                    }
                }
            }
            return None;
        }
        let e = s[pos + 1];
        if e == '"' || e == '\\' {
            let mut acc2 = acc;
            acc2.push(e);
            let r2 = parse_jstring(s, pos + 2, acc2);
            proof {
                assert forall|m: Seq<char>, rest: Seq<char>|
                    s@.skip(pos as int) == spec_esc(m) + seq!['"'] + rest implies (r2 matches
                Some(t) && t.0@ == acc0 + m && t.1 == pos + spec_esc(m).len() + 1) by {
                    assert(s@.skip(pos as int)[0] == '\\');
                    assert(m.len() > 0);
                    assert(spec_esc(m) == spec_esc_char(m[0]) + spec_esc(m.skip(1)));
                    assert(spec_esc_char(m[0])[0] == '\\');
                    assert(m[0] == '"' || m[0] == '\\');
                    assert(spec_esc_char(m[0]).len() == 2);
                    assert(s@.skip(pos as int)[1] == spec_esc_char(m[0])[1]);
                    assert(m[0] == e);
                    assert(s@.skip(pos + 2) =~= s@.skip(pos as int).skip(2));
                    assert((spec_esc(m) + seq!['"'] + rest).skip(2) =~= spec_esc(m.skip(1))
                        + seq!['"'] + rest);
                    assert(s@.skip(pos + 2) == spec_esc(m.skip(1)) + seq!['"'] + rest);
                    assert((acc0 + seq![e]) + m.skip(1) =~= acc0 + m);
                    assert(spec_esc(m).len() == 2 + spec_esc(m.skip(1)).len());
                }
            }
            return r2;
        }
        proof {
            assert forall|m: Seq<char>, rest: Seq<char>|
                s@.skip(pos as int) == spec_esc(m) + seq!['"'] + rest implies false by {
                assert(s@.skip(pos as int)[0] == '\\');
                if m.len() > 0 {
                    assert(spec_esc(m) == spec_esc_char(m[0]) + spec_esc(m.skip(1)));
                    assert(spec_esc_char(m[0])[0] == '\\');
                    assert(m[0] == '"' || m[0] == '\\');
                    assert(s@.skip(pos as int)[1] == spec_esc_char(m[0])[1]);
                }
            }
        }
        return None;
    }
    let mut acc2 = acc;
    acc2.push(c);
    let r2 = parse_jstring(s, pos + 1, acc2);
    proof {
        assert forall|m: Seq<char>, rest: Seq<char>|
            s@.skip(pos as int) == spec_esc(m) + seq!['"'] + rest implies (r2 matches Some(t)
            && t.0@ == acc0 + m && t.1 == pos + spec_esc(m).len() + 1) by {
            if m.len() == 0 {
                assert(s@.skip(pos as int)[0] == '"');
            }
            assert(m.len() > 0);
            assert(spec_esc(m) == spec_esc_char(m[0]) + spec_esc(m.skip(1)));
            assert(spec_esc(m)[0] == spec_esc_char(m[0])[0]);
            assert(s@.skip(pos as int)[0] == spec_esc(m)[0]);
            assert(m[0] != '"' && m[0] != '\\');
            assert(spec_esc_char(m[0]) =~= seq![m[0]]);
            assert(m[0] == c);
            assert(s@.skip(pos + 1) =~= s@.skip(pos as int).skip(1));
            assert((spec_esc(m) + seq!['"'] + rest).skip(1) =~= spec_esc(m.skip(1)) + seq!['"']
                + rest);
            assert(s@.skip(pos + 1) == spec_esc(m.skip(1)) + seq!['"'] + rest);
            assert((acc0 + seq![c]) + m.skip(1) =~= acc0 + m);
            assert(spec_esc(m).len() == 1 + spec_esc(m.skip(1)).len());
        }
    }
    r2
}

/// How a rendered envelope decomposes at each field boundary.
proof fn lemma_render_parts(c: u16, m: Seq<char>, d: Option<Seq<char>>)
    ensures
        spec_render(c, m, d).len() == 30 + spec_dec(c as int).len() + spec_esc(m).len()
            + spec_data_part(d).len(),
        spec_render(c, m, d).subrange(0, 8) == lit_open(),
        spec_render(c, m, d).skip(8) == spec_dec(c as int) + (lit_msg() + spec_esc(m)
            + seq!['"'] + lit_data() + spec_data_part(d) + seq!['}']),
        (lit_msg() + spec_esc(m) + seq!['"'] + lit_data() + spec_data_part(d) + seq!['}'])[0]
            == ',',
        spec_render(c, m, d).subrange(
            8 + spec_dec(c as int).len() as int,
            20 + spec_dec(c as int).len() as int,
        ) == lit_msg(),
        spec_render(c, m, d).skip(20 + spec_dec(c as int).len() as int) == spec_esc(m) + seq!['"'] + (
        lit_data() + spec_data_part(d) + seq!['}']),
        spec_render(c, m, d).subrange(
            21 + spec_dec(c as int).len() as int + spec_esc(m).len() as int,
            29 + spec_dec(c as int).len() as int + spec_esc(m).len() as int,
        ) == lit_data(),
        d is None ==> spec_data_part(d).len() == 4 && spec_render(c, m, d).subrange(
            29 + spec_dec(c as int).len() as int + spec_esc(m).len() as int,
            33 + spec_dec(c as int).len() as int + spec_esc(m).len() as int,
        ) == seq!['n', 'u', 'l', 'l'] && spec_render(c, m, d).subrange(
            33 + spec_dec(c as int).len() as int + spec_esc(m).len() as int,
            34 + spec_dec(c as int).len() as int + spec_esc(m).len() as int,
        ) == seq!['}'],
        d matches Some(dd) ==> spec_data_part(d).len() == 2 + spec_esc(dd).len()
            && spec_render(c, m, d)[29 + spec_dec(c as int).len() as int + spec_esc(
            m,
        ).len() as int] == '"' && spec_render(c, m, d).skip(
            30 + spec_dec(c as int).len() as int + spec_esc(m).len() as int,
        ) == spec_esc(dd) + seq!['"'] + seq!['}'] && spec_render(c, m, d).subrange(
            31 + spec_dec(c as int).len() as int + spec_esc(m).len() as int + spec_esc(
                dd,
            ).len() as int,
            32 + spec_dec(c as int).len() as int + spec_esc(m).len() as int + spec_esc(
                dd,
            ).len() as int,
        ) == seq!['}'],
{
    reveal(spec_render);
    let t = spec_render(c, m, d);
    let dl = spec_dec(c as int).len() as int;
    let el = spec_esc(m).len() as int;
    assert(t.len() == 30 + dl + el + spec_data_part(d).len());
    assert(t.subrange(0, 8) =~= lit_open());
    assert(t.skip(8) =~= spec_dec(c as int) + (lit_msg() + spec_esc(m) + seq!['"'] + lit_data()
        + spec_data_part(d) + seq!['}']));
    assert(t.subrange(8 + dl, 20 + dl) =~= lit_msg());
    assert(t.skip(20 + dl) =~= spec_esc(m) + seq!['"'] + (lit_data() + spec_data_part(d)
        + seq!['}']));
    assert(t.subrange(21 + dl + el, 29 + dl + el) =~= lit_data());
    match d {
        None => {
            assert(t.subrange(29 + dl + el, 33 + dl + el) =~= seq!['n', 'u', 'l', 'l']);
            assert(t.subrange(33 + dl + el, 34 + dl + el) =~= seq!['}']);
        },
        Some(dd) => {
            assert(t[29 + dl + el] == '"');
            assert(t.skip(30 + dl + el) =~= spec_esc(dd) + seq!['"'] + seq!['}']);
            let xl = spec_esc(dd).len() as int;
            assert(t.subrange(31 + dl + el + xl, 32 + dl + el + xl) =~= seq!['}']);
        },
    }
}

/// Parses a rendered envelope back into its code, message and data.
///
/// The contract is the round-trip law: for every code, message and
/// data value, parsing the rendered envelope yields them back exactly.
#[verifier::rlimit(100)]
#[verifier::spinoff_prover]
pub fn parse_envelope(s: &Vec<char>) -> (r: Option<ParsedEnvelope>)
    ensures
        forall|c: u16, m: Seq<char>, d: Option<Seq<char>>|
            s@ == spec_render(c, m, d) ==> (r matches Some(pe) && pe.code == c && pe.message@
                == m && pe.data_view() == d),
{
    proof {
        reveal_strlit("{\"code\":");
        reveal_strlit(",\"message\":\"");
        reveal_strlit(",\"data\":");
        reveal_strlit("null");
        reveal_strlit("\"");
        reveal_strlit("}");
        assert("{\"code\":"@ =~= lit_open());
        assert(",\"message\":\""@ =~= lit_msg());
        assert(",\"data\":"@ =~= lit_data());
        assert("null"@ =~= seq!['n', 'u', 'l', 'l']);
        assert("\""@ =~= seq!['"']);
        assert("}"@ =~= seq!['}']);
    }
    let n = s.len();
    let p1 = match expect_lit(s, 0, "{\"code\":") {
        Some(p) => p,
        None => {
            proof {
                assert forall|c: u16, m: Seq<char>, d: Option<Seq<char>>|
                    s@ == spec_render(c, m, d) implies false by {
                    lemma_render_parts(c, m, d);
                }
            }
            return None;
        },
    };
    let (code, p2) = match parse_code(s, p1) {
        Some(t) => t,
        None => {
            proof {
                assert forall|c: u16, m: Seq<char>, d: Option<Seq<char>>|
                    s@ == spec_render(c, m, d) implies false by {
                    lemma_render_parts(c, m, d);
                }
            }
            return None;
        },
    };
    let p3 = match expect_lit(s, p2, ",\"message\":\"") {
        Some(p) => p,
        None => {
            proof {
                assert forall|c: u16, m: Seq<char>, d: Option<Seq<char>>|
                    s@ == spec_render(c, m, d) implies false by {
                    lemma_render_parts(c, m, d);
                }
            }
            return None;
        },
    };
    if p3 > n {
        proof {
            assert forall|c: u16, m: Seq<char>, d: Option<Seq<char>>|
                s@ == spec_render(c, m, d) implies false by {
                lemma_render_parts(c, m, d);
            }
        }
        return None;
    }
    let (msg, p4) = match parse_jstring(s, p3, Vec::new()) {
        Some(t) => t,
        None => {
            proof {
                assert forall|c: u16, m: Seq<char>, d: Option<Seq<char>>|
                    s@ == spec_render(c, m, d) implies false by {
                    lemma_render_parts(c, m, d);
                }
            }
            return None;
        },
    };
    let p5 = match expect_lit(s, p4, ",\"data\":") {
        Some(p) => p,
        None => {
            proof {
                assert forall|c: u16, m: Seq<char>, d: Option<Seq<char>>|
                    s@ == spec_render(c, m, d) implies false by {
                    lemma_render_parts(c, m, d);
                    assert(Seq::<char>::empty() + m =~= m);
                }
            }
            return None;
        },
    };
    match expect_lit(s, p5, "null") {
        Some(p6) => {
            let p7 = match expect_lit(s, p6, "}") {
                Some(p) => p,
                None => {
                    proof {
                        assert forall|c: u16, m: Seq<char>, d: Option<Seq<char>>|
                            s@ == spec_render(c, m, d) implies false by {
                            lemma_render_parts(c, m, d);
                            assert(Seq::<char>::empty() + m =~= m);
                        }
                    }
                    return None;
                },
            };
            if p7 != n {
                proof {
                    assert forall|c: u16, m: Seq<char>, d: Option<Seq<char>>|
                        s@ == spec_render(c, m, d) implies false by {
                        lemma_render_parts(c, m, d);
                        assert(Seq::<char>::empty() + m =~= m);
                    }
                }
                return None;
            }
            let r = Some(ParsedEnvelope { code, message: msg, data: None });
            proof {
                assert forall|c: u16, m: Seq<char>, d: Option<Seq<char>>|
                    s@ == spec_render(c, m, d) implies (code == c && msg@ == m && d is None) by {
                    lemma_render_parts(c, m, d);
                    assert(Seq::<char>::empty() + m =~= m);
                }
            }
            r
        },
        None => {
            let p6 = match expect_lit(s, p5, "\"") {
                Some(p) => p,
                None => {
                    proof {
                        assert forall|c: u16, m: Seq<char>, d: Option<Seq<char>>|
                            s@ == spec_render(c, m, d) implies false by {
                            lemma_render_parts(c, m, d);
                            assert(Seq::<char>::empty() + m =~= m);
                            if d is Some {
                                assert(s@.subrange(p5 as int, p5 + 1) =~= seq!['"']);
                            }
                        }
                    }
                    return None;
                },
            };
            if p6 > n {
                proof {
                    assert forall|c: u16, m: Seq<char>, d: Option<Seq<char>>|
                        s@ == spec_render(c, m, d) implies false by {
                        lemma_render_parts(c, m, d);
                        assert(Seq::<char>::empty() + m =~= m);
                    }
                }
                return None;
            }
            let (dat, p7) = match parse_jstring(s, p6, Vec::new()) {
                Some(t) => t,
                None => {
                    proof {
                        assert forall|c: u16, m: Seq<char>, d: Option<Seq<char>>|
                            s@ == spec_render(c, m, d) implies false by {
                            lemma_render_parts(c, m, d);
                            assert(Seq::<char>::empty() + m =~= m);
                        }
                    }
                    return None;
                },
            };
            let p8 = match expect_lit(s, p7, "}") {
                Some(p) => p,
                None => {
                    proof {
                        assert forall|c: u16, m: Seq<char>, d: Option<Seq<char>>|
                            s@ == spec_render(c, m, d) implies false by {
                            lemma_render_parts(c, m, d);
                            assert(Seq::<char>::empty() + m =~= m);
                            assert(Seq::<char>::empty() + spec_esc(m) =~= spec_esc(m));
                        }
                    }
                    return None;
                },
            };
            if p8 != n {
                proof {
                    assert forall|c: u16, m: Seq<char>, d: Option<Seq<char>>|
                        s@ == spec_render(c, m, d) implies false by {
                        lemma_render_parts(c, m, d);
                        assert(Seq::<char>::empty() + m =~= m);
                    }
                }
                return None;
            }
            let r = Some(ParsedEnvelope { code, message: msg, data: Some(dat) });
            proof {
                assert forall|c: u16, m: Seq<char>, d: Option<Seq<char>>|
                    s@ == spec_render(c, m, d) implies (code == c && msg@ == m && (d matches Some(
                    dd,
                ) && dat@ == dd)) by {
                    lemma_render_parts(c, m, d);
                    assert(Seq::<char>::empty() + m =~= m);
                    if d is Some {
                        let dd = d.unwrap();
                        assert(Seq::<char>::empty() + dd =~= dd);
                    }
                }
            }
            r
        },
    }
}

} // verus!

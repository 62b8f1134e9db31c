//! The on-disk JSON form of the configuration record.
//!
//! One record is persisted as a pretty-printed JSON object with the four
//! fields in fixed order, two-space indentation, and quote and backslash
//! characters of the port name escaped:
//!
//! ```text
//! {
//!   "port_name": "COM7",
//!   "baud_rate": 4800,
//!   "slave_id": 1,
//!   "timeout": 6000
//! }
//! ```
//!
//! [`config_to_json`] renders exactly this form; [`config_from_json`] reads
//! it back, tolerating arbitrary whitespace between tokens, and refuses
//! everything else. Both sides are pinned to spec-level functions over
//! character sequences, and [`lemma_config_json_round_trip`] proves that
//! parsing what was rendered gives back every record unchanged.

use vstd::prelude::*;

use crate::config::ConfigV;
use crate::config::ModbusConfig;

verus! {

/// Whitespace accepted between tokens.
pub open spec fn is_ws(c: char) -> bool {
    c == ' ' || c == '\n' || c == '\t' || c == '\r'
}

/// A decimal digit.
pub open spec fn is_digit(c: char) -> bool {
    '0' as int <= c as int <= '9' as int
}

/// The numeric value of a decimal digit character.
pub open spec fn char_digit(c: char) -> nat
    recommends
        is_digit(c),
{
    (c as int - '0' as int) as nat
}

/// The character of a decimal digit value.
pub open spec fn digit_char(d: nat) -> char
    recommends
        d < 10,
{
    if d == 0 {
        '0'
    } else if d == 1 {
        '1'
    } else if d == 2 {
        '2'
    } else if d == 3 {
        '3'
    } else if d == 4 {
        '4'
    } else if d == 5 {
        '5'
    } else if d == 6 {
        '6'
    } else if d == 7 {
        '7'
    } else if d == 8 {
        '8'
    } else {
        '9'
    }
}

/// The decimal rendering of a number, most significant digit first, no
/// leading zeros.
pub open spec fn dec_digits(n: nat) -> Seq<char>
    decreases n,
{
    if n < 10 {
        seq![digit_char(n)]
    } else {
        dec_digits(n / 10) + seq![digit_char(n % 10)]
    }
}

/// The value of a sequence of decimal digit characters.
pub open spec fn digits_value(s: Seq<char>) -> nat
    decreases s.len(),
{
    if s.len() == 0 {
        0
    } else {
        digits_value(s.drop_last()) * 10 + char_digit(s.last())
    }
}

/// How one character of the port name appears inside the JSON string:
/// quote and backslash are escaped, everything else stands as itself.
pub open spec fn escape_char(c: char) -> Seq<char> {
    if c == '"' {
        seq!['\\', '"']
    } else if c == '\\' {
        seq!['\\', '\\']
    } else {
        seq![c]
    }
}

/// The escaped body of the JSON string holding the port name.
pub open spec fn json_escape(s: Seq<char>) -> Seq<char>
    decreases s.len(),
{
    if s.len() == 0 {
        Seq::empty()
    } else {
        escape_char(s[0]) + json_escape(s.drop_first())
    }
}

/// The canonical pretty-printed JSON text of a configuration record.
pub open spec fn spec_config_json(c: ConfigV) -> Seq<char> {
    "{\n  \"port_name\": \""@ + json_escape(c.port_name) + "\",\n  \"baud_rate\": "@
        + dec_digits(c.baud_rate as nat) + ",\n  \"slave_id\": "@ + dec_digits(c.slave_id as nat)
        + ",\n  \"timeout\": "@ + dec_digits(c.timeout as nat) + "\n}"@
}

/// Escaping distributes over concatenation.
proof fn lemma_json_escape_append(a: Seq<char>, b: Seq<char>)
    ensures
        json_escape(a + b) == json_escape(a) + json_escape(b),
    decreases a.len(),
{
    if a.len() == 0 {
        assert(a + b =~= b);
        assert(json_escape(a) + json_escape(b) =~= json_escape(b));
    } else {
        assert((a + b).drop_first() =~= a.drop_first() + b);
        lemma_json_escape_append(a.drop_first(), b);
        assert(escape_char((a + b)[0]) + (json_escape(a.drop_first()) + json_escape(b)) =~= (
        escape_char(a[0]) + json_escape(a.drop_first())) + json_escape(b));
    }
}

/// The single digit as a string.
fn digit_str(d: u8) -> (r: &'static str)
    requires
        d < 10,
    ensures
        r@ == seq![digit_char(d as nat)],
{
    proof {
        reveal_strlit("0");
        reveal_strlit("1");
        reveal_strlit("2");
        reveal_strlit("3");
        reveal_strlit("4");
        reveal_strlit("5");
        reveal_strlit("6");
        reveal_strlit("7");
        reveal_strlit("8");
        reveal_strlit("9");
    }
    let r: &'static str = if d == 0 {
        "0"
    } else if d == 1 {
        "1"
    } else if d == 2 {
        "2"
    } else if d == 3 {
        "3"
    } else if d == 4 {
        "4"
    } else if d == 5 {
        "5"
    } else if d == 6 {
        "6"
    } else if d == 7 {
        "7"
    } else if d == 8 {
        "8"
    } else {
        "9"
    };
    proof {
        assert(r@ =~= seq![digit_char(d as nat)]);
    }
    r
}

/// Appends the decimal rendering of a number.
fn append_dec(out: &mut String, v: u64)
    ensures
        final(out)@ == old(out)@ + dec_digits(v as nat),
    decreases v,
{
    if v >= 10 {
        append_dec(out, v / 10);
        let digit = digit_str((v % 10) as u8);
        out.append(digit);
        proof {
            assert(final(out)@ =~= old(out)@ + dec_digits(v as nat));
        }
    } else {
        let digit = digit_str(v as u8);
        out.append(digit);
        proof {
            assert(final(out)@ =~= old(out)@ + dec_digits(v as nat));
        }
    }
}

/// Appends the escaped body of the port-name string.
fn append_escaped(out: &mut String, s: &str)
    ensures
        final(out)@ == old(out)@ + json_escape(s@),
{
    let len = s.unicode_len();
    let mut i: usize = 0;
    while i < len
        invariant
            len == s@.len(),
            0 <= i <= len,
            out@ == old(out)@ + json_escape(s@.take(i as int)),
        decreases len - i,
    {
        let c = s.get_char(i);
        if c == '"' {
            out.append("\\\"");
            proof {
                reveal_strlit("\\\"");
                assert("\\\""@ =~= escape_char(s@[i as int]));
            }
        } else if c == '\\' {
            out.append("\\\\");
            proof {
                reveal_strlit("\\\\");
                assert("\\\\"@ =~= escape_char(s@[i as int]));
            }
        } else {
            let piece = s.substring_char(i, i + 1);
            out.append(piece);
            proof {
                assert(piece@ =~= escape_char(s@[i as int]));
            }
        }
        proof {
            assert(s@.take(i + 1) =~= s@.take(i as int) + seq![s@[i as int]]);
            lemma_json_escape_append(s@.take(i as int), seq![s@[i as int]]);
            assert(seq![s@[i as int]].drop_first() =~= Seq::<char>::empty());
            assert(json_escape(Seq::<char>::empty()) =~= Seq::<char>::empty());
            assert(json_escape(seq![s@[i as int]]) == escape_char(s@[i as int]) + json_escape(
                seq![s@[i as int]].drop_first(),
            ));
            assert(json_escape(seq![s@[i as int]]) =~= escape_char(s@[i as int]));
            assert(out@ =~= old(out)@ + json_escape(s@.take(i + 1)));
        }
        i += 1;
    }
    proof {
        assert(s@.take(len as int) =~= s@);
    }
}

/// Length of the run of whitespace the text begins with.
pub open spec fn spec_skip_ws(t: Seq<char>) -> int
    decreases t.len(),
{
    if t.len() > 0 && is_ws(t[0]) {
        1 + spec_skip_ws(t.drop_first())
    } else {
        0
    }
}

/// Length of the run of decimal digits the text begins with.
pub open spec fn spec_digit_run(t: Seq<char>) -> int
    decreases t.len(),
{
    if t.len() > 0 && is_digit(t[0]) {
        1 + spec_digit_run(t.drop_first())
    } else {
        0
    }
}

/// Reads whitespace and then the exact literal; what follows on success.
pub open spec fn spec_tok(t: Seq<char>, lit: Seq<char>) -> Option<Seq<char>> {
    let u = t.skip(spec_skip_ws(t));
    if lit.len() <= u.len() && u.take(lit.len() as int) == lit {
        Some(u.skip(lit.len() as int))
    } else {
        None
    }
}

/// Reads whitespace and then a nonempty digit run; its value and what
/// follows on success.
pub open spec fn spec_num(t: Seq<char>) -> Option<(nat, Seq<char>)> {
    let u = t.skip(spec_skip_ws(t));
    let run = spec_digit_run(u);
    if run > 0 {
        Some((digits_value(u.take(run)), u.skip(run)))
    } else {
        None
    }
}

/// Reads the body of a JSON string after its opening quote, up to and
/// including the closing quote: the unescaped contents and the number of
/// characters consumed.
pub open spec fn spec_str_body(t: Seq<char>) -> Option<(Seq<char>, int)>
    decreases t.len(),
{
    if t.len() == 0 {
        None
    } else if t[0] == '"' {
        Some((Seq::empty(), 1))
    } else if t[0] == '\\' {
        if t.len() >= 2 && (t[1] == '"' || t[1] == '\\') {
            match spec_str_body(t.skip(2)) {
                Some(pair) => Some((seq![t[1]] + pair.0, 2 + pair.1)),
                None => None,
            }
        } else {
            None
        }
    } else {
        match spec_str_body(t.skip(1)) {
            Some(pair) => Some((seq![t[0]] + pair.0, 1 + pair.1)),
            None => None,
        }
    }
}

/// Reads whitespace and then a quoted JSON string; its unescaped contents
/// and what follows on success.
pub open spec fn spec_str_tok(t: Seq<char>) -> Option<(Seq<char>, Seq<char>)> {
    let u = t.skip(spec_skip_ws(t));
    if u.len() > 0 && u[0] == '"' {
        match spec_str_body(u.skip(1)) {
            Some(pair) => Some((pair.0, u.skip(1 + pair.1))),
            None => None,
        }
    } else {
        None
    }
}

/// Reads a quoted field key and its colon.
pub open spec fn spec_key(t: Seq<char>, key: Seq<char>) -> Option<Seq<char>> {
    match spec_tok(t, key) {
        Some(t1) => spec_tok(t1, ":"@),
        None => None,
    }
}

/// Reads a quoted field key, its colon, and its numeric value.
pub open spec fn spec_num_field(t: Seq<char>, key: Seq<char>) -> Option<(nat, Seq<char>)> {
    match spec_key(t, key) {
        Some(t1) => spec_num(t1),
        None => None,
    }
}

/// The configuration record a JSON text denotes: the four fields in fixed
/// order, arbitrary whitespace between tokens, values within their field
/// types, nothing but whitespace after the closing brace.
pub open spec fn spec_config_from_json(t: Seq<char>) -> Option<ConfigV> {
    match spec_tok(t, "{"@) {
        Some(t1) => match spec_key(t1, "\"port_name\""@) {
            Some(t2) => match spec_str_tok(t2) {
                Some((port_name, t3)) => match spec_tok(t3, ","@) {
                    Some(t4) => match spec_num_field(t4, "\"baud_rate\""@) {
                        Some((baud_rate, t5)) => match spec_tok(t5, ","@) {
                            Some(t6) => match spec_num_field(t6, "\"slave_id\""@) {
                                Some((slave_id, t7)) => match spec_tok(t7, ","@) {
                                    Some(t8) => match spec_num_field(t8, "\"timeout\""@) {
                                        Some((timeout, t9)) => match spec_tok(t9, "}"@) {
                                            Some(t10) => {
                                                if t10.skip(spec_skip_ws(t10)).len() == 0
                                                    && baud_rate <= u32::MAX && slave_id
                                                    <= u8::MAX && timeout <= u64::MAX {
                                                    Some(
                                                        ConfigV {
                                                            port_name,
                                                            baud_rate: baud_rate as u32,
                                                            slave_id: slave_id as u8,
                                                            timeout: timeout as u64,
                                                        },
                                                    )
                                                } else {
                                                    None
                                                }
                                            },
                                            None => None,
                                        },
                                        None => None,
                                    },
                                    None => None,
                                },
                                None => None,
                            },
                            None => None,
                        },
                        None => None,
                    },
                    None => None,
                },
                None => None,
            },
            None => None,
        },
        None => None,
    }
}

/// The whitespace run never leaves the text.
proof fn lemma_skip_ws_bounds(t: Seq<char>)
    ensures
        0 <= spec_skip_ws(t) <= t.len(),
    decreases t.len(),
{
    if t.len() > 0 && is_ws(t[0]) {
        lemma_skip_ws_bounds(t.drop_first());
    }
}

/// The digit run never leaves the text.
proof fn lemma_digit_run_bounds(t: Seq<char>)
    ensures
        0 <= spec_digit_run(t) <= t.len(),
    decreases t.len(),
{
    if t.len() > 0 && is_digit(t[0]) {
        lemma_digit_run_bounds(t.drop_first());
    }
}

/// A digit run's prefix never exceeds the whole run's value.
proof fn lemma_digits_value_prefix_le(t: Seq<char>, k: int)
    requires
        0 <= k <= t.len(),
    ensures
        digits_value(t.take(k)) <= digits_value(t),
    decreases t.len(),
{
    if k < t.len() {
        assert(t.drop_last().take(k) =~= t.take(k));
        lemma_digits_value_prefix_le(t.drop_last(), k);
        assert(digits_value(t.drop_last()) * 10 >= digits_value(t.drop_last()))
            by (nonlinear_arith);
    } else {
        assert(t.take(k) =~= t);
    }
}

/// Whether a character is accepted as whitespace between tokens.
fn is_ws_char(c: char) -> (r: bool)
    ensures
        r == is_ws(c),
{
    c == ' ' || c == '\n' || c == '\t' || c == '\r'
}

/// Whether a character is a decimal digit.
fn is_digit_char(c: char) -> (r: bool)
    ensures
        r == is_digit(c),
{
    let u = c as u32;
    48 <= u && u <= 57
}

/// Advances past the whitespace run beginning at `i`.
#[verifier::loop_isolation(false)]
fn skip_ws(s: &str, len: usize, i: usize) -> (j: usize)
    requires
        len == s@.len(),
        i <= len,
    ensures
        i <= j <= len,
        j - i == spec_skip_ws(s@.skip(i as int)),
{
    let mut j = i;
    loop
        invariant
            i <= j <= len,
            spec_skip_ws(s@.skip(i as int)) == (j - i) + spec_skip_ws(s@.skip(j as int)),
        decreases len - j,
    {
        if j == len {
            assert(s@.skip(j as int) =~= Seq::<char>::empty());
            return j;
        }
        let c = s.get_char(j);
        proof {
            assert(s@.skip(j as int)[0] == s@[j as int]);
        }
        if !is_ws_char(c) {
            return j;
        }
        proof {
            assert(s@.skip(j as int).drop_first() =~= s@.skip(j + 1));
        }
        j += 1;
    }
}

/// Reads whitespace and then the exact literal beginning at `i`.
#[verifier::loop_isolation(false)]
fn eat_tok(s: &str, len: usize, i: usize, lit: &str) -> (r: Option<usize>)
    requires
        len == s@.len(),
        i <= len,
    ensures
        match r {
            Some(j) => i <= j <= len && spec_tok(s@.skip(i as int), lit@) == Some(
                s@.skip(j as int),
            ),
            None => spec_tok(s@.skip(i as int), lit@) is None,
        },
{
    let j = skip_ws(s, len, i);
    let lit_len = lit.unicode_len();
    proof {
        lemma_skip_ws_bounds(s@.skip(i as int));
        assert(s@.skip(i as int).skip(spec_skip_ws(s@.skip(i as int))) =~= s@.skip(j as int));
    }
    if lit_len > len - j {
        return None;
    }
    let mut k: usize = 0;
    while k < lit_len
        invariant
            0 <= k <= lit_len,
            forall|m: int| 0 <= m < k ==> s@[j + m] == lit@[m],
        decreases lit_len - k,
    {
        let hay_c = s.get_char(j + k);
        let lit_c = lit.get_char(k);
        if hay_c != lit_c {
            assert(spec_tok(s@.skip(i as int), lit@) is None) by {
                if s@.skip(j as int).take(lit_len as int) == lit@ {
                    assert(s@.skip(j as int).take(lit_len as int)[k as int] == lit@[k as int]);
                    assert(s@.skip(j as int)[k as int] == s@[j + k]);
                }
            }
            return None;
        }
        k += 1;
    }
    proof {
        assert(s@.skip(j as int).take(lit_len as int) =~= lit@);
        assert(s@.skip(j as int).skip(lit_len as int) =~= s@.skip(j + lit_len));
    }
    Some(j + lit_len)
}

/// Reads whitespace and then a decimal number beginning at `i`. Refuses a
/// number that does not fit the result type.
#[verifier::loop_isolation(false)]
fn eat_num(s: &str, len: usize, i: usize) -> (r: Option<(u64, usize)>)
    requires
        len == s@.len(),
        i <= len,
    ensures
        match r {
            Some(pair) => i <= pair.1 <= len && spec_num(s@.skip(i as int)) == Some(
                (pair.0 as nat, s@.skip(pair.1 as int)),
            ),
            None => match spec_num(s@.skip(i as int)) {
                Some(p) => p.0 > u64::MAX,
                None => true,
            },
        },
{
    let j = skip_ws(s, len, i);
    proof {
        lemma_skip_ws_bounds(s@.skip(i as int));
        assert(s@.skip(i as int).skip(spec_skip_ws(s@.skip(i as int))) =~= s@.skip(j as int));
    }
    // Find the end of the digit run.
    let mut e = j;
    loop
        invariant
            j <= e <= len,
            spec_digit_run(s@.skip(j as int)) == (e - j) + spec_digit_run(s@.skip(e as int)),
        decreases len - e,
    {
        if e == len {
            assert(s@.skip(e as int) =~= Seq::<char>::empty());
            break ;
        }
        let c = s.get_char(e);
        proof {
            assert(s@.skip(e as int)[0] == s@[e as int]);
        }
        if !is_digit_char(c) {
            break ;
        }
        proof {
            assert(s@.skip(e as int).drop_first() =~= s@.skip(e + 1));
        }
        e += 1;
    }
    if e == j {
        return None;
    }
    proof {
        lemma_digit_run_bounds(s@.skip(e as int));
        assert(s@.skip(j as int).take((e - j) as int) =~= s@.subrange(j as int, e as int));
        assert(s@.skip(j as int).skip((e - j) as int) =~= s@.skip(e as int));
    }
    // Accumulate the value, refusing overflow.
    let max10: u64 = u64::MAX / 10;
    let maxrem: u64 = u64::MAX % 10;
    let mut acc: u64 = 0;
    let mut k = j;
    while k < e
        invariant
            j <= k <= e,
            acc as nat == digits_value(s@.subrange(j as int, k as int)),
        decreases e - k,
    {
        let c = s.get_char(k);
        proof {
            assert(s@.skip(j as int)[k - j] == s@[k as int]);
            assert(spec_digit_run(s@.skip(j as int)) == e - j);
        }
        assert(is_digit(s@[k as int])) by {
            lemma_digit_run_all_digits(s@.skip(j as int));
        }
        let d = ((c as u32) - 48) as u8;
        proof {
            assert(s@.subrange(j as int, k + 1).drop_last() =~= s@.subrange(j as int, k as int));
            assert(s@.subrange(j as int, k + 1).last() == s@[k as int]);
        }
        if acc > max10 || (acc == max10 && (d as u64) > maxrem) {
            proof {
                if acc > max10 {
                    assert(acc * 10 >= (max10 + 1) * 10) by (nonlinear_arith)
                        requires
                            acc >= max10 + 1,
                    ;
                }
                assert(digits_value(s@.subrange(j as int, k + 1)) > u64::MAX);
                lemma_digits_value_prefix_le(s@.subrange(j as int, e as int), k + 1 - j);
                assert(s@.subrange(j as int, e as int).take(k + 1 - j) =~= s@.subrange(
                    j as int,
                    k + 1,
                ));
            }
            return None;
        }
        proof {
            if acc < max10 {
                assert(acc * 10 <= (max10 - 1) * 10) by (nonlinear_arith)
                    requires
                        acc <= max10 - 1,
                ;
            }
        }
        acc = acc * 10 + (d as u64);
        k += 1;
    }
    Some((acc, e))
}

/// Every character inside the digit run is a digit.
proof fn lemma_digit_run_all_digits(t: Seq<char>)
    ensures
        forall|m: int| 0 <= m < spec_digit_run(t) ==> is_digit(#[trigger] t[m]),
    decreases t.len(),
{
    if t.len() > 0 && is_digit(t[0]) {
        lemma_digit_run_all_digits(t.drop_first());
        lemma_digit_run_bounds(t.drop_first());
        assert forall|m: int| 0 <= m < spec_digit_run(t) implies is_digit(#[trigger] t[m]) by {
            if m > 0 {
                assert(is_digit(t.drop_first()[m - 1]));
                assert(t.drop_first()[m - 1] == t[m]);
            }
        }
    }
}

/// Reads whitespace and then a quoted string beginning at `i`, undoing the
/// escapes of its body.
#[verifier::loop_isolation(false)]
fn eat_str(s: &str, len: usize, i: usize) -> (r: Option<(String, usize)>)
    requires
        len == s@.len(),
        i <= len,
    ensures
        match r {
            Some(pair) => i <= pair.1 <= len && spec_str_tok(s@.skip(i as int)) == Some(
                (pair.0@, s@.skip(pair.1 as int)),
            ),
            None => spec_str_tok(s@.skip(i as int)) is None,
        },
{
    let j = skip_ws(s, len, i);
    proof {
        lemma_skip_ws_bounds(s@.skip(i as int));
        assert(s@.skip(i as int).skip(spec_skip_ws(s@.skip(i as int))) =~= s@.skip(j as int));
    }
    if j == len {
        return None;
    }
    proof {
        assert(s@.skip(j as int)[0] == s@[j as int]);
    }
    if s.get_char(j) != '"' {
        return None;
    }
    let body_start = j + 1;
    proof {
        assert(s@.skip(j as int).skip(1) =~= s@.skip(body_start as int));
    }
    let mut out = String::new();
    let mut cur = body_start;
    loop
        invariant
            body_start <= cur <= len,
            spec_str_body(s@.skip(body_start as int)) == (
            match spec_str_body(s@.skip(cur as int)) {
                Some(p) => Some::<(Seq<char>, int)>(
                    (out@ + p.0, (cur - body_start) + p.1),
                ),
                None => None::<(Seq<char>, int)>,
            }),
        decreases len - cur,
    {
        if cur == len {
            proof {
                assert(s@.skip(cur as int) =~= Seq::<char>::empty());
            }
            return None;
        }
        let c = s.get_char(cur);
        proof {
            assert(s@.skip(cur as int)[0] == s@[cur as int]);
        }
        if c == '"' {
            proof {
                let closing: (Seq<char>, int) = (Seq::<char>::empty(), 1int);
                assert(spec_str_body(s@.skip(cur as int)) == Some(closing));
                assert(out@ + Seq::<char>::empty() =~= out@);
                assert(spec_str_body(s@.skip(body_start as int)) == Some::<(Seq<char>, int)>(
                    (out@, (cur - body_start) + 1),
                ));
                assert(s@.skip(j as int).skip(1 + ((cur - body_start) + 1)) =~= s@.skip(cur + 1));
            }
            return Some((out, cur + 1));
        } else if c == '\\' {
            if cur + 1 == len {
                proof {
                    assert(s@.skip(cur as int).len() == 1);
                }
                return None;
            }
            proof {
                assert(s@.skip(cur as int)[1] == s@[cur + 1]);
                assert(s@.skip(cur as int).skip(2) =~= s@.skip(cur + 2));
            }
            let c2 = s.get_char(cur + 1);
            let ghost out0 = out@;
            if c2 == '"' {
                out.append("\"");
                proof {
                    reveal_strlit("\"");
                    assert(out@ =~= out0 + seq![s@[cur + 1]]);
                }
            } else if c2 == '\\' {
                out.append("\\");
                proof {
                    reveal_strlit("\\");
                    assert(out@ =~= out0 + seq![s@[cur + 1]]);
                }
            } else {
                return None;
            }
            proof {
                if spec_str_body(s@.skip(cur + 2)) is Some {
                    let p = spec_str_body(s@.skip(cur + 2))->0;
                    assert((out0 + seq![s@[cur + 1]]) + p.0 =~= out0 + (seq![s@[cur + 1]] + p.0));
                }
            }
            cur += 2;
        } else {
            let piece = s.substring_char(cur, cur + 1);
            let ghost out0 = out@;
            out.append(piece);
            proof {
                assert(piece@ =~= seq![s@[cur as int]]);
                assert(out@ =~= out0 + seq![s@[cur as int]]);
                assert(s@.skip(cur as int).skip(1) =~= s@.skip(cur + 1));
                if spec_str_body(s@.skip(cur + 1)) is Some {
                    let p = spec_str_body(s@.skip(cur + 1))->0;
                    assert((out0 + seq![s@[cur as int]]) + p.0 =~= out0 + (
                    seq![s@[cur as int]] + p.0));
                }
            }
            cur += 1;
        }
    }
}

/// Renders a configuration record as its canonical pretty-printed JSON
/// text.
pub fn config_to_json(config: &ModbusConfig) -> (r: String)
    ensures
        r@ == spec_config_json(config@),
{
    let mut out = String::from_str("{\n  \"port_name\": \"");
    append_escaped(&mut out, config.port_name.as_str());
    out.append("\",\n  \"baud_rate\": ");
    append_dec(&mut out, config.baud_rate as u64);
    out.append(",\n  \"slave_id\": ");
    append_dec(&mut out, config.slave_id as u64);
    out.append(",\n  \"timeout\": ");
    append_dec(&mut out, config.timeout);
    out.append("\n}");
    proof {
        assert(out@ =~= spec_config_json(config@));
    }
    out
}

/// A run of whitespace followed by something that is not whitespace is
/// skipped exactly.
proof fn lemma_skip_ws_exact(w: Seq<char>, rest: Seq<char>)
    requires
        forall|k: int| 0 <= k < w.len() ==> is_ws(#[trigger] w[k]),
        rest.len() == 0 || !is_ws(rest[0]),
    ensures
        spec_skip_ws(w + rest) == w.len(),
    decreases w.len(),
{
    if w.len() == 0 {
        assert(w + rest =~= rest);
        if rest.len() > 0 {
            assert(!is_ws(rest[0]));
        }
    } else {
        assert((w + rest)[0] == w[0]);
        assert((w + rest).drop_first() =~= w.drop_first() + rest);
        lemma_skip_ws_exact(w.drop_first(), rest);
    }
}

/// A run of digits followed by something that is not a digit is measured
/// exactly.
proof fn lemma_digit_run_exact(d: Seq<char>, rest: Seq<char>)
    requires
        forall|k: int| 0 <= k < d.len() ==> is_digit(#[trigger] d[k]),
        rest.len() == 0 || !is_digit(rest[0]),
    ensures
        spec_digit_run(d + rest) == d.len(),
    decreases d.len(),
{
    if d.len() == 0 {
        assert(d + rest =~= rest);
        if rest.len() > 0 {
            assert(!is_digit(rest[0]));
        }
    } else {
        assert((d + rest)[0] == d[0]);
        assert((d + rest).drop_first() =~= d.drop_first() + rest);
        lemma_digit_run_exact(d.drop_first(), rest);
    }
}

/// Whitespace, then an exact literal, is read as that literal.
proof fn lemma_tok_exact(t: Seq<char>, w: Seq<char>, lit: Seq<char>, rest: Seq<char>)
    requires
        t == w + lit + rest,
        forall|k: int| 0 <= k < w.len() ==> is_ws(#[trigger] w[k]),
        lit.len() > 0,
        !is_ws(lit[0]),
    ensures
        spec_tok(t, lit) == Some(rest),
{
    assert(t =~= w + (lit + rest));
    assert((lit + rest)[0] == lit[0]);
    lemma_skip_ws_exact(w, lit + rest);
    assert(t.skip(w.len() as int) =~= lit + rest);
    assert((lit + rest).take(lit.len() as int) =~= lit);
    assert((lit + rest).skip(lit.len() as int) =~= rest);
}

/// The decimal rendering is nonempty and all digits.
proof fn lemma_dec_digits_all_digits(n: nat)
    ensures
        dec_digits(n).len() >= 1,
        forall|k: int| 0 <= k < dec_digits(n).len() ==> is_digit(#[trigger] dec_digits(n)[k]),
    decreases n,
{
    if n < 10 {
        assert(is_digit(dec_digits(n)[0]));
    } else {
        lemma_dec_digits_all_digits(n / 10);
        assert(is_digit(digit_char(n % 10)));
        assert forall|k: int| 0 <= k < dec_digits(n).len() implies is_digit(
            #[trigger] dec_digits(n)[k],
        ) by {
            if k < dec_digits(n / 10).len() {
                assert(dec_digits(n)[k] == dec_digits(n / 10)[k]);
            } else {
                assert(dec_digits(n)[k] == digit_char(n % 10));
            }
        }
    }
}

/// Reading the decimal rendering of a number gives the number back.
proof fn lemma_dec_digits_value(n: nat)
    ensures
        digits_value(dec_digits(n)) == n,
    decreases n,
{
    if n < 10 {
        assert(dec_digits(n) == seq![digit_char(n)]);
        assert(dec_digits(n).drop_last() =~= Seq::<char>::empty());
        assert(dec_digits(n).last() == digit_char(n));
        assert(digits_value(Seq::<char>::empty()) == 0);
        assert(digits_value(dec_digits(n)) == 0 * 10 + char_digit(digit_char(n)));
        assert(char_digit(digit_char(n)) == n);
    } else {
        lemma_dec_digits_value(n / 10);
        assert(dec_digits(n).drop_last() =~= dec_digits(n / 10));
        assert(dec_digits(n).last() == digit_char(n % 10));
        assert(char_digit(digit_char(n % 10)) == n % 10);
        assert(digits_value(dec_digits(n)) == (n / 10) * 10 + n % 10);
    }
}

/// Whitespace, then a decimal rendering followed by a non-digit, is read
/// as the rendered number.
#[verifier::rlimit(30)]
proof fn lemma_num_exact(t: Seq<char>, w: Seq<char>, n: nat, rest: Seq<char>)
    requires
        t == w + (dec_digits(n) + rest),
        forall|k: int| 0 <= k < w.len() ==> is_ws(#[trigger] w[k]),
        rest.len() == 0 || !is_digit(rest[0]),
    ensures
        spec_num(t) == Some((n, rest)),
{
    lemma_dec_digits_all_digits(n);
    lemma_dec_digits_value(n);
    assert(!is_ws(dec_digits(n)[0]));
    assert((dec_digits(n) + rest)[0] == dec_digits(n)[0]);
    lemma_skip_ws_exact(w, dec_digits(n) + rest);
    assert(t.skip(w.len() as int) =~= dec_digits(n) + rest);
    lemma_digit_run_exact(dec_digits(n), rest);
    assert((dec_digits(n) + rest).take(dec_digits(n).len() as int) =~= dec_digits(n));
    assert((dec_digits(n) + rest).skip(dec_digits(n).len() as int) =~= rest);
}

/// The escaped body of a string, up to its closing quote, reads back as
/// the unescaped contents.
proof fn lemma_str_body_escape(name: Seq<char>, rest: Seq<char>)
    ensures
        spec_str_body(json_escape(name) + (seq!['"'] + rest)) == Some(
            (name, (json_escape(name).len() + 1) as int),
        ),
    decreases name.len(),
{
    let t = json_escape(name) + (seq!['"'] + rest);
    if name.len() == 0 {
        assert(t =~= seq!['"'] + rest);
        assert(t[0] == '"');
        assert(name =~= Seq::<char>::empty());
    } else {
        let c = name[0];
        let tail = name.drop_first();
        lemma_str_body_escape(tail, rest);
        assert(json_escape(name) == escape_char(c) + json_escape(tail));
        if c == '"' || c == '\\' {
            assert(escape_char(c) =~= seq!['\\', c]);
            assert(t.len() == json_escape(name).len() + 1 + rest.len());
            assert(json_escape(name).len() == 2 + json_escape(tail).len());
            assert(t[0] == '\\');
            assert(t[1] == c);
            assert(t.skip(2) =~= json_escape(tail) + (seq!['"'] + rest));
            assert(seq![t[1]] + tail =~= name);
        } else {
            assert(escape_char(c) =~= seq![c]);
            assert(json_escape(name).len() == 1 + json_escape(tail).len());
            assert(t[0] == c);
            assert(t.skip(1) =~= json_escape(tail) + (seq!['"'] + rest));
            assert(seq![t[0]] + tail =~= name);
        }
    }
}

/// Whitespace, then a quoted escaped string, reads back as its contents.
proof fn lemma_str_tok_exact(t: Seq<char>, w: Seq<char>, name: Seq<char>, rest: Seq<char>)
    requires
        t == w + (seq!['"'] + (json_escape(name) + (seq!['"'] + rest))),
        forall|k: int| 0 <= k < w.len() ==> is_ws(#[trigger] w[k]),
    ensures
        spec_str_tok(t) == Some((name, rest)),
{
    let u = seq!['"'] + (json_escape(name) + (seq!['"'] + rest));
    assert(u[0] == '"');
    assert(!is_ws(u[0]));
    lemma_skip_ws_exact(w, u);
    assert(t.skip(w.len() as int) =~= u);
    assert(u.skip(1) =~= json_escape(name) + (seq!['"'] + rest));
    lemma_str_body_escape(name, rest);
    assert(u.skip(1 + (json_escape(name).len() + 1) as int) =~= rest);
}

/// Law: the JSON round trip loses nothing. Every configuration record,
/// rendered as its canonical JSON text by [`spec_config_json`] and read
/// back by [`spec_config_from_json`], comes back unchanged.
#[verifier::rlimit(100)]
pub proof fn lemma_config_json_round_trip(c: ConfigV)
    ensures
        spec_config_from_json(spec_config_json(c)) == Some(c),
{
    reveal_strlit("{\n  \"port_name\": \"");
    reveal_strlit("\",\n  \"baud_rate\": ");
    reveal_strlit(",\n  \"slave_id\": ");
    reveal_strlit(",\n  \"timeout\": ");
    reveal_strlit("\n}");
    reveal_strlit("{");
    reveal_strlit("\n  ");
    reveal_strlit("\"port_name\"");
    reveal_strlit("\"baud_rate\"");
    reveal_strlit("\"slave_id\"");
    reveal_strlit("\"timeout\"");
    reveal_strlit(":");
    reveal_strlit(" ");
    reveal_strlit(",");
    reveal_strlit("\n");
    reveal_strlit("}");
    let ws3 = "\n  "@;
    let ws1 = " "@;
    let nl = "\n"@;
    let q = seq!['"'];
    let empty = Seq::<char>::empty();
    assert(is_ws(ws3[0]) && is_ws(ws3[1]) && is_ws(ws3[2]));
    assert forall|k: int| 0 <= k < ws3.len() implies is_ws(#[trigger] ws3[k]) by {
        if k == 0 {
        } else if k == 1 {
        } else {
            assert(k == 2);
        }
    }
    assert(is_ws(ws1[0]));
    assert(is_ws(nl[0]));
    let e = json_escape(c.port_name);
    let b = dec_digits(c.baud_rate as nat);
    let sl = dec_digits(c.slave_id as nat);
    let tm = dec_digits(c.timeout as nat);
    // The canonical text, re-chunked token by token, innermost suffix first.
    let s16 = nl + ("}"@ + empty);
    let s15 = tm + s16;
    let s14 = ws1 + s15;
    let s13 = ":"@ + s14;
    let s12 = "\"timeout\""@ + s13;
    let s11 = ws3 + s12;
    let s10 = ","@ + s11;
    let s9 = sl + s10;
    let s8 = ws1 + s9;
    let s7 = ":"@ + s8;
    let s6 = "\"slave_id\""@ + s7;
    let s5 = ws3 + s6;
    let s4 = ","@ + s5;
    let s3 = b + s4;
    let s2c = ws1 + s3;
    let s2b = ":"@ + s2c;
    let s2a = "\"baud_rate\""@ + s2b;
    let s1e = ws3 + s2a;
    let s1d = ","@ + s1e;
    let s1c = q + s1d;
    let s1b = e + s1c;
    let s1a = q + s1b;
    let s0e = ws1 + s1a;
    let s0d = ":"@ + s0e;
    let s0c = "\"port_name\""@ + s0d;
    let s0b = ws3 + s0c;
    let s0a = "{"@ + s0b;
    let t0 = spec_config_json(c);
    assert(t0 =~= "{\n  \"port_name\": \""@ + (e + ("\",\n  \"baud_rate\": "@ + (b + (
    ",\n  \"slave_id\": "@ + (sl + (",\n  \"timeout\": "@ + (tm + "\n}"@))))))));
    assert("\n}"@ =~= s16);
    assert(",\n  \"timeout\": "@ + s15 =~= s10);
    assert(",\n  \"slave_id\": "@ + s9 =~= s4);
    assert("\",\n  \"baud_rate\": "@ + s3 =~= s1c);
    assert("{\n  \"port_name\": \""@ + s1b =~= s0a);
    assert(t0 == s0a);
    // Walk the parse down the same chunks.
    assert(s0a =~= empty + "{"@ + s0b);
    lemma_tok_exact(s0a, empty, "{"@, s0b);
    assert(s0b =~= ws3 + "\"port_name\""@ + s0d);
    lemma_tok_exact(s0b, ws3, "\"port_name\""@, s0d);
    assert(s0d =~= empty + ":"@ + s0e);
    lemma_tok_exact(s0d, empty, ":"@, s0e);
    lemma_str_tok_exact(s0e, ws1, c.port_name, s1d);
    assert(s1d =~= empty + ","@ + s1e);
    lemma_tok_exact(s1d, empty, ","@, s1e);
    assert(s1e =~= ws3 + "\"baud_rate\""@ + s2b);
    lemma_tok_exact(s1e, ws3, "\"baud_rate\""@, s2b);
    assert(s2b =~= empty + ":"@ + s2c);
    lemma_tok_exact(s2b, empty, ":"@, s2c);
    assert(s4[0] == ',');
    lemma_num_exact(s2c, ws1, c.baud_rate as nat, s4);
    assert(s4 =~= empty + ","@ + s5);
    lemma_tok_exact(s4, empty, ","@, s5);
    assert(s5 =~= ws3 + "\"slave_id\""@ + s7);
    lemma_tok_exact(s5, ws3, "\"slave_id\""@, s7);
    assert(s7 =~= empty + ":"@ + s8);
    lemma_tok_exact(s7, empty, ":"@, s8);
    assert(s10[0] == ',');
    lemma_num_exact(s8, ws1, c.slave_id as nat, s10);
    assert(s10 =~= empty + ","@ + s11);
    lemma_tok_exact(s10, empty, ","@, s11);
    assert(s11 =~= ws3 + "\"timeout\""@ + s13);
    lemma_tok_exact(s11, ws3, "\"timeout\""@, s13);
    assert(s13 =~= empty + ":"@ + s14);
    lemma_tok_exact(s13, empty, ":"@, s14);
    assert(s16[0] == '\n');
    lemma_num_exact(s14, ws1, c.timeout as nat, s16);
    assert(s16 =~= nl + "}"@ + empty);
    lemma_tok_exact(s16, nl, "}"@, empty);
    assert(spec_skip_ws(empty) == 0);
    assert(empty.skip(0).len() == 0);
    assert(spec_config_from_json(t0) == Some(
        (ConfigV {
            port_name: c.port_name,
            baud_rate: ((c.baud_rate as nat) as u32),
            slave_id: ((c.slave_id as nat) as u8),
            timeout: ((c.timeout as nat) as u64),
        }),
    ));
    assert((ConfigV {
        port_name: c.port_name,
        baud_rate: ((c.baud_rate as nat) as u32),
        slave_id: ((c.slave_id as nat) as u8),
        timeout: ((c.timeout as nat) as u64),
    }) =~= c);
}

/// Reads a configuration record back from JSON text: exactly what
/// [`spec_config_from_json`] accepts, and the record it denotes.
#[verifier::rlimit(50)]
pub fn config_from_json(s: &str) -> (r: Option<ModbusConfig>)
    ensures
        match r {
            Some(config) => spec_config_from_json(s@) == Some(config@),
            None => spec_config_from_json(s@) is None,
        },
{
    let len = s.unicode_len();
    proof {
        assert(s@.skip(0) =~= s@);
    }
    let j1 = match eat_tok(s, len, 0, "{") {
        Some(j) => j,
        None => {
            return None;
        },
    };
    let j2 = match eat_tok(s, len, j1, "\"port_name\"") {
        Some(j) => j,
        None => {
            return None;
        },
    };
    let j3 = match eat_tok(s, len, j2, ":") {
        Some(j) => j,
        None => {
            return None;
        },
    };
    let (port_name, j4) = match eat_str(s, len, j3) {
        Some(pair) => pair,
        None => {
            return None;
        },
    };
    let j5 = match eat_tok(s, len, j4, ",") {
        Some(j) => j,
        None => {
            return None;
        },
    };
    let j6 = match eat_tok(s, len, j5, "\"baud_rate\"") {
        Some(j) => j,
        None => {
            return None;
        },
    };
    let j7 = match eat_tok(s, len, j6, ":") {
        Some(j) => j,
        None => {
            return None;
        },
    };
    let (baud_rate, j8) = match eat_num(s, len, j7) {
        Some(pair) => pair,
        None => {
            return None;
        },
    };
    let j9 = match eat_tok(s, len, j8, ",") {
        Some(j) => j,
        None => {
            return None;
        },
    };
    let j10 = match eat_tok(s, len, j9, "\"slave_id\"") {
        Some(j) => j,
        None => {
            return None;
        },
    };
    let j11 = match eat_tok(s, len, j10, ":") {
        Some(j) => j,
        None => {
            return None;
        },
    };
    let (slave_id, j12) = match eat_num(s, len, j11) {
        Some(pair) => pair,
        None => {
            return None;
        },
    };
    let j13 = match eat_tok(s, len, j12, ",") {
        Some(j) => j,
        None => {
            return None;
        },
    };
    let j14 = match eat_tok(s, len, j13, "\"timeout\"") {
        Some(j) => j,
        None => {
            return None;
        },
    };
    let j15 = match eat_tok(s, len, j14, ":") {
        Some(j) => j,
        None => {
            return None;
        },
    };
    let (timeout, j16) = match eat_num(s, len, j15) {
        Some(pair) => pair,
        None => {
            return None;
        },
    };
    let j17 = match eat_tok(s, len, j16, "}") {
        Some(j) => j,
        None => {
            return None;
        },
    };
    let j18 = skip_ws(s, len, j17);
    proof {
        lemma_skip_ws_bounds(s@.skip(j17 as int));
        assert(s@.skip(j17 as int).skip(spec_skip_ws(s@.skip(j17 as int))) =~= s@.skip(
            j18 as int,
        ));
    }
    if j18 != len {
        return None;
    }
    if baud_rate > 0xffff_ffff {
        return None;
    }
    if slave_id > 0xff {
        return None;
    }
    let config = ModbusConfig {
        port_name,
        baud_rate: baud_rate as u32,
        slave_id: slave_id as u8,
        timeout,
    };
    proof {
        assert(s@.skip(j18 as int).len() == 0);
        assert(spec_config_from_json(s@) == Some(config@));
    }
    Some(config)
}

} // verus!

//! Decoding of wire text into values and response envelopes.
//!
//! The spec functions define, character by character, which texts are
//! accepted and what value each one denotes; each executable parser is proved
//! to return exactly what the spec functions say.  The typed fragment of the
//! grammar — objects of scalars, scalar lists and lists of flat records,
//! with integer numbers of magnitude at most `u64::MAX` — is what the
//! protocol's own fields use; any other well-formed value is consumed as an
//! opaque foreign value, so an unknown field never makes a response
//! undecodable.  Whitespace between tokens is accepted throughout.

use vstd::prelude::*;
use crate::json::{Entry, EntryV, FieldVal, FieldValV, Payload, PayloadV, Prim, PrimV, Rec, RecV};
use crate::text::push_char;

verus! {

/// Whitespace between tokens.
pub open spec fn ws(c: char) -> bool {
    c == ' ' || c == '\n' || c == '\t' || c == '\r'
}

/// How many whitespace characters stand at `i`.
pub open spec fn ws_len(s: Seq<char>, i: int) -> nat
    decreases s.len() - i,
{
    if 0 <= i && i < s.len() && ws(s[i]) {
        1 + ws_len(s, i + 1)
    } else {
        0
    }
}

/// The position of the first non-whitespace character at or after `i`,
/// clamped to the end of the text.
pub open spec fn sk(s: Seq<char>, i: int) -> int {
    if i + ws_len(s, i) > s.len() {
        s.len() as int
    } else {
        i + ws_len(s, i)
    }
}

/// A parse position clamped into `lo ..= s.len()`; the identity wherever a
/// parser actually lands.
pub open spec fn clamp(s: Seq<char>, j: int, lo: int) -> int {
    if j < lo {
        lo
    } else if j > s.len() {
        s.len() as int
    } else {
        j
    }
}

pub open spec fn is_digit(c: char) -> bool {
    0x30 <= c as int <= 0x39
}

pub open spec fn dval(c: char) -> int {
    c as int - 0x30
}

/// The value of one hexadecimal digit, either case, if the character is one.
pub open spec fn hval(c: char) -> Option<int> {
    if 0x30 <= c as int <= 0x39 {
        Some(c as int - 0x30)
    } else if 0x61 <= c as int <= 0x66 {
        Some(c as int - 0x57)
    } else if 0x41 <= c as int <= 0x46 {
        Some(c as int - 0x37)
    } else {
        None
    }
}

/// Consumes decimal digits after `i`, extending the already-read value
/// `acc`; fails once the value would exceed the wire bound.
pub open spec fn p_num_tail(s: Seq<char>, i: int, acc: int) -> Option<(int, int)>
    decreases s.len() - i,
{
    if 0 <= i && i < s.len() && is_digit(s[i]) {
        let acc2 = acc * 10 + dval(s[i]);
        if acc2 > 0xffff_ffff_ffff_ffff {
            None
        } else {
            p_num_tail(s, i + 1, acc2)
        }
    } else {
        Some((acc, i))
    }
}

/// A wire integer at `i`: an optional minus sign and at least one digit, not
/// followed by a fraction or exponent.
pub open spec fn p_int(s: Seq<char>, i: int) -> Option<(int, int)> {
    let neg = 0 <= i && i < s.len() && s[i] == '-';
    let j = if neg {
        i + 1
    } else {
        i
    };
    if 0 <= j && j < s.len() && is_digit(s[j]) {
        match p_num_tail(s, j, 0) {
            Some((v, k)) => if k < s.len() && (s[k] == '.' || s[k] == 'e' || s[k] == 'E') {
                None
            } else {
                Some(
                    (
                        if neg {
                            -v
                        } else {
                            v
                        },
                        k,
                    ),
                )
            },
            None => None,
        }
    } else {
        None
    }
}

/// The body of a quoted string starting after the opening quote: plain
/// characters and escapes up to the closing quote.  Control characters must
/// be escaped; `\uXXXX` denotes any scalar code point outside the surrogate
/// range (an astral character travels as its own raw character).
pub open spec fn p_str_body(s: Seq<char>, i: int, acc: Seq<char>) -> Option<(Seq<char>, int)>
    decreases s.len() - i,
{
    if !(0 <= i && i < s.len()) {
        None
    } else if s[i] == '"' {
        Some((acc, i + 1))
    } else if s[i] == '\\' {
        if i + 1 >= s.len() {
            None
        } else if s[i + 1] == '"' {
            p_str_body(s, i + 2, acc + seq!['"'])
        } else if s[i + 1] == '\\' {
            p_str_body(s, i + 2, acc + seq!['\\'])
        } else if s[i + 1] == '/' {
            p_str_body(s, i + 2, acc + seq!['/'])
        } else if s[i + 1] == 'n' {
            p_str_body(s, i + 2, acc + seq!['\n'])
        } else if s[i + 1] == 't' {
            p_str_body(s, i + 2, acc + seq!['\t'])
        } else if s[i + 1] == 'r' {
            p_str_body(s, i + 2, acc + seq!['\r'])
        } else if s[i + 1] == 'b' {
            p_str_body(s, i + 2, acc + seq![(8u8) as char])
        } else if s[i + 1] == 'f' {
            p_str_body(s, i + 2, acc + seq![(12u8) as char])
        } else if s[i + 1] == 'u' {
            if i + 6 <= s.len() && hval(s[i + 2]) is Some && hval(s[i + 3]) is Some && hval(
                s[i + 4],
            ) is Some && hval(s[i + 5]) is Some {
                let code = hval(s[i + 2])->Some_0 * 4096 + hval(s[i + 3])->Some_0 * 256 + hval(
                    s[i + 4],
                )->Some_0 * 16 + hval(s[i + 5])->Some_0;
                if 0xd800 <= code <= 0xdfff {
                    None
                } else {
                    p_str_body(s, i + 6, acc + seq![(code as u32) as char])
                }
            } else {
                None
            }
        } else {
            None
        }
    } else if (s[i] as int) < 0x20 {
        None
    } else {
        p_str_body(s, i + 1, acc + seq![s[i]])
    }
}

/// A quoted string at `i`.
pub open spec fn p_str(s: Seq<char>, i: int) -> Option<(Seq<char>, int)> {
    if 0 <= i && i < s.len() && s[i] == '"' {
        p_str_body(s, i + 1, Seq::empty())
    } else {
        None
    }
}

/// A scalar at `i`.
pub open spec fn p_prim(s: Seq<char>, i: int) -> Option<(PrimV, int)> {
    if !(0 <= i && i < s.len()) {
        None
    } else if s[i] == '"' {
        match p_str(s, i) {
            Some((v, j)) => Some((PrimV::Str(v), j)),
            None => None,
        }
    } else if s[i] == 'n' {
        if i + 4 <= s.len() && s[i + 1] == 'u' && s[i + 2] == 'l' && s[i + 3] == 'l' {
            Some((PrimV::Null, i + 4))
        } else {
            None
        }
    } else if s[i] == 't' {
        if i + 4 <= s.len() && s[i + 1] == 'r' && s[i + 2] == 'u' && s[i + 3] == 'e' {
            Some((PrimV::Bool(true), i + 4))
        } else {
            None
        }
    } else if s[i] == 'f' {
        if i + 5 <= s.len() && s[i + 1] == 'a' && s[i + 2] == 'l' && s[i + 3] == 's' && s[i + 4]
            == 'e' {
            Some((PrimV::Bool(false), i + 5))
        } else {
            None
        }
    } else {
        match p_int(s, i) {
            Some((v, j)) => Some((PrimV::Int(v), j)),
            None => None,
        }
    }
}

/// Comma-separated scalars up to a closing bracket, starting at the first
/// scalar.
pub open spec fn p_prims_tail(s: Seq<char>, i: int, acc: Seq<PrimV>) -> Option<(Seq<PrimV>, int)>
    decreases s.len() - i,
{
    match p_prim(s, i) {
        None => None,
        Some((v, jr)) => {
            let j = clamp(s, jr, i + 1);
            let k = sk(s, j);
            if k < s.len() && s[k] == ',' {
                let m = sk(s, k + 1);
                p_prims_tail(s, m, acc.push(v))
            } else if k < s.len() && s[k] == ']' {
                Some((acc.push(v), k + 1))
            } else {
                None
            }
        },
    }
}

/// A scalar list at `i`, brackets included.
pub open spec fn p_prim_list(s: Seq<char>, i: int) -> Option<(Seq<PrimV>, int)> {
    if 0 <= i && i < s.len() && s[i] == '[' {
        let j = sk(s, i + 1);
        if j < s.len() && s[j] == ']' {
            Some((Seq::empty(), j + 1))
        } else {
            p_prims_tail(s, j, Seq::empty())
        }
    } else {
        None
    }
}


/// How many decimal digits stand at `i`.
pub open spec fn dig_len(s: Seq<char>, i: int) -> nat
    decreases s.len() - i,
{
    if 0 <= i && i < s.len() && is_digit(s[i]) {
        1 + dig_len(s, i + 1)
    } else {
        0
    }
}

/// The position after the digit run at `i`, clamped to the end of the text.
pub open spec fn dig_end(s: Seq<char>, i: int) -> int {
    if i + dig_len(s, i) > s.len() {
        s.len() as int
    } else {
        i + dig_len(s, i)
    }
}

/// Skips the fraction part of a foreign number, if one stands at `k`.
pub open spec fn p_skip_frac(s: Seq<char>, k: int) -> Option<int> {
    if 0 <= k && k < s.len() && s[k] == '.' {
        if k + 1 < s.len() && is_digit(s[k + 1]) {
            Some(dig_end(s, k + 1))
        } else {
            None
        }
    } else {
        Some(k)
    }
}

/// Skips the exponent part of a foreign number, if one stands at `k`.
pub open spec fn p_skip_exp(s: Seq<char>, k: int) -> Option<int> {
    if 0 <= k && k < s.len() && (s[k] == 'e' || s[k] == 'E') {
        let j = if k + 1 < s.len() && (s[k + 1] == '+' || s[k + 1] == '-') {
            k + 2
        } else {
            k + 1
        };
        if j < s.len() && is_digit(s[j]) {
            Some(dig_end(s, j))
        } else {
            None
        }
    } else {
        Some(k)
    }
}

/// Skips a foreign number at `i`: sign, digits, optional fraction and
/// exponent.  No value is kept, so numbers of any size and precision pass.
pub open spec fn p_skip_num(s: Seq<char>, i: int) -> Option<int> {
    let j = if 0 <= i && i < s.len() && s[i] == '-' {
        i + 1
    } else {
        i
    };
    if 0 <= j && j < s.len() && is_digit(s[j]) {
        match p_skip_frac(s, dig_end(s, j)) {
            Some(k) => p_skip_exp(s, k),
            None => None,
        }
    } else {
        None
    }
}

/// Consumes one well-formed wire value of any shape and depth at `i`,
/// keeping only the position after it.  This is what a field outside the
/// protocol's modeled fragment may hold: such a value parses as foreign
/// instead of making the whole response undecodable.
pub open spec fn p_skip(s: Seq<char>, i: int) -> Option<int>
    decreases s.len() - i, 0int,
{
    if !(0 <= i && i < s.len()) {
        None
    } else if s[i] == '{' {
        let j = sk(s, i + 1);
        if j < s.len() && s[j] == '}' {
            Some(j + 1)
        } else {
            p_skip_members(s, j)
        }
    } else if s[i] == '[' {
        let j = sk(s, i + 1);
        if j < s.len() && s[j] == ']' {
            Some(j + 1)
        } else {
            p_skip_elems(s, j)
        }
    } else if s[i] == '"' {
        match p_str(s, i) {
            Some((_, j)) => Some(j),
            None => None,
        }
    } else if s[i] == 'n' {
        if i + 4 <= s.len() && s[i + 1] == 'u' && s[i + 2] == 'l' && s[i + 3] == 'l' {
            Some(i + 4)
        } else {
            None
        }
    } else if s[i] == 't' {
        if i + 4 <= s.len() && s[i + 1] == 'r' && s[i + 2] == 'u' && s[i + 3] == 'e' {
            Some(i + 4)
        } else {
            None
        }
    } else if s[i] == 'f' {
        if i + 5 <= s.len() && s[i + 1] == 'a' && s[i + 2] == 'l' && s[i + 3] == 's' && s[i + 4]
            == 'e' {
            Some(i + 5)
        } else {
            None
        }
    } else {
        p_skip_num(s, i)
    }
}

/// Skips the `"key":value` members of a foreign object, starting at the
/// first key, up to the closing brace.
pub open spec fn p_skip_members(s: Seq<char>, i: int) -> Option<int>
    decreases s.len() - i, 1int,
{
    match p_str(s, i) {
        None => None,
        Some((_, jr)) => {
            let j = clamp(s, jr, i + 1);
            let k = sk(s, j);
            if k < s.len() && s[k] == ':' {
                let m = sk(s, k + 1);
                match p_skip(s, m) {
                    None => None,
                    Some(nr) => {
                        let n2 = clamp(s, nr, m + 1);
                        let q = sk(s, n2);
                        if q < s.len() && s[q] == ',' {
                            let t = sk(s, q + 1);
                            p_skip_members(s, t)
                        } else if q < s.len() && s[q] == '}' {
                            Some(q + 1)
                        } else {
                            None
                        }
                    },
                }
            } else {
                None
            }
        },
    }
}

/// Skips the elements of a foreign list, starting at the first element, up
/// to the closing bracket.
pub open spec fn p_skip_elems(s: Seq<char>, i: int) -> Option<int>
    decreases s.len() - i, 1int,
{
    match p_skip(s, i) {
        None => None,
        Some(jr) => {
            let j = clamp(s, jr, i + 1);
            let k = sk(s, j);
            if k < s.len() && s[k] == ',' {
                let m = sk(s, k + 1);
                p_skip_elems(s, m)
            } else if k < s.len() && s[k] == ']' {
                Some(k + 1)
            } else {
                None
            }
        },
    }
}

/// A record field's value at `i`: a scalar, a scalar list, or — for any
/// other well-formed wire value — a foreign value, carried opaquely.
pub open spec fn p_entry(s: Seq<char>, i: int) -> Option<(EntryV, int)> {
    let primary = if 0 <= i && i < s.len() && s[i] == '[' {
        match p_prim_list(s, i) {
            Some((v, j)) => Some((EntryV::List(v), j)),
            None => None,
        }
    } else {
        match p_prim(s, i) {
            Some((v, j)) => Some((EntryV::Single(v), j)),
            None => None,
        }
    };
    if primary is Some {
        primary
    } else {
        match p_skip(s, i) {
            Some(j) => Some((EntryV::Foreign, j)),
            None => None,
        }
    }
}

/// Comma-separated `"key":value` record fields up to the closing brace,
/// starting at the first key.
pub open spec fn p_rec_fields_tail(s: Seq<char>, i: int, acc: Seq<(Seq<char>, EntryV)>) -> Option<
    (Seq<(Seq<char>, EntryV)>, int),
>
    decreases s.len() - i,
{
    match p_str(s, i) {
        None => None,
        Some((key, jr)) => {
            let j = clamp(s, jr, i + 1);
            let k = sk(s, j);
            if k < s.len() && s[k] == ':' {
                let m = sk(s, k + 1);
                match p_entry(s, m) {
                    None => None,
                    Some((v, nr)) => {
                        let n2 = clamp(s, nr, m + 1);
                        let q = sk(s, n2);
                        if q < s.len() && s[q] == ',' {
                            let t = sk(s, q + 1);
                            p_rec_fields_tail(s, t, acc.push((key, v)))
                        } else if q < s.len() && s[q] == '}' {
                            Some((acc.push((key, v)), q + 1))
                        } else {
                            None
                        }
                    },
                }
            } else {
                None
            }
        },
    }
}

/// A record at `i`, braces included.
pub open spec fn p_rec(s: Seq<char>, i: int) -> Option<(RecV, int)> {
    if 0 <= i && i < s.len() && s[i] == '{' {
        let j = sk(s, i + 1);
        if j < s.len() && s[j] == '}' {
            Some((RecV { fields: Seq::empty() }, j + 1))
        } else {
            match p_rec_fields_tail(s, j, Seq::empty()) {
                Some((fs, p)) => Some((RecV { fields: fs }, p)),
                None => None,
            }
        }
    } else {
        None
    }
}

/// Comma-separated records up to a closing bracket, starting at the first
/// record.
pub open spec fn p_recs_tail(s: Seq<char>, i: int, acc: Seq<RecV>) -> Option<(Seq<RecV>, int)>
    decreases s.len() - i,
{
    match p_rec(s, i) {
        None => None,
        Some((v, jr)) => {
            let j = clamp(s, jr, i + 1);
            let k = sk(s, j);
            if k < s.len() && s[k] == ',' {
                let m = sk(s, k + 1);
                p_recs_tail(s, m, acc.push(v))
            } else if k < s.len() && s[k] == ']' {
                Some((acc.push(v), k + 1))
            } else {
                None
            }
        },
    }
}

/// A payload field's value at `i`: a scalar, a scalar list, a record list,
/// or — for any other well-formed wire value — a foreign value, carried
/// opaquely so that an unknown field never fails the decode.
pub open spec fn p_fieldval(s: Seq<char>, i: int) -> Option<(FieldValV, int)> {
    let primary = if !(0 <= i && i < s.len()) {
        None
    } else if s[i] == '[' {
        let j = sk(s, i + 1);
        if j < s.len() && s[j] == ']' {
            Some((FieldValV::Items(Seq::empty()), j + 1))
        } else if j < s.len() && s[j] == '{' {
            match p_recs_tail(s, j, Seq::empty()) {
                Some((v, p)) => Some((FieldValV::Records(v), p)),
                None => None,
            }
        } else {
            match p_prims_tail(s, j, Seq::empty()) {
                Some((v, p)) => Some((FieldValV::Items(v), p)),
                None => None,
            }
        }
    } else {
        match p_prim(s, i) {
            Some((v, j)) => Some((FieldValV::Single(v), j)),
            None => None,
        }
    };
    if primary is Some {
        primary
    } else {
        match p_skip(s, i) {
            Some(j) => Some((FieldValV::Foreign, j)),
            None => None,
        }
    }
}

/// Comma-separated `"key":value` payload fields up to the closing brace,
/// starting at the first key.
pub open spec fn p_payload_fields_tail(
    s: Seq<char>,
    i: int,
    acc: Seq<(Seq<char>, FieldValV)>,
) -> Option<(Seq<(Seq<char>, FieldValV)>, int)>
    decreases s.len() - i,
{
    match p_str(s, i) {
        None => None,
        Some((key, jr)) => {
            let j = clamp(s, jr, i + 1);
            let k = sk(s, j);
            if k < s.len() && s[k] == ':' {
                let m = sk(s, k + 1);
                match p_fieldval(s, m) {
                    None => None,
                    Some((v, nr)) => {
                        let n2 = clamp(s, nr, m + 1);
                        let q = sk(s, n2);
                        if q < s.len() && s[q] == ',' {
                            let t = sk(s, q + 1);
                            p_payload_fields_tail(s, t, acc.push((key, v)))
                        } else if q < s.len() && s[q] == '}' {
                            Some((acc.push((key, v)), q + 1))
                        } else {
                            None
                        }
                    },
                }
            } else {
                None
            }
        },
    }
}

/// A payload object at `i`, braces included.
pub open spec fn p_payload(s: Seq<char>, i: int) -> Option<(PayloadV, int)> {
    if 0 <= i && i < s.len() && s[i] == '{' {
        let j = sk(s, i + 1);
        if j < s.len() && s[j] == '}' {
            Some((PayloadV { fields: Seq::empty() }, j + 1))
        } else {
            match p_payload_fields_tail(s, j, Seq::empty()) {
                Some((fs, p)) => Some((PayloadV { fields: fs }, p)),
                None => None,
            }
        }
    } else {
        None
    }
}

/// The model of one field value of the response envelope itself: a scalar,
/// a payload object (`result`, `error`), or a foreign value an unknown
/// envelope field may hold.
pub enum TopValV {
    P(PrimV),
    O(PayloadV),
    Foreign,
}

/// An envelope field's value at `i`.
pub open spec fn p_topval(s: Seq<char>, i: int) -> Option<(TopValV, int)> {
    let primary = if 0 <= i && i < s.len() && s[i] == '{' {
        match p_payload(s, i) {
            Some((v, j)) => Some((TopValV::O(v), j)),
            None => None,
        }
    } else {
        match p_prim(s, i) {
            Some((v, j)) => Some((TopValV::P(v), j)),
            None => None,
        }
    };
    if primary is Some {
        primary
    } else {
        match p_skip(s, i) {
            Some(j) => Some((TopValV::Foreign, j)),
            None => None,
        }
    }
}

/// Comma-separated `"key":value` envelope fields up to the closing brace,
/// starting at the first key.
pub open spec fn p_top_fields_tail(s: Seq<char>, i: int, acc: Seq<(Seq<char>, TopValV)>) -> Option<
    (Seq<(Seq<char>, TopValV)>, int),
>
    decreases s.len() - i,
{
    match p_str(s, i) {
        None => None,
        Some((key, jr)) => {
            let j = clamp(s, jr, i + 1);
            let k = sk(s, j);
            if k < s.len() && s[k] == ':' {
                let m = sk(s, k + 1);
                match p_topval(s, m) {
                    None => None,
                    Some((v, nr)) => {
                        let n2 = clamp(s, nr, m + 1);
                        let q = sk(s, n2);
                        if q < s.len() && s[q] == ',' {
                            let t = sk(s, q + 1);
                            p_top_fields_tail(s, t, acc.push((key, v)))
                        } else if q < s.len() && s[q] == '}' {
                            Some((acc.push((key, v)), q + 1))
                        } else {
                            None
                        }
                    },
                }
            } else {
                None
            }
        },
    }
}

/// The envelope object at `i`, braces included.
pub open spec fn p_top(s: Seq<char>, i: int) -> Option<(Seq<(Seq<char>, TopValV)>, int)> {
    if 0 <= i && i < s.len() && s[i] == '{' {
        let j = sk(s, i + 1);
        if j < s.len() && s[j] == '}' {
            Some((Seq::empty(), j + 1))
        } else {
            p_top_fields_tail(s, j, Seq::empty())
        }
    } else {
        None
    }
}

/// A whole response text: one envelope object and nothing but whitespace
/// around it.
pub open spec fn p_text(s: Seq<char>) -> Option<Seq<(Seq<char>, TopValV)>> {
    match p_top(s, sk(s, 0)) {
        Some((fs, j)) => if sk(s, j) == s.len() {
            Some(fs)
        } else {
            None
        },
        None => None,
    }
}

} // verus!

// The executable parser: each function returns exactly what the spec
// grammar above says, over the view of its input.

verus! {

/// An envelope field's value, as parsed.
#[derive(Clone, Debug)]
pub enum TopVal {
    P(Prim),
    O(Payload),
    Foreign,
}

impl View for TopVal {
    type V = TopValV;

    open spec fn view(&self) -> TopValV {
        match self {
            TopVal::P(p) => TopValV::P(p@),
            TopVal::O(o) => TopValV::O(o@),
            TopVal::Foreign => TopValV::Foreign,
        }
    }
}

/// A character's code point is unchanged by the widening cast to `u32`.
proof fn lemma_char_cast(c: char)
    ensures
        (c as u32) as int == c as int,
{
}

fn is_ws(c: char) -> (r: bool)
    ensures
        r == ws(c),
{
    c == ' ' || c == '\n' || c == '\t' || c == '\r'
}

/// The first non-whitespace position at or after `i`.
pub fn skip_ws(s: &Vec<char>, i: usize) -> (j: usize)
    requires
        i <= s@.len(),
    ensures
        j as int == sk(s@, i as int),
        i <= j <= s@.len(),
{
    let mut j = i;
    while j < s.len() && is_ws(s[j])
        invariant
            i <= j <= s@.len(),
            i + ws_len(s@, i as int) == j + ws_len(s@, j as int),
        decreases s@.len() - j,
    {
        j = j + 1;
    }
    proof {
        assert(ws_len(s@, j as int) == 0);
    }
    j
}

fn hexv(c: char) -> (r: Option<u8>)
    ensures
        match r {
            Some(v) => hval(c) == Some(v as int),
            None => hval(c) is None,
        },
{
    proof {
        lemma_char_cast(c);
    }
    let u = c as u32;
    if 0x30 <= u && u <= 0x39 {
        Some((u - 0x30) as u8)
    } else if 0x61 <= u && u <= 0x66 {
        Some((u - 0x57) as u8)
    } else if 0x41 <= u && u <= 0x46 {
        Some((u - 0x37) as u8)
    } else {
        None
    }
}

fn num_tail(s: &Vec<char>, i: usize, acc: u64) -> (r: Option<(u64, usize)>)
    requires
        i <= s@.len(),
    ensures
        match r {
            Some((v, j)) => p_num_tail(s@, i as int, acc as int) == Some((v as int, j as int))
                && i <= j <= s@.len(),
            None => p_num_tail(s@, i as int, acc as int) is None,
        },
    decreases s@.len() - i,
{
    if i < s.len() {
        let c = s[i];
        let u = c as u32;
        if 0x30 <= u && u <= 0x39 {
            let d = (u - 0x30) as u64;
            proof {
                lemma_char_cast(c);
                assert(is_digit(s@[i as int]));
                assert(d as int == dval(s@[i as int]));
            }
            let wide: u128 = acc as u128 * 10 + d as u128;
            proof {
                assert(wide as int == acc as int * 10 + dval(s@[i as int]));
            }
            if wide > 0xffff_ffff_ffff_ffffu128 {
                proof {
                    assert(p_num_tail(s@, i as int, acc as int) is None);
                }
                return None;
            }
            return num_tail(s, i + 1, wide as u64);
        }
    }
    Some((acc, i))
}

fn pint(s: &Vec<char>, i: usize) -> (r: Option<(i128, usize)>)
    requires
        i <= s@.len(),
    ensures
        match r {
            Some((v, j)) => p_int(s@, i as int) == Some((v as int, j as int)) && i < j <= s@.len(),
            None => p_int(s@, i as int) is None,
        },
{
    let neg = i < s.len() && s[i] == '-';
    let j = if neg {
        i + 1
    } else {
        i
    };
    if j < s.len() {
        let cj = s[j];
        let u = cj as u32;
        if 0x30 <= u && u <= 0x39 {
            proof {
                lemma_char_cast(cj);
                assert(is_digit(s@[j as int]));
            }
            match num_tail(s, j, 0) {
                Some((v, k)) => {
                    if k < s.len() && (s[k] == '.' || s[k] == 'e' || s[k] == 'E') {
                        return None;
                    }
                    let value: i128 = if neg {
                        -(v as i128)
                    } else {
                        v as i128
                    };
                    proof {
                        num_tail_progress(s@, j as int, 0);
                    }
                    return Some((value, k));
                },
                None => {
                    return None;
                },
            }
        }
    }
    None
}

fn str_body(s: &Vec<char>, i: usize, acc: String) -> (r: Option<(String, usize)>)
    requires
        i <= s@.len(),
    ensures
        match r {
            Some((v, j)) => p_str_body(s@, i as int, acc@) == Some((v@, j as int)) && i < j
                <= s@.len(),
            None => p_str_body(s@, i as int, acc@) is None,
        },
    decreases s@.len() - i,
{
    if i >= s.len() {
        return None;
    }
    let c = s[i];
    proof {
        lemma_char_cast(c);
    }
    if c == '"' {
        return Some((acc, i + 1));
    }
    if c == '\\' {
        if s.len() - i < 2 {
            return None;
        }
        let e = s[i + 1];
        if e == '"' || e == '\\' || e == '/' {
            let mut acc2 = acc;
            push_char(&mut acc2, e);
            return str_body(s, i + 2, acc2);
        }
        if e == 'n' {
            let mut acc2 = acc;
            push_char(&mut acc2, '\n');
            return str_body(s, i + 2, acc2);
        }
        if e == 't' {
            let mut acc2 = acc;
            push_char(&mut acc2, '\t');
            return str_body(s, i + 2, acc2);
        }
        if e == 'r' {
            let mut acc2 = acc;
            push_char(&mut acc2, '\r');
            return str_body(s, i + 2, acc2);
        }
        if e == 'b' {
            let mut acc2 = acc;
            push_char(&mut acc2, 8u8 as char);
            return str_body(s, i + 2, acc2);
        }
        if e == 'f' {
            let mut acc2 = acc;
            push_char(&mut acc2, 12u8 as char);
            return str_body(s, i + 2, acc2);
        }
        if e == 'u' {
            if s.len() - i >= 6 {
                match (hexv(s[i + 2]), hexv(s[i + 3]), hexv(s[i + 4]), hexv(s[i + 5])) {
                    (Some(h1), Some(h2), Some(h3), Some(h4)) => {
                        let code: u32 = h1 as u32 * 4096 + h2 as u32 * 256 + h3 as u32 * 16
                            + h4 as u32;
                        if 0xd800 <= code && code <= 0xdfff {
                            return None;
                        }
                        let mut acc2 = acc;
                        push_char(&mut acc2, crate::text::char_of_code(code));
                        return str_body(s, i + 6, acc2);
                    },
                    _ => {
                        return None;
                    },
                }
            }
            return None;
        }
        return None;
    }
    if (c as u32) < 0x20 {
        return None;
    }
    let mut acc2 = acc;
    push_char(&mut acc2, c);
    str_body(s, i + 1, acc2)
}

fn pstr(s: &Vec<char>, i: usize) -> (r: Option<(String, usize)>)
    requires
        i <= s@.len(),
    ensures
        match r {
            Some((v, j)) => p_str(s@, i as int) == Some((v@, j as int)) && i < j <= s@.len(),
            None => p_str(s@, i as int) is None,
        },
{
    if i < s.len() && s[i] == '"' {
        str_body(s, i + 1, String::new())
    } else {
        None
    }
}

fn prim(s: &Vec<char>, i: usize) -> (r: Option<(Prim, usize)>)
    requires
        i <= s@.len(),
    ensures
        match r {
            Some((v, j)) => p_prim(s@, i as int) == Some((v@, j as int)) && i < j <= s@.len(),
            None => p_prim(s@, i as int) is None,
        },
{
    if i >= s.len() {
        return None;
    }
    let c = s[i];
    if c == '"' {
        match pstr(s, i) {
            Some((v, j)) => Some((Prim::Str(v), j)),
            None => None,
        }
    } else if c == 'n' {
        if s.len() - i >= 4 && s[i + 1] == 'u' && s[i + 2] == 'l' && s[i + 3] == 'l' {
            Some((Prim::Null, i + 4))
        } else {
            None
        }
    } else if c == 't' {
        if s.len() - i >= 4 && s[i + 1] == 'r' && s[i + 2] == 'u' && s[i + 3] == 'e' {
            Some((Prim::Bool(true), i + 4))
        } else {
            None
        }
    } else if c == 'f' {
        if s.len() - i >= 5 && s[i + 1] == 'a' && s[i + 2] == 'l' && s[i + 3] == 's' && s[i + 4]
            == 'e' {
            Some((Prim::Bool(false), i + 5))
        } else {
            None
        }
    } else {
        match pint(s, i) {
            Some((v, j)) => Some((Prim::Int(v), j)),
            None => None,
        }
    }
}

fn prims_tail(s: &Vec<char>, i: usize, acc: Vec<Prim>) -> (r: Option<(Vec<Prim>, usize)>)
    requires
        i <= s@.len(),
    ensures
        match r {
            Some((v, j)) => p_prims_tail(s@, i as int, acc@.map_values(|p: Prim| p@)) == Some(
                (v@.map_values(|p: Prim| p@), j as int),
            ) && i < j <= s@.len(),
            None => p_prims_tail(s@, i as int, acc@.map_values(|p: Prim| p@)) is None,
        },
    decreases s@.len() - i,
{
    let ghost accv = acc@.map_values(|p: Prim| p@);
    match prim(s, i) {
        None => None,
        Some((v, j)) => {
            proof {
                assert(clamp(s@, j as int, i as int + 1) == j as int);
            }
            let k = skip_ws(s, j);
            let mut acc2 = acc;
            acc2.push(v);
            proof {
                assert(acc2@.map_values(|p: Prim| p@) =~= accv.push(v@));
            }
            if k < s.len() && s[k] == ',' {
                let m = skip_ws(s, k + 1);
                prims_tail(s, m, acc2)
            } else if k < s.len() && s[k] == ']' {
                Some((acc2, k + 1))
            } else {
                None
            }
        },
    }
}

fn prim_list(s: &Vec<char>, i: usize) -> (r: Option<(Vec<Prim>, usize)>)
    requires
        i <= s@.len(),
    ensures
        match r {
            Some((v, j)) => p_prim_list(s@, i as int) == Some(
                (v@.map_values(|p: Prim| p@), j as int),
            ) && i < j <= s@.len(),
            None => p_prim_list(s@, i as int) is None,
        },
{
    if i < s.len() && s[i] == '[' {
        let j = skip_ws(s, i + 1);
        if j < s.len() && s[j] == ']' {
            let out: Vec<Prim> = Vec::new();
            proof {
                assert(out@.map_values(|p: Prim| p@) =~= Seq::<PrimV>::empty());
            }
            Some((out, j + 1))
        } else {
            let acc: Vec<Prim> = Vec::new();
            proof {
                assert(acc@.map_values(|p: Prim| p@) =~= Seq::<PrimV>::empty());
            }
            prims_tail(s, j, acc)
        }
    } else {
        None
    }
}

fn digitp(c: char) -> (r: bool)
    ensures
        r == is_digit(c),
{
    proof {
        lemma_char_cast(c);
    }
    let u = c as u32;
    0x30 <= u && u <= 0x39
}

/// The position after the digit run at `i`.
fn digits_end(s: &Vec<char>, i: usize) -> (j: usize)
    requires
        i <= s@.len(),
    ensures
        j as int == dig_end(s@, i as int),
        i <= j <= s@.len(),
{
    let mut j = i;
    while j < s.len() && digitp(s[j])
        invariant
            i <= j <= s@.len(),
            i + dig_len(s@, i as int) == j + dig_len(s@, j as int),
        decreases s@.len() - j,
    {
        j = j + 1;
    }
    proof {
        assert(dig_len(s@, j as int) == 0);
    }
    j
}

fn skip_num(s: &Vec<char>, i: usize) -> (r: Option<usize>)
    requires
        i <= s@.len(),
    ensures
        match r {
            Some(j) => p_skip_num(s@, i as int) == Some(j as int) && i < j <= s@.len(),
            None => p_skip_num(s@, i as int) is None,
        },
{
    let neg = i < s.len() && s[i] == '-';
    let j = if neg {
        i + 1
    } else {
        i
    };
    if j >= s.len() || !digitp(s[j]) {
        return None;
    }
    let k0 = digits_end(s, j);
    proof {
        assert(dig_len(s@, j as int) >= 1);
    }
    let k1: usize;
    if k0 < s.len() && s[k0] == '.' {
        if k0 + 1 < s.len() && digitp(s[k0 + 1]) {
            k1 = digits_end(s, k0 + 1);
        } else {
            return None;
        }
    } else {
        k1 = k0;
    }
    let k2: usize;
    if k1 < s.len() && (s[k1] == 'e' || s[k1] == 'E') {
        let j2 = if k1 + 1 < s.len() && (s[k1 + 1] == '+' || s[k1 + 1] == '-') {
            k1 + 2
        } else {
            k1 + 1
        };
        if j2 < s.len() && digitp(s[j2]) {
            k2 = digits_end(s, j2);
        } else {
            return None;
        }
    } else {
        k2 = k1;
    }
    Some(k2)
}

fn skip_val(s: &Vec<char>, i: usize) -> (r: Option<usize>)
    requires
        i <= s@.len(),
    ensures
        match r {
            Some(j) => p_skip(s@, i as int) == Some(j as int) && i < j <= s@.len(),
            None => p_skip(s@, i as int) is None,
        },
    decreases s@.len() - i, 0int,
{
    if i >= s.len() {
        return None;
    }
    let c = s[i];
    if c == '{' {
        let j = skip_ws(s, i + 1);
        if j < s.len() && s[j] == '}' {
            Some(j + 1)
        } else {
            skip_members(s, j)
        }
    } else if c == '[' {
        let j = skip_ws(s, i + 1);
        if j < s.len() && s[j] == ']' {
            Some(j + 1)
        } else {
            skip_elems(s, j)
        }
    } else if c == '"' {
        match pstr(s, i) {
            Some((_, j)) => Some(j),
            None => None,
        }
    } else if c == 'n' {
        if s.len() - i >= 4 && s[i + 1] == 'u' && s[i + 2] == 'l' && s[i + 3] == 'l' {
            Some(i + 4)
        } else {
            None
        }
    } else if c == 't' {
        if s.len() - i >= 4 && s[i + 1] == 'r' && s[i + 2] == 'u' && s[i + 3] == 'e' {
            Some(i + 4)
        } else {
            None
        }
    } else if c == 'f' {
        if s.len() - i >= 5 && s[i + 1] == 'a' && s[i + 2] == 'l' && s[i + 3] == 's' && s[i + 4]
            == 'e' {
            Some(i + 5)
        } else {
            None
        }
    } else {
        skip_num(s, i)
    }
}

fn skip_members(s: &Vec<char>, i: usize) -> (r: Option<usize>)
    requires
        i <= s@.len(),
    ensures
        match r {
            Some(j) => p_skip_members(s@, i as int) == Some(j as int) && i < j <= s@.len(),
            None => p_skip_members(s@, i as int) is None,
        },
    decreases s@.len() - i, 1int,
{
    match pstr(s, i) {
        None => None,
        Some((_, j)) => {
            proof {
                assert(clamp(s@, j as int, i as int + 1) == j as int);
            }
            let k = skip_ws(s, j);
            if k < s.len() && s[k] == ':' {
                let m = skip_ws(s, k + 1);
                match skip_val(s, m) {
                    None => None,
                    Some(n) => {
                        proof {
                            assert(clamp(s@, n as int, m as int + 1) == n as int);
                        }
                        let q = skip_ws(s, n);
                        if q < s.len() && s[q] == ',' {
                            let t = skip_ws(s, q + 1);
                            skip_members(s, t)
                        } else if q < s.len() && s[q] == '}' {
                            Some(q + 1)
                        } else {
                            None
                        }
                    },
                }
            } else {
                None
            }
        },
    }
}

fn skip_elems(s: &Vec<char>, i: usize) -> (r: Option<usize>)
    requires
        i <= s@.len(),
    ensures
        match r {
            Some(j) => p_skip_elems(s@, i as int) == Some(j as int) && i < j <= s@.len(),
            None => p_skip_elems(s@, i as int) is None,
        },
    decreases s@.len() - i, 1int,
{
    match skip_val(s, i) {
        None => None,
        Some(j) => {
            proof {
                assert(clamp(s@, j as int, i as int + 1) == j as int);
            }
            let k = skip_ws(s, j);
            if k < s.len() && s[k] == ',' {
                let m = skip_ws(s, k + 1);
                skip_elems(s, m)
            } else if k < s.len() && s[k] == ']' {
                Some(k + 1)
            } else {
                None
            }
        },
    }
}

fn entry(s: &Vec<char>, i: usize) -> (r: Option<(Entry, usize)>)
    requires
        i <= s@.len(),
    ensures
        match r {
            Some((v, j)) => p_entry(s@, i as int) == Some((v@, j as int)) && i < j <= s@.len(),
            None => p_entry(s@, i as int) is None,
        },
{
    let primary: Option<(Entry, usize)> = if i < s.len() && s[i] == '[' {
        match prim_list(s, i) {
            Some((v, j)) => Some((Entry::List(v), j)),
            None => None,
        }
    } else {
        match prim(s, i) {
            Some((v, j)) => Some((Entry::Single(v), j)),
            None => None,
        }
    };
    match primary {
        Some(found) => Some(found),
        None => match skip_val(s, i) {
            Some(j) => Some((Entry::Foreign, j)),
            None => None,
        },
    }
}

fn rec_fields_tail(s: &Vec<char>, i: usize, acc: Vec<(String, Entry)>) -> (r: Option<
    (Vec<(String, Entry)>, usize),
>)
    requires
        i <= s@.len(),
    ensures
        match r {
            Some((v, j)) => p_rec_fields_tail(
                s@,
                i as int,
                acc@.map_values(|kv: (String, Entry)| (kv.0@, kv.1@)),
            ) == Some((v@.map_values(|kv: (String, Entry)| (kv.0@, kv.1@)), j as int)) && i < j
                <= s@.len(),
            None => p_rec_fields_tail(
                s@,
                i as int,
                acc@.map_values(|kv: (String, Entry)| (kv.0@, kv.1@)),
            ) is None,
        },
    decreases s@.len() - i,
{
    let ghost accv = acc@.map_values(|kv: (String, Entry)| (kv.0@, kv.1@));
    match pstr(s, i) {
        None => None,
        Some((key, j)) => {
            proof {
                assert(clamp(s@, j as int, i as int + 1) == j as int);
            }
            let k = skip_ws(s, j);
            if k < s.len() && s[k] == ':' {
                let m = skip_ws(s, k + 1);
                match entry(s, m) {
                    None => None,
                    Some((v, n)) => {
                        proof {
                            assert(clamp(s@, n as int, m as int + 1) == n as int);
                        }
                        let q = skip_ws(s, n);
                        let mut acc2 = acc;
                        acc2.push((key, v));
                        proof {
                            assert(acc2@.map_values(|kv: (String, Entry)| (kv.0@, kv.1@))
                                =~= accv.push((key@, v@)));
                        }
                        if q < s.len() && s[q] == ',' {
                            let t = skip_ws(s, q + 1);
                            rec_fields_tail(s, t, acc2)
                        } else if q < s.len() && s[q] == '}' {
                            Some((acc2, q + 1))
                        } else {
                            None
                        }
                    },
                }
            } else {
                None
            }
        },
    }
}

proof fn num_tail_progress(s: Seq<char>, i: int, acc: int)
    requires
        0 <= i <= s.len(),
    ensures
        match p_num_tail(s, i, acc) {
            Some((_, j)) => i <= j <= s.len() && (0 <= i && i < s.len() && is_digit(s[i]) ==> i
                < j),
            None => true,
        },
    decreases s.len() - i,
{
    if 0 <= i && i < s.len() && is_digit(s[i]) {
        let acc2 = acc * 10 + dval(s[i]);
        if acc2 <= 0xffff_ffff_ffff_ffff {
            num_tail_progress(s, i + 1, acc2);
        }
    }
}

} // verus!

verus! {

fn rec(s: &Vec<char>, i: usize) -> (r: Option<(Rec, usize)>)
    requires
        i <= s@.len(),
    ensures
        match r {
            Some((v, j)) => p_rec(s@, i as int) == Some((v@, j as int)) && i < j <= s@.len(),
            None => p_rec(s@, i as int) is None,
        },
{
    if i < s.len() && s[i] == '{' {
        let j = skip_ws(s, i + 1);
        if j < s.len() && s[j] == '}' {
            let out = Rec { fields: Vec::new() };
            proof {
                assert(out@.fields =~= Seq::<(Seq<char>, EntryV)>::empty());
                assert(out@ =~= (RecV { fields: Seq::empty() }));
            }
            Some((out, j + 1))
        } else {
            let acc: Vec<(String, Entry)> = Vec::new();
            proof {
                assert(acc@.map_values(|kv: (String, Entry)| (kv.0@, kv.1@))
                    =~= Seq::<(Seq<char>, EntryV)>::empty());
            }
            match rec_fields_tail(s, j, acc) {
                Some((fs, p)) => {
                    let out = Rec { fields: fs };
                    Some((out, p))
                },
                None => None,
            }
        }
    } else {
        None
    }
}

fn recs_tail(s: &Vec<char>, i: usize, acc: Vec<Rec>) -> (r: Option<(Vec<Rec>, usize)>)
    requires
        i <= s@.len(),
    ensures
        match r {
            Some((v, j)) => p_recs_tail(s@, i as int, acc@.map_values(|x: Rec| x@)) == Some(
                (v@.map_values(|x: Rec| x@), j as int),
            ) && i < j <= s@.len(),
            None => p_recs_tail(s@, i as int, acc@.map_values(|x: Rec| x@)) is None,
        },
    decreases s@.len() - i,
{
    let ghost accv = acc@.map_values(|x: Rec| x@);
    match rec(s, i) {
        None => None,
        Some((v, j)) => {
            proof {
                assert(clamp(s@, j as int, i as int + 1) == j as int);
            }
            let k = skip_ws(s, j);
            let mut acc2 = acc;
            acc2.push(v);
            proof {
                assert(acc2@.map_values(|x: Rec| x@) =~= accv.push(acc2@[acc2@.len() - 1]@));
            }
            if k < s.len() && s[k] == ',' {
                let m = skip_ws(s, k + 1);
                recs_tail(s, m, acc2)
            } else if k < s.len() && s[k] == ']' {
                Some((acc2, k + 1))
            } else {
                None
            }
        },
    }
}

fn fieldval(s: &Vec<char>, i: usize) -> (r: Option<(FieldVal, usize)>)
    requires
        i <= s@.len(),
    ensures
        match r {
            Some((v, j)) => p_fieldval(s@, i as int) == Some((v@, j as int)) && i < j <= s@.len(),
            None => p_fieldval(s@, i as int) is None,
        },
{
    let primary: Option<(FieldVal, usize)> = if i >= s.len() {
        None
    } else if s[i] == '[' {
        let j = skip_ws(s, i + 1);
        if j < s.len() && s[j] == ']' {
            let out: Vec<Prim> = Vec::new();
            proof {
                assert(out@.map_values(|p: Prim| p@) =~= Seq::<PrimV>::empty());
            }
            Some((FieldVal::Items(out), j + 1))
        } else if j < s.len() && s[j] == '{' {
            let acc: Vec<Rec> = Vec::new();
            proof {
                assert(acc@.map_values(|x: Rec| x@) =~= Seq::<RecV>::empty());
            }
            match recs_tail(s, j, acc) {
                Some((v, p)) => Some((FieldVal::Records(v), p)),
                None => None,
            }
        } else {
            let acc: Vec<Prim> = Vec::new();
            proof {
                assert(acc@.map_values(|p: Prim| p@) =~= Seq::<PrimV>::empty());
            }
            match prims_tail(s, j, acc) {
                Some((v, p)) => Some((FieldVal::Items(v), p)),
                None => None,
            }
        }
    } else {
        match prim(s, i) {
            Some((v, j)) => Some((FieldVal::Single(v), j)),
            None => None,
        }
    };
    match primary {
        Some(found) => Some(found),
        None => match skip_val(s, i) {
            Some(j) => Some((FieldVal::Foreign, j)),
            None => None,
        },
    }
}

fn payload_fields_tail(s: &Vec<char>, i: usize, acc: Vec<(String, FieldVal)>) -> (r: Option<
    (Vec<(String, FieldVal)>, usize),
>)
    requires
        i <= s@.len(),
    ensures
        match r {
            Some((v, j)) => p_payload_fields_tail(
                s@,
                i as int,
                acc@.map_values(|kv: (String, FieldVal)| (kv.0@, kv.1@)),
            ) == Some((v@.map_values(|kv: (String, FieldVal)| (kv.0@, kv.1@)), j as int)) && i < j
                <= s@.len(),
            None => p_payload_fields_tail(
                s@,
                i as int,
                acc@.map_values(|kv: (String, FieldVal)| (kv.0@, kv.1@)),
            ) is None,
        },
    decreases s@.len() - i,
{
    let ghost accv = acc@.map_values(|kv: (String, FieldVal)| (kv.0@, kv.1@));
    match pstr(s, i) {
        None => None,
        Some((key, j)) => {
            proof {
                assert(clamp(s@, j as int, i as int + 1) == j as int);
            }
            let k = skip_ws(s, j);
            if k < s.len() && s[k] == ':' {
                let m = skip_ws(s, k + 1);
                match fieldval(s, m) {
                    None => None,
                    Some((v, n)) => {
                        proof {
                            assert(clamp(s@, n as int, m as int + 1) == n as int);
                        }
                        let q = skip_ws(s, n);
                        let mut acc2 = acc;
                        acc2.push((key, v));
                        proof {
                            assert(acc2@.map_values(|kv: (String, FieldVal)| (kv.0@, kv.1@))
                                =~= accv.push(
                                (acc2@[acc2@.len() - 1].0@, acc2@[acc2@.len() - 1].1@),
                            ));
                        }
                        if q < s.len() && s[q] == ',' {
                            let t = skip_ws(s, q + 1);
                            payload_fields_tail(s, t, acc2)
                        } else if q < s.len() && s[q] == '}' {
                            Some((acc2, q + 1))
                        } else {
                            None
                        }
                    },
                }
            } else {
                None
            }
        },
    }
}

fn payload(s: &Vec<char>, i: usize) -> (r: Option<(Payload, usize)>)
    requires
        i <= s@.len(),
    ensures
        match r {
            Some((v, j)) => p_payload(s@, i as int) == Some((v@, j as int)) && i < j <= s@.len(),
            None => p_payload(s@, i as int) is None,
        },
{
    if i < s.len() && s[i] == '{' {
        let j = skip_ws(s, i + 1);
        if j < s.len() && s[j] == '}' {
            let out = Payload { fields: Vec::new() };
            proof {
                assert(out@.fields =~= Seq::<(Seq<char>, FieldValV)>::empty());
                assert(out@ =~= (PayloadV { fields: Seq::empty() }));
            }
            Some((out, j + 1))
        } else {
            let acc: Vec<(String, FieldVal)> = Vec::new();
            proof {
                assert(acc@.map_values(|kv: (String, FieldVal)| (kv.0@, kv.1@))
                    =~= Seq::<(Seq<char>, FieldValV)>::empty());
            }
            match payload_fields_tail(s, j, acc) {
                Some((fs, p)) => {
                    let out = Payload { fields: fs };
                    Some((out, p))
                },
                None => None,
            }
        }
    } else {
        None
    }
}

fn topval(s: &Vec<char>, i: usize) -> (r: Option<(TopVal, usize)>)
    requires
        i <= s@.len(),
    ensures
        match r {
            Some((v, j)) => p_topval(s@, i as int) == Some((v@, j as int)) && i < j <= s@.len(),
            None => p_topval(s@, i as int) is None,
        },
{
    let primary: Option<(TopVal, usize)> = if i < s.len() && s[i] == '{' {
        match payload(s, i) {
            Some((v, j)) => Some((TopVal::O(v), j)),
            None => None,
        }
    } else {
        match prim(s, i) {
            Some((v, j)) => Some((TopVal::P(v), j)),
            None => None,
        }
    };
    match primary {
        Some(found) => Some(found),
        None => match skip_val(s, i) {
            Some(j) => Some((TopVal::Foreign, j)),
            None => None,
        },
    }
}

fn top_fields_tail(s: &Vec<char>, i: usize, acc: Vec<(String, TopVal)>) -> (r: Option<
    (Vec<(String, TopVal)>, usize),
>)
    requires
        i <= s@.len(),
    ensures
        match r {
            Some((v, j)) => p_top_fields_tail(
                s@,
                i as int,
                acc@.map_values(|kv: (String, TopVal)| (kv.0@, kv.1@)),
            ) == Some((v@.map_values(|kv: (String, TopVal)| (kv.0@, kv.1@)), j as int)) && i < j
                <= s@.len(),
            None => p_top_fields_tail(
                s@,
                i as int,
                acc@.map_values(|kv: (String, TopVal)| (kv.0@, kv.1@)),
            ) is None,
        },
    decreases s@.len() - i,
{
    let ghost accv = acc@.map_values(|kv: (String, TopVal)| (kv.0@, kv.1@));
    match pstr(s, i) {
        None => None,
        Some((key, j)) => {
            proof {
                assert(clamp(s@, j as int, i as int + 1) == j as int);
            }
            let k = skip_ws(s, j);
            if k < s.len() && s[k] == ':' {
                let m = skip_ws(s, k + 1);
                match topval(s, m) {
                    None => None,
                    Some((v, n)) => {
                        proof {
                            assert(clamp(s@, n as int, m as int + 1) == n as int);
                        }
                        let q = skip_ws(s, n);
                        let mut acc2 = acc;
                        acc2.push((key, v));
                        proof {
                            assert(acc2@.map_values(|kv: (String, TopVal)| (kv.0@, kv.1@))
                                =~= accv.push(
                                (acc2@[acc2@.len() - 1].0@, acc2@[acc2@.len() - 1].1@),
                            ));
                        }
                        if q < s.len() && s[q] == ',' {
                            let t = skip_ws(s, q + 1);
                            top_fields_tail(s, t, acc2)
                        } else if q < s.len() && s[q] == '}' {
                            Some((acc2, q + 1))
                        } else {
                            None
                        }
                    },
                }
            } else {
                None
            }
        },
    }
}

fn top(s: &Vec<char>, i: usize) -> (r: Option<(Vec<(String, TopVal)>, usize)>)
    requires
        i <= s@.len(),
    ensures
        match r {
            Some((v, j)) => p_top(s@, i as int) == Some(
                (v@.map_values(|kv: (String, TopVal)| (kv.0@, kv.1@)), j as int),
            ) && i < j <= s@.len(),
            None => p_top(s@, i as int) is None,
        },
{
    if i < s.len() && s[i] == '{' {
        let j = skip_ws(s, i + 1);
        if j < s.len() && s[j] == '}' {
            let out: Vec<(String, TopVal)> = Vec::new();
            proof {
                assert(out@.map_values(|kv: (String, TopVal)| (kv.0@, kv.1@))
                    =~= Seq::<(Seq<char>, TopValV)>::empty());
            }
            Some((out, j + 1))
        } else {
            let acc: Vec<(String, TopVal)> = Vec::new();
            proof {
                assert(acc@.map_values(|kv: (String, TopVal)| (kv.0@, kv.1@))
                    =~= Seq::<(Seq<char>, TopValV)>::empty());
            }
            top_fields_tail(s, j, acc)
        }
    } else {
        None
    }
}

/// Parses one whole response text into the envelope's fields.
pub fn parse_text(s: &Vec<char>) -> (r: Option<Vec<(String, TopVal)>>)
    ensures
        match r {
            Some(v) => p_text(s@) == Some(v@.map_values(|kv: (String, TopVal)| (kv.0@, kv.1@))),
            None => p_text(s@) is None,
        },
{
    let i = skip_ws(s, 0);
    match top(s, i) {
        Some((fs, j)) => {
            let e = skip_ws(s, j);
            if e == s.len() {
                Some(fs)
            } else {
                None
            }
        },
        None => None,
    }
}

} // verus!

// The response envelope: which parsed texts are well-formed responses, and
// how a response text is classified against the identifier that was issued.

use crate::error::{ErrV, LitRpcError, RpcError, RpcErrorV};
use crate::text::{chars_of, eq_str};

verus! {

/// The first value under key `k` among an envelope's fields.
pub open spec fn top_lookup(fs: Seq<(Seq<char>, TopValV)>, k: Seq<char>) -> Option<TopValV>
    decreases fs.len(),
{
    if fs.len() == 0 {
        None
    } else if fs[0].0 == k {
        Some(fs[0].1)
    } else {
        top_lookup(fs.drop_first(), k)
    }
}

/// The first value under key `k` among a payload's fields.
pub open spec fn pay_lookup(fs: Seq<(Seq<char>, FieldValV)>, k: Seq<char>) -> Option<FieldValV>
    decreases fs.len(),
{
    if fs.len() == 0 {
        None
    } else if fs[0].0 == k {
        Some(fs[0].1)
    } else {
        pay_lookup(fs.drop_first(), k)
    }
}

/// How the `result` and `error` fields of an envelope read: absent or null
/// is "not present"; an object is its payload; any other value makes the
/// envelope malformed.
pub open spec fn opt_obj(v: Option<TopValV>) -> Option<Option<PayloadV>> {
    match v {
        None => Some(None),
        Some(TopValV::P(PrimV::Null)) => Some(None),
        Some(TopValV::O(p)) => Some(Some(p)),
        Some(TopValV::P(_)) => None,
        Some(TopValV::Foreign) => None,
    }
}

/// A well-formed response envelope: its identifier, and the payloads of
/// whichever of `result`/`error` are present.
pub struct RespV {
    pub result: Option<PayloadV>,
    pub error: Option<PayloadV>,
    pub id: int,
}

/// Reads the envelope out of parsed fields: the identifier must be present
/// as an unsigned wire integer, the protocol version must be present as a
/// string, and `result`/`error` must each be absent, null or an object.
pub open spec fn resp_of_top(fs: Seq<(Seq<char>, TopValV)>) -> Option<RespV> {
    match (top_lookup(fs, "id"@), top_lookup(fs, "jsonrpc"@)) {
        (Some(TopValV::P(PrimV::Int(n))), Some(TopValV::P(PrimV::Str(_)))) => if 0 <= n
            <= 0xffff_ffff_ffff_ffff {
            match (opt_obj(top_lookup(fs, "result"@)), opt_obj(top_lookup(fs, "error"@))) {
                (Some(r), Some(e)) => Some(RespV { result: r, error: e, id: n }),
                _ => None,
            }
        } else {
            None
        },
        _ => None,
    }
}

/// Reads a remote error out of an `error` payload: `code` a signed 64-bit
/// wire integer, `message` and `data` strings.
pub open spec fn rpc_error_of(p: PayloadV) -> Option<RpcErrorV> {
    match (
        pay_lookup(p.fields, "code"@),
        pay_lookup(p.fields, "message"@),
        pay_lookup(p.fields, "data"@),
    ) {
        (
            Some(FieldValV::Single(PrimV::Int(c))),
            Some(FieldValV::Single(PrimV::Str(m))),
            Some(FieldValV::Single(PrimV::Str(d))),
        ) => if -0x8000_0000_0000_0000 <= c <= 0x7fff_ffff_ffff_ffff {
            Some(RpcErrorV { code: c, message: m, data: d })
        } else {
            None
        },
        _ => None,
    }
}

/// The complete classification of one response text against the issued
/// identifier `expected`: the result payload on success, otherwise exactly
/// which failure the text is.
pub open spec fn read_verdict(s: Seq<char>, expected: int) -> Result<PayloadV, ErrV> {
    match p_text(s) {
        None => Err(ErrV::Serialization),
        Some(fs) => match resp_of_top(fs) {
            None => Err(ErrV::Malformed),
            Some(rv) => if rv.id != expected {
                Err(ErrV::Invalid)
            } else {
                match (rv.result, rv.error) {
                    (Some(r), None) => Ok(r),
                    (None, Some(e)) => match rpc_error_of(e) {
                        Some(ev) => Err(ErrV::Remote(ev)),
                        None => Err(ErrV::Malformed),
                    },
                    _ => Err(ErrV::Invalid),
                }
            },
        },
    }
}

fn top_find<'a>(fs: &'a Vec<(String, TopVal)>, k: &str) -> (r: Option<&'a TopVal>)
    ensures
        match r {
            Some(v) => top_lookup(fs@.map_values(|kv: (String, TopVal)| (kv.0@, kv.1@)), k@)
                == Some(v@),
            None => top_lookup(fs@.map_values(|kv: (String, TopVal)| (kv.0@, kv.1@)), k@) is None,
        },
{
    let ghost model = fs@.map_values(|kv: (String, TopVal)| (kv.0@, kv.1@));
    proof {
        assert(model.skip(0) =~= model);
    }
    let mut i: usize = 0;
    while i < fs.len()
        invariant
            i <= fs@.len(),
            model == fs@.map_values(|kv: (String, TopVal)| (kv.0@, kv.1@)),
            top_lookup(model, k@) == top_lookup(model.skip(i as int), k@),
        decreases fs@.len() - i,
    {
        if eq_str(fs[i].0.as_str(), k) {
            proof {
                assert(model.skip(i as int)[0] == model[i as int]);
            }
            return Some(&fs[i].1);
        }
        proof {
            assert(model.skip(i as int)[0] == model[i as int]);
            assert(model.skip(i as int).drop_first() =~= model.skip(i as int + 1));
        }
        i = i + 1;
    }
    proof {
        assert(model.skip(i as int) =~= Seq::<(Seq<char>, TopValV)>::empty());
    }
    None
}

/// The first value under key `k` of a payload, by reference.
pub fn pay_find<'a>(p: &'a Payload, k: &str) -> (r: Option<&'a FieldVal>)
    ensures
        match r {
            Some(v) => pay_lookup(p@.fields, k@) == Some(v@),
            None => pay_lookup(p@.fields, k@) is None,
        },
{
    let ghost model = p@.fields;
    proof {
        assert(model.skip(0) =~= model);
    }
    let mut i: usize = 0;
    while i < p.fields.len()
        invariant
            i <= p.fields@.len(),
            model == p@.fields,
            pay_lookup(model, k@) == pay_lookup(model.skip(i as int), k@),
        decreases p.fields@.len() - i,
    {
        if eq_str(p.fields[i].0.as_str(), k) {
            proof {
                assert(model.skip(i as int)[0] == model[i as int]);
            }
            return Some(&p.fields[i].1);
        }
        proof {
            assert(model.skip(i as int)[0] == model[i as int]);
            assert(model.skip(i as int).drop_first() =~= model.skip(i as int + 1));
        }
        i = i + 1;
    }
    proof {
        assert(model.skip(i as int) =~= Seq::<(Seq<char>, FieldValV)>::empty());
    }
    None
}

/// An owned copy of a scalar, character for character.
pub fn prim_dup(p: &Prim) -> (r: Prim)
    ensures
        r@ == p@,
{
    match p {
        Prim::Null => Prim::Null,
        Prim::Bool(b) => Prim::Bool(*b),
        Prim::Int(i) => Prim::Int(*i),
        Prim::Str(s) => Prim::Str(s.clone()),
    }
}

/// An owned copy of a scalar list.
pub fn prims_dup(v: &Vec<Prim>) -> (r: Vec<Prim>)
    ensures
        r@.map_values(|p: Prim| p@) == v@.map_values(|p: Prim| p@),
{
    let ghost model = v@.map_values(|p: Prim| p@);
    let mut out: Vec<Prim> = Vec::new();
    let mut i: usize = 0;
    while i < v.len()
        invariant
            i <= v@.len(),
            model == v@.map_values(|p: Prim| p@),
            out@.map_values(|p: Prim| p@) =~= model.subrange(0, i as int),
        decreases v@.len() - i,
    {
        let d = prim_dup(&v[i]);
        proof {
            assert(d@ == model[i as int]);
        }
        let ghost oldmap = out@.map_values(|p: Prim| p@);
        out.push(d);
        proof {
            assert(out@.map_values(|p: Prim| p@) =~= oldmap.push(model[i as int]));
            assert(model.subrange(0, i as int).push(model[i as int]) =~= model.subrange(
                0,
                i + 1 as int,
            ));
        }
        i = i + 1;
    }
    proof {
        assert(out@.map_values(|p: Prim| p@) =~= model);
    }
    out
}

/// An owned copy of a record field's value.
pub fn entry_dup(e: &Entry) -> (r: Entry)
    ensures
        r@ == e@,
{
    match e {
        Entry::Single(p) => Entry::Single(prim_dup(p)),
        Entry::List(v) => Entry::List(prims_dup(v)),
        Entry::Foreign => Entry::Foreign,
    }
}

/// An owned copy of a record.
pub fn rec_dup(x: &Rec) -> (r: Rec)
    ensures
        r@ == x@,
{
    let ghost model = x@.fields;
    let mut out: Vec<(String, Entry)> = Vec::new();
    let mut i: usize = 0;
    while i < x.fields.len()
        invariant
            i <= x.fields@.len(),
            model == x@.fields,
            out@.map_values(|kv: (String, Entry)| (kv.0@, kv.1@)) =~= model.subrange(0, i as int),
        decreases x.fields@.len() - i,
    {
        let kv = &x.fields[i];
        let d = (kv.0.clone(), entry_dup(&kv.1));
        proof {
            assert((d.0@, d.1@) == model[i as int]);
        }
        let ghost oldmap = out@.map_values(|kv2: (String, Entry)| (kv2.0@, kv2.1@));
        out.push(d);
        proof {
            assert(out@.map_values(|kv2: (String, Entry)| (kv2.0@, kv2.1@)) =~= oldmap.push(
                model[i as int],
            ));
            assert(model.subrange(0, i as int).push(model[i as int]) =~= model.subrange(
                0,
                i + 1 as int,
            ));
        }
        i = i + 1;
    }
    proof {
        assert(out@.map_values(|kv: (String, Entry)| (kv.0@, kv.1@)) =~= model);
        assert((Rec { fields: out })@ =~= x@);
    }
    let r = Rec { fields: out };
    r
}

/// An owned copy of a record list.
pub fn recs_dup(v: &Vec<Rec>) -> (r: Vec<Rec>)
    ensures
        r@.map_values(|x: Rec| x@) == v@.map_values(|x: Rec| x@),
{
    let ghost model = v@.map_values(|x: Rec| x@);
    let mut out: Vec<Rec> = Vec::new();
    let mut i: usize = 0;
    while i < v.len()
        invariant
            i <= v@.len(),
            model == v@.map_values(|x: Rec| x@),
            out@.map_values(|x: Rec| x@) =~= model.subrange(0, i as int),
        decreases v@.len() - i,
    {
        let d = rec_dup(&v[i]);
        proof {
            assert(d@ == model[i as int]);
        }
        let ghost oldmap = out@.map_values(|x: Rec| x@);
        out.push(d);
        proof {
            assert(out@.map_values(|x: Rec| x@) =~= oldmap.push(model[i as int]));
            assert(model.subrange(0, i as int).push(model[i as int]) =~= model.subrange(
                0,
                i + 1 as int,
            ));
        }
        i = i + 1;
    }
    proof {
        assert(out@.map_values(|x: Rec| x@) =~= model);
    }
    out
}

/// An owned copy of a payload field's value.
pub fn fieldval_dup(f: &FieldVal) -> (r: FieldVal)
    ensures
        r@ == f@,
{
    match f {
        FieldVal::Single(p) => FieldVal::Single(prim_dup(p)),
        FieldVal::Items(v) => FieldVal::Items(prims_dup(v)),
        FieldVal::Records(v) => FieldVal::Records(recs_dup(v)),
        FieldVal::Foreign => FieldVal::Foreign,
    }
}

/// An owned copy of a payload.
pub fn payload_dup(p: &Payload) -> (r: Payload)
    ensures
        r@ == p@,
{
    let ghost model = p@.fields;
    let mut out: Vec<(String, FieldVal)> = Vec::new();
    let mut i: usize = 0;
    while i < p.fields.len()
        invariant
            i <= p.fields@.len(),
            model == p@.fields,
            out@.map_values(|kv: (String, FieldVal)| (kv.0@, kv.1@)) =~= model.subrange(
                0,
                i as int,
            ),
        decreases p.fields@.len() - i,
    {
        let kv = &p.fields[i];
        let d = (kv.0.clone(), fieldval_dup(&kv.1));
        proof {
            assert((d.0@, d.1@) == model[i as int]);
        }
        let ghost oldmap = out@.map_values(|kv2: (String, FieldVal)| (kv2.0@, kv2.1@));
        out.push(d);
        proof {
            assert(out@.map_values(|kv2: (String, FieldVal)| (kv2.0@, kv2.1@)) =~= oldmap.push(
                model[i as int],
            ));
            assert(model.subrange(0, i as int).push(model[i as int]) =~= model.subrange(
                0,
                i + 1 as int,
            ));
        }
        i = i + 1;
    }
    proof {
        assert(out@.map_values(|kv: (String, FieldVal)| (kv.0@, kv.1@)) =~= model);
        assert((Payload { fields: out })@ =~= p@);
    }
    let r = Payload { fields: out };
    r
}

/// Decodes and classifies one response text against the issued identifier.
/// The outcome is exactly what [`read_verdict`] says of the text: the result
/// payload, or the classified failure.
pub fn read_response(text: &str, expected: u64) -> (r: Result<Payload, LitRpcError>)
    ensures
        match r {
            Ok(p) => read_verdict(text@, expected as int) == Ok::<PayloadV, ErrV>(p@),
            Err(e) => read_verdict(text@, expected as int) == Err::<PayloadV, ErrV>(e@),
        },
{
    let cs = chars_of(text);
    let parsed = parse_text(&cs);
    let fs = match parsed {
        None => {
            return Err(LitRpcError::SerializationError);
        },
        Some(fs) => fs,
    };
    let ghost model = fs@.map_values(|kv: (String, TopVal)| (kv.0@, kv.1@));
    let id_found: u64 = match top_find(&fs, "id") {
        Some(TopVal::P(Prim::Int(n))) => {
            if 0 <= *n && *n <= 0xffff_ffff_ffff_ffffi128 {
                *n as u64
            } else {
                return Err(LitRpcError::MalformedResponse);
            }
        },
        _ => {
            return Err(LitRpcError::MalformedResponse);
        },
    };
    match top_find(&fs, "jsonrpc") {
        Some(TopVal::P(Prim::Str(_))) => {},
        _ => {
            return Err(LitRpcError::MalformedResponse);
        },
    }
    let res_obj: Option<&Payload> = match top_find(&fs, "result") {
        None => None,
        Some(TopVal::P(Prim::Null)) => None,
        Some(TopVal::O(p)) => Some(p),
        Some(TopVal::P(_)) | Some(TopVal::Foreign) => {
            return Err(LitRpcError::MalformedResponse);
        },
    };
    let err_obj: Option<&Payload> = match top_find(&fs, "error") {
        None => None,
        Some(TopVal::P(Prim::Null)) => None,
        Some(TopVal::O(p)) => Some(p),
        Some(TopVal::P(_)) | Some(TopVal::Foreign) => {
            return Err(LitRpcError::MalformedResponse);
        },
    };
    proof {
        assert(resp_of_top(model) matches Some(rv) && rv.id == id_found as int);
    }
    if id_found != expected {
        return Err(LitRpcError::InvalidResponse);
    }
    match (res_obj, err_obj) {
        (Some(p), None) => Ok(payload_dup(p)),
        (None, Some(e)) => {
            let code: i64 = match pay_find(e, "code") {
                Some(FieldVal::Single(Prim::Int(c))) => {
                    if -0x8000_0000_0000_0000i128 <= *c && *c <= 0x7fff_ffff_ffff_ffffi128 {
                        *c as i64
                    } else {
                        return Err(LitRpcError::MalformedResponse);
                    }
                },
                _ => {
                    return Err(LitRpcError::MalformedResponse);
                },
            };
            let message: String = match pay_find(e, "message") {
                Some(FieldVal::Single(Prim::Str(m))) => m.clone(),
                _ => {
                    return Err(LitRpcError::MalformedResponse);
                },
            };
            let data: String = match pay_find(e, "data") {
                Some(FieldVal::Single(Prim::Str(d))) => d.clone(),
                _ => {
                    return Err(LitRpcError::MalformedResponse);
                },
            };
            Err(LitRpcError::RemoteError(RpcError { code, message, data }))
        },
        _ => Err(LitRpcError::InvalidResponse),
    }
}

} // verus!

verus! {

/// Identifier correlation is absolute: a response whose identifier differs
/// from the one issued for the in-flight request is answered `InvalidResponse`
/// — never a result, whatever else the envelope carries.
pub proof fn lemma_mismatched_id_never_succeeds(s: Seq<char>, expected: int)
    requires
        p_text(s) matches Some(fs) && resp_of_top(fs) matches Some(rv) && rv.id != expected,
    ensures
        read_verdict(s, expected) == Err::<PayloadV, ErrV>(ErrV::Invalid),
{
}

/// The envelope invariant is enforced, never repaired: a response carrying
/// both of `result`/`error`, or neither, is answered `InvalidResponse` even
/// when its identifier matches — neither field is silently preferred.
pub proof fn lemma_result_error_exclusive(s: Seq<char>, expected: int)
    requires
        p_text(s) matches Some(fs) && resp_of_top(fs) matches Some(rv) && rv.id == expected && (
        rv.result is Some <==> rv.error is Some),
    ensures
        read_verdict(s, expected) == Err::<PayloadV, ErrV>(ErrV::Invalid),
{
}

} // verus!

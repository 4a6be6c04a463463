//! Encoding of values and request envelopes into wire text.
//!
//! The spec functions define the wire text mathematically; each executable
//! writer is proved to produce exactly that text.

use vstd::prelude::*;
use vstd::string::StringExecFns;
use crate::json::{int_wf, Entry, EntryV, FieldVal, FieldValV, Payload, PayloadV, Prim, PrimV, Rec, RecV};
use crate::text::push_char;

verus! {

/// The decimal digits of `n`, most significant first.
pub open spec fn dec_of(n: nat) -> Seq<char>
    decreases n,
{
    if n < 10 {
        seq![digit_char(n as int)]
    } else {
        dec_of(n / 10) + seq![digit_char((n % 10) as int)]
    }
}

/// The character for one decimal digit.
pub open spec fn digit_char(d: int) -> char {
    ((0x30 + d) as u8) as char
}

/// The character for one hexadecimal digit, lower case.
pub open spec fn hex_char(d: int) -> char {
    if d < 10 {
        ((0x30 + d) as u8) as char
    } else {
        ((0x57 + d) as u8) as char
    }
}

/// A wire integer: an optional minus sign and decimal digits.
pub open spec fn enc_int(i: int) -> Seq<char> {
    if i < 0 {
        seq!['-'] + dec_of((-i) as nat)
    } else {
        dec_of(i as nat)
    }
}

/// How one character appears inside a quoted wire string.
pub open spec fn esc(c: char) -> Seq<char> {
    if c == '"' {
        seq!['\\', '"']
    } else if c == '\\' {
        seq!['\\', '\\']
    } else if c == '\n' {
        seq!['\\', 'n']
    } else if c == '\t' {
        seq!['\\', 't']
    } else if c == '\r' {
        seq!['\\', 'r']
    } else if (c as int) < 0x20 {
        seq!['\\', 'u', '0', '0', hex_char(c as int / 16), hex_char(c as int % 16)]
    } else {
        seq![c]
    }
}

/// The body of a quoted wire string: each character escaped.
pub open spec fn enc_str_body(s: Seq<char>) -> Seq<char>
    decreases s.len(),
{
    if s.len() == 0 {
        Seq::empty()
    } else {
        enc_str_body(s.drop_last()) + esc(s.last())
    }
}

/// A quoted wire string.
pub open spec fn enc_str(s: Seq<char>) -> Seq<char> {
    seq!['"'] + enc_str_body(s) + seq!['"']
}

/// A wire scalar.
pub open spec fn enc_prim(p: PrimV) -> Seq<char> {
    match p {
        PrimV::Null => "null"@,
        PrimV::Bool(b) => if b {
            "true"@
        } else {
            "false"@
        },
        PrimV::Int(i) => enc_int(i),
        PrimV::Str(s) => enc_str(s),
    }
}

/// Comma-separated scalars.
pub open spec fn enc_prims(s: Seq<PrimV>) -> Seq<char>
    decreases s.len(),
{
    if s.len() == 0 {
        Seq::empty()
    } else if s.len() == 1 {
        enc_prim(s[0])
    } else {
        enc_prims(s.drop_last()) + seq![','] + enc_prim(s.last())
    }
}

/// A record field's value.  `Foreign` values are never well-formed for
/// encoding, so no text is defined for them.
pub open spec fn enc_entry(e: EntryV) -> Seq<char> {
    match e {
        EntryV::Single(p) => enc_prim(p),
        EntryV::List(s) => seq!['['] + enc_prims(s) + seq![']'],
        EntryV::Foreign => Seq::empty(),
    }
}

/// Comma-separated `"key":value` pairs of a record.
pub open spec fn enc_rec_fields(fs: Seq<(Seq<char>, EntryV)>) -> Seq<char>
    decreases fs.len(),
{
    if fs.len() == 0 {
        Seq::empty()
    } else if fs.len() == 1 {
        enc_str(fs[0].0) + seq![':'] + enc_entry(fs[0].1)
    } else {
        enc_rec_fields(fs.drop_last()) + seq![','] + enc_str(fs.last().0) + seq![':'] + enc_entry(
            fs.last().1,
        )
    }
}

/// A record, as a wire object.
pub open spec fn enc_rec(r: RecV) -> Seq<char> {
    seq!['{'] + enc_rec_fields(r.fields) + seq!['}']
}

/// Comma-separated records.
pub open spec fn enc_recs(s: Seq<RecV>) -> Seq<char>
    decreases s.len(),
{
    if s.len() == 0 {
        Seq::empty()
    } else if s.len() == 1 {
        enc_rec(s[0])
    } else {
        enc_recs(s.drop_last()) + seq![','] + enc_rec(s.last())
    }
}

/// A payload field's value.  `Foreign` values are never well-formed for
/// encoding, so no text is defined for them.
pub open spec fn enc_fieldval(f: FieldValV) -> Seq<char> {
    match f {
        FieldValV::Single(p) => enc_prim(p),
        FieldValV::Items(s) => seq!['['] + enc_prims(s) + seq![']'],
        FieldValV::Records(s) => seq!['['] + enc_recs(s) + seq![']'],
        FieldValV::Foreign => Seq::empty(),
    }
}

/// Comma-separated `"key":value` pairs of a payload.
pub open spec fn enc_payload_fields(fs: Seq<(Seq<char>, FieldValV)>) -> Seq<char>
    decreases fs.len(),
{
    if fs.len() == 0 {
        Seq::empty()
    } else if fs.len() == 1 {
        enc_str(fs[0].0) + seq![':'] + enc_fieldval(fs[0].1)
    } else {
        enc_payload_fields(fs.drop_last()) + seq![','] + enc_str(fs.last().0) + seq![':']
            + enc_fieldval(fs.last().1)
    }
}

/// A payload, as a wire object.
pub open spec fn enc_payload(p: PayloadV) -> Seq<char> {
    seq!['{'] + enc_payload_fields(p.fields) + seq!['}']
}

/// The full request envelope: method name, the single parameter object, the
/// protocol version, and the request identifier, in that order, with the
/// exact field names of the wire contract.
pub open spec fn enc_request(method: Seq<char>, params: PayloadV, id: int) -> Seq<char> {
    "{\"method\":"@ + enc_str(method) + ",\"params\":"@ + enc_payload(params)
        + ",\"jsonrpc\":\"2.0\",\"id\":"@ + enc_int(id) + seq!['}']
}

/// Writes the decimal digits of `n`.
pub fn write_dec(out: &mut String, n: u64)
    ensures
        final(out)@ == old(out)@ + dec_of(n as nat),
    decreases n,
{
    if n < 10 {
        push_char(out, (0x30 + n as u8) as char);
    } else {
        write_dec(out, n / 10);
        push_char(out, (0x30 + (n % 10) as u8) as char);
    }
}

/// Writes a wire integer.
pub fn write_int(out: &mut String, i: i128)
    requires
        int_wf(i as int),
    ensures
        final(out)@ == old(out)@ + enc_int(i as int),
{
    if i < 0 {
        push_char(out, '-');
        let m: u64 = (-i) as u64;
        proof {
            assert(m as nat == (-(i as int)) as nat);
        }
        write_dec(out, m);
    } else {
        let m: u64 = i as u64;
        write_dec(out, m);
    }
}

/// Writes one character of a quoted string body.
fn write_esc(out: &mut String, c: char)
    ensures
        final(out)@ == old(out)@ + esc(c),
{
    if c == '"' {
        push_char(out, '\\');
        push_char(out, '"');
    } else if c == '\\' {
        push_char(out, '\\');
        push_char(out, '\\');
    } else if c == '\n' {
        push_char(out, '\\');
        push_char(out, 'n');
    } else if c == '\t' {
        push_char(out, '\\');
        push_char(out, 't');
    } else if c == '\r' {
        push_char(out, '\\');
        push_char(out, 'r');
    } else if (c as u32) < 0x20 {
        push_char(out, '\\');
        push_char(out, 'u');
        push_char(out, '0');
        push_char(out, '0');
        let hi = (c as u32 / 16) as u8;
        let lo = (c as u32 % 16) as u8;
        push_char(out, if hi < 10 { (0x30 + hi) as char } else { (0x57 + hi) as char });
        push_char(out, if lo < 10 { (0x30 + lo) as char } else { (0x57 + lo) as char });
    } else {
        push_char(out, c);
    }
}

/// Writes a quoted wire string.
pub fn write_str(out: &mut String, s: &str)
    ensures
        final(out)@ == old(out)@ + enc_str(s@),
{
    push_char(out, '"');
    let n = vstd::string::StrSliceExecFns::unicode_len(s);
    let mut i: usize = 0;
    while i < n
        invariant
            i <= n,
            n == s@.len(),
            out@ == old(out)@ + seq!['"'] + enc_str_body(s@.subrange(0, i as int)),
        decreases n - i,
    {
        let c = vstd::string::StrSliceExecFns::get_char(s, i);
        write_esc(out, c);
        proof {
            let pre = s@.subrange(0, i as int);
            let post = s@.subrange(0, i + 1 as int);
            assert(post.drop_last() =~= pre);
            assert(post.last() == c);
        }
        i = i + 1;
    }
    proof {
        assert(s@.subrange(0, n as int) =~= s@);
    }
    push_char(out, '"');
    proof {
        assert(final(out)@ =~= old(out)@ + enc_str(s@));
    }
}

/// Writes a wire scalar.
pub fn write_prim(out: &mut String, p: &Prim)
    requires
        p@.wf(),
    ensures
        final(out)@ == old(out)@ + enc_prim(p@),
{
    match p {
        Prim::Null => out.append("null"),
        Prim::Bool(b) => {
            if *b {
                out.append("true")
            } else {
                out.append("false")
            }
        },
        Prim::Int(i) => write_int(out, *i),
        Prim::Str(s) => write_str(out, s.as_str()),
    }
}

/// Writes a comma-separated scalar list, brackets included.
pub fn write_prims(out: &mut String, items: &Vec<Prim>)
    requires
        forall|i: int| 0 <= i < items@.len() ==> (#[trigger] items@[i])@.wf(),
    ensures
        final(out)@ == old(out)@ + seq!['['] + enc_prims(items@.map_values(|p: Prim| p@))
            + seq![']'],
{
    let ghost model = items@.map_values(|p: Prim| p@);
    push_char(out, '[');
    let mut i: usize = 0;
    while i < items.len()
        invariant
            i <= items@.len(),
            model == items@.map_values(|p: Prim| p@),
            forall|j: int| 0 <= j < items@.len() ==> (#[trigger] items@[j])@.wf(),
            out@ == old(out)@ + seq!['['] + enc_prims(model.subrange(0, i as int)),
        decreases items@.len() - i,
    {
        if i > 0 {
            push_char(out, ',');
        }
        write_prim(out, &items[i]);
        proof {
            let pre = model.subrange(0, i as int);
            let post = model.subrange(0, i + 1 as int);
            assert(post.drop_last() =~= pre);
            assert(post.last() == model[i as int]);
        }
        i = i + 1;
    }
    proof {
        assert(model.subrange(0, items@.len() as int) =~= model);
    }
    push_char(out, ']');
    proof {
        assert(final(out)@ =~= old(out)@ + seq!['['] + enc_prims(model) + seq![']']);
    }
}

/// Writes a record, braces included.
pub fn write_rec(out: &mut String, r: &Rec)
    requires
        r@.wf(),
    ensures
        final(out)@ == old(out)@ + enc_rec(r@),
{
    let ghost model = r@.fields;
    push_char(out, '{');
    let mut i: usize = 0;
    while i < r.fields.len()
        invariant
            i <= r.fields@.len(),
            model == r@.fields,
            r@.wf(),
            out@ == old(out)@ + seq!['{'] + enc_rec_fields(model.subrange(0, i as int)),
        decreases r.fields@.len() - i,
    {
        if i > 0 {
            push_char(out, ',');
        }
        let kv = &r.fields[i];
        write_str(out, kv.0.as_str());
        push_char(out, ':');
        match &kv.1 {
            Entry::Single(p) => {
                proof {
                    assert(model[i as int].1.wf());
                }
                write_prim(out, p);
            },
            Entry::List(v) => {
                proof {
                    assert(model[i as int] == (kv.0@, kv.1@));
                    assert(model[i as int].1.wf());
                    assert(kv.1@.wf());
                    let sv = v@.map_values(|p: Prim| p@);
                    assert(kv.1@ == EntryV::List(sv));
                    assert forall|j: int| 0 <= j < v@.len() implies (#[trigger] v@[j])@.wf() by {
                        assert((kv.1@)->List_0[j].wf());
                        assert((kv.1@)->List_0 == sv);
                        assert(sv[j] == v@[j]@);
                    }
                }
                write_prims(out, v);
            },
            Entry::Foreign => {
                proof {
                    assert(model[i as int] == (kv.0@, kv.1@));
                    assert(model[i as int].1.wf());
                    assert(false);
                }
            },
        }
        proof {
            let pre = model.subrange(0, i as int);
            let post = model.subrange(0, i + 1 as int);
            assert(post.drop_last() =~= pre);
            assert(post.last() == model[i as int]);
        }
        i = i + 1;
    }
    proof {
        assert(model.subrange(0, r.fields@.len() as int) =~= model);
    }
    push_char(out, '}');
    proof {
        assert(final(out)@ =~= old(out)@ + enc_rec(r@));
    }
}

/// Writes a comma-separated record list, brackets included.
pub fn write_recs(out: &mut String, items: &Vec<Rec>)
    requires
        forall|i: int| 0 <= i < items@.len() ==> (#[trigger] items@[i])@.wf(),
    ensures
        final(out)@ == old(out)@ + seq!['['] + enc_recs(items@.map_values(|r: Rec| r@))
            + seq![']'],
{
    let ghost model = items@.map_values(|r: Rec| r@);
    push_char(out, '[');
    let mut i: usize = 0;
    while i < items.len()
        invariant
            i <= items@.len(),
            model == items@.map_values(|r: Rec| r@),
            forall|j: int| 0 <= j < items@.len() ==> (#[trigger] items@[j])@.wf(),
            out@ == old(out)@ + seq!['['] + enc_recs(model.subrange(0, i as int)),
        decreases items@.len() - i,
    {
        if i > 0 {
            push_char(out, ',');
        }
        write_rec(out, &items[i]);
        proof {
            let pre = model.subrange(0, i as int);
            let post = model.subrange(0, i + 1 as int);
            assert(post.drop_last() =~= pre);
            assert(post.last() == model[i as int]);
        }
        i = i + 1;
    }
    proof {
        assert(model.subrange(0, items@.len() as int) =~= model);
    }
    push_char(out, ']');
    proof {
        assert(final(out)@ =~= old(out)@ + seq!['['] + enc_recs(model) + seq![']']);
    }
}

/// Writes a payload, braces included.
#[verifier::rlimit(50)]
pub fn write_payload(out: &mut String, p: &Payload)
    requires
        p@.wf(),
    ensures
        final(out)@ == old(out)@ + enc_payload(p@),
{
    let ghost model = p@.fields;
    push_char(out, '{');
    let mut i: usize = 0;
    while i < p.fields.len()
        invariant
            i <= p.fields@.len(),
            model == p@.fields,
            p@.wf(),
            out@ == old(out)@ + seq!['{'] + enc_payload_fields(model.subrange(0, i as int)),
        decreases p.fields@.len() - i,
    {
        if i > 0 {
            push_char(out, ',');
        }
        let kv = &p.fields[i];
        write_str(out, kv.0.as_str());
        push_char(out, ':');
        match &kv.1 {
            FieldVal::Single(v) => {
                proof {
                    assert(model[i as int].1.wf());
                }
                write_prim(out, v);
            },
            FieldVal::Items(v) => {
                proof {
                    assert(model[i as int] == (kv.0@, kv.1@));
                    assert(model[i as int].1.wf());
                    assert(kv.1@.wf());
                    let sv = v@.map_values(|q: Prim| q@);
                    assert(kv.1@ == FieldValV::Items(sv));
                    assert forall|j: int| 0 <= j < v@.len() implies (#[trigger] v@[j])@.wf() by {
                        assert((kv.1@)->Items_0[j].wf());
                        assert((kv.1@)->Items_0 == sv);
                        assert(sv[j] == v@[j]@);
                    }
                }
                write_prims(out, v);
            },
            FieldVal::Records(v) => {
                proof {
                    assert(model[i as int] == (kv.0@, kv.1@));
                    assert(model[i as int].1.wf());
                    assert(kv.1@.wf());
                    let sv = v@.map_values(|q: Rec| q@);
                    assert(kv.1@ == FieldValV::Records(sv));
                    assert forall|j: int| 0 <= j < v@.len() implies (#[trigger] v@[j])@.wf() by {
                        assert((kv.1@)->Records_0[j].wf());
                        assert((kv.1@)->Records_0 == sv);
                        assert(sv[j] == v@[j]@);
                    }
                }
                write_recs(out, v);
            },
            FieldVal::Foreign => {
                proof {
                    assert(model[i as int] == (kv.0@, kv.1@));
                    assert(model[i as int].1.wf());
                    assert(false);
                }
            },
        }
        proof {
            let pre = model.subrange(0, i as int);
            let post = model.subrange(0, i + 1 as int);
            assert(post.drop_last() =~= pre);
            assert(post.last() == model[i as int]);
        }
        i = i + 1;
    }
    proof {
        assert(model.subrange(0, p.fields@.len() as int) =~= model);
    }
    push_char(out, '}');
    proof {
        assert(final(out)@ =~= old(out)@ + enc_payload(p@));
    }
}

/// Builds the wire text of one request envelope.
pub fn encode_request(method: &str, params: &Payload, id: u64) -> (r: String)
    requires
        params@.wf(),
    ensures
        r@ == enc_request(method@, params@, id as int),
{
    let mut out = String::new();
    out.append("{\"method\":");
    write_str(&mut out, method);
    out.append(",\"params\":");
    write_payload(&mut out, params);
    out.append(",\"jsonrpc\":\"2.0\",\"id\":");
    write_dec(&mut out, id);
    push_char(&mut out, '}');
    proof {
        assert(out@ =~= enc_request(method@, params@, id as int));
    }
    out
}

} // verus!

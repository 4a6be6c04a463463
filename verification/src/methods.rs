//! The typed method surface: parameter and reply shapes for the remote
//! procedures, and one thin request binding per procedure.
//!
//! Every binding forwards to the one generic pipeline in [`crate::client`];
//! a new procedure needs only its wire name, a parameter shape and a reply
//! shape.  Field names match the remote service's capitalization exactly.

use vstd::prelude::*;
use crate::client::{LitRpcClient, ParamShape, ReplyShape};
use crate::decode::{pay_lookup, pay_find, recs_dup};
use crate::json::{Entry, EntryV, FieldVal, FieldValV, Payload, PayloadV, Prim, PrimV, Rec, RecV};

verus! {

// Reading typed fields off a payload object.

/// The string under `k`, if `k` holds a string.
pub open spec fn pv_str(p: PayloadV, k: Seq<char>) -> Option<Seq<char>> {
    match pay_lookup(p.fields, k) {
        Some(FieldValV::Single(PrimV::Str(s))) => Some(s),
        _ => None,
    }
}

/// The integer under `k`, if `k` holds an integer.
pub open spec fn pv_int(p: PayloadV, k: Seq<char>) -> Option<int> {
    match pay_lookup(p.fields, k) {
        Some(FieldValV::Single(PrimV::Int(i))) => Some(i),
        _ => None,
    }
}

/// The integer under `k`, if it fits an unsigned 64-bit value.
pub open spec fn pv_u64(p: PayloadV, k: Seq<char>) -> Option<int> {
    match pv_int(p, k) {
        Some(i) => if 0 <= i <= 0xffff_ffff_ffff_ffff {
            Some(i)
        } else {
            None
        },
        None => None,
    }
}

/// The integer under `k`, if it fits a signed 64-bit value.
pub open spec fn pv_i64(p: PayloadV, k: Seq<char>) -> Option<int> {
    match pv_int(p, k) {
        Some(i) => if -0x8000_0000_0000_0000 <= i <= 0x7fff_ffff_ffff_ffff {
            Some(i)
        } else {
            None
        },
        None => None,
    }
}

/// Whether every scalar of a list is a string.
pub open spec fn all_strs(s: Seq<PrimV>) -> bool {
    forall|i: int| 0 <= i < s.len() ==> (#[trigger] s[i]) is Str
}

/// The string list under `k`, if `k` holds a list of strings.
pub open spec fn pv_strs(p: PayloadV, k: Seq<char>) -> Option<Seq<Seq<char>>> {
    match pay_lookup(p.fields, k) {
        Some(FieldValV::Items(s)) => if all_strs(s) {
            Some(s.map_values(|x: PrimV| x->Str_0))
        } else {
            None
        },
        _ => None,
    }
}

/// The record list under `k`; an empty scalar list reads as an empty record
/// list, since an empty wire list shows neither shape.
pub open spec fn pv_recs(p: PayloadV, k: Seq<char>) -> Option<Seq<RecV>> {
    match pay_lookup(p.fields, k) {
        Some(FieldValV::Records(rs)) => Some(rs),
        Some(FieldValV::Items(s)) => if s.len() == 0 {
            Some(Seq::empty())
        } else {
            None
        },
        _ => None,
    }
}

pub fn payload_str(p: &Payload, k: &str) -> (r: Option<String>)
    ensures
        match r {
            Some(s) => pv_str(p@, k@) == Some(s@),
            None => pv_str(p@, k@) is None,
        },
{
    match pay_find(p, k) {
        Some(FieldVal::Single(Prim::Str(s))) => Some(s.clone()),
        _ => None,
    }
}

pub fn payload_u64(p: &Payload, k: &str) -> (r: Option<u64>)
    ensures
        match r {
            Some(v) => pv_u64(p@, k@) == Some(v as int),
            None => pv_u64(p@, k@) is None,
        },
{
    match pay_find(p, k) {
        Some(FieldVal::Single(Prim::Int(i))) => {
            if 0 <= *i && *i <= 0xffff_ffff_ffff_ffffi128 {
                Some(*i as u64)
            } else {
                None
            }
        },
        _ => None,
    }
}

pub fn payload_i64(p: &Payload, k: &str) -> (r: Option<i64>)
    ensures
        match r {
            Some(v) => pv_i64(p@, k@) == Some(v as int),
            None => pv_i64(p@, k@) is None,
        },
{
    match pay_find(p, k) {
        Some(FieldVal::Single(Prim::Int(i))) => {
            if -0x8000_0000_0000_0000i128 <= *i && *i <= 0x7fff_ffff_ffff_ffffi128 {
                Some(*i as i64)
            } else {
                None
            }
        },
        _ => None,
    }
}

pub fn payload_strs(p: &Payload, k: &str) -> (r: Option<Vec<String>>)
    ensures
        match r {
            Some(v) => pv_strs(p@, k@) == Some(v@.map_values(|s: String| s@)),
            None => pv_strs(p@, k@) is None,
        },
{
    let found = pay_find(p, k);
    match found {
        Some(fv) => match fv {
            FieldVal::Items(items) => {
                let ghost model = items@.map_values(|x: Prim| x@);
                proof {
                    assert(pay_lookup(p@.fields, k@) == Some(fv@));
                    assert(fv@ == FieldValV::Items(model));
                }
            let mut out: Vec<String> = Vec::new();
            let mut i: usize = 0;
            while i < items.len()
                invariant
                    i <= items@.len(),
                    model == items@.map_values(|x: Prim| x@),
                    pay_lookup(p@.fields, k@) == Some(FieldValV::Items(model)),
                    out@.len() == i,
                    forall|j: int| 0 <= j < i ==> (#[trigger] model[j]) is Str,
                    forall|j: int| 0 <= j < i ==> (#[trigger] out@[j])@ == model[j]->Str_0,
                decreases items@.len() - i,
            {
                match &items[i] {
                    Prim::Str(s) => {
                        out.push(s.clone());
                    },
                    _ => {
                        proof {
                            assert(!all_strs(model)) by {
                                assert(!((model[i as int]) is Str));
                            }
                        }
                        return None;
                    },
                }
                i = i + 1;
            }
            proof {
                assert(out@.map_values(|s: String| s@) =~= model.map_values(
                    |x: PrimV| x->Str_0,
                ));
            }
            Some(out)
            },
            _ => None,
        },
        _ => None,
    }
}

pub fn payload_recs(p: &Payload, k: &str) -> (r: Option<Vec<Rec>>)
    ensures
        match r {
            Some(v) => pv_recs(p@, k@) == Some(v@.map_values(|x: Rec| x@)),
            None => pv_recs(p@, k@) is None,
        },
{
    match pay_find(p, k) {
        Some(FieldVal::Records(rs)) => Some(recs_dup(rs)),
        Some(FieldVal::Items(items)) => {
            if items.len() == 0 {
                let out: Vec<Rec> = Vec::new();
                proof {
                    assert(out@.map_values(|x: Rec| x@) =~= Seq::<RecV>::empty());
                }
                Some(out)
            } else {
                None
            }
        },
        _ => None,
    }
}

// Reading typed fields off a record.

/// The first value under key `k` among a record's fields.
pub open spec fn rec_lookup(fs: Seq<(Seq<char>, EntryV)>, k: Seq<char>) -> Option<EntryV>
    decreases fs.len(),
{
    if fs.len() == 0 {
        None
    } else if fs[0].0 == k {
        Some(fs[0].1)
    } else {
        rec_lookup(fs.drop_first(), k)
    }
}

pub open spec fn rv_str(r: RecV, k: Seq<char>) -> Option<Seq<char>> {
    match rec_lookup(r.fields, k) {
        Some(EntryV::Single(PrimV::Str(s))) => Some(s),
        _ => None,
    }
}

pub open spec fn rv_bool(r: RecV, k: Seq<char>) -> Option<bool> {
    match rec_lookup(r.fields, k) {
        Some(EntryV::Single(PrimV::Bool(b))) => Some(b),
        _ => None,
    }
}

pub open spec fn rv_int(r: RecV, k: Seq<char>) -> Option<int> {
    match rec_lookup(r.fields, k) {
        Some(EntryV::Single(PrimV::Int(i))) => Some(i),
        _ => None,
    }
}

pub open spec fn rv_bounded(r: RecV, k: Seq<char>, lo: int, hi: int) -> Option<int> {
    match rv_int(r, k) {
        Some(i) => if lo <= i <= hi {
            Some(i)
        } else {
            None
        },
        None => None,
    }
}

/// Whether every scalar of a list is an integer in byte range.
pub open spec fn all_bytes(s: Seq<PrimV>) -> bool {
    forall|i: int| 0 <= i < s.len() ==> (#[trigger] s[i]) is Int && 0 <= s[i]->Int_0 <= 255
}

/// The byte list under `k`, if `k` holds a list of integers that are bytes.
pub open spec fn rv_bytes(r: RecV, k: Seq<char>) -> Option<Seq<u8>> {
    match rec_lookup(r.fields, k) {
        Some(EntryV::List(s)) => if all_bytes(s) {
            Some(s.map_values(|x: PrimV| x->Int_0 as u8))
        } else {
            None
        },
        _ => None,
    }
}

/// The first value under key `k` of a record, by reference.
fn rec_find<'a>(r: &'a Rec, k: &str) -> (o: Option<&'a Entry>)
    ensures
        match o {
            Some(v) => rec_lookup(r@.fields, k@) == Some(v@),
            None => rec_lookup(r@.fields, k@) is None,
        },
{
    let ghost model = r@.fields;
    proof {
        assert(model.skip(0) =~= model);
    }
    let mut i: usize = 0;
    while i < r.fields.len()
        invariant
            i <= r.fields@.len(),
            model == r@.fields,
            rec_lookup(model, k@) == rec_lookup(model.skip(i as int), k@),
        decreases r.fields@.len() - i,
    {
        if crate::text::eq_str(r.fields[i].0.as_str(), k) {
            proof {
                assert(model.skip(i as int)[0] == model[i as int]);
            }
            return Some(&r.fields[i].1);
        }
        proof {
            assert(model.skip(i as int)[0] == model[i as int]);
            assert(model.skip(i as int).drop_first() =~= model.skip(i as int + 1));
        }
        i = i + 1;
    }
    proof {
        assert(model.skip(i as int) =~= Seq::<(Seq<char>, EntryV)>::empty());
    }
    None
}

pub fn rec_str(r: &Rec, k: &str) -> (o: Option<String>)
    ensures
        match o {
            Some(s) => rv_str(r@, k@) == Some(s@),
            None => rv_str(r@, k@) is None,
        },
{
    match rec_find(r, k) {
        Some(Entry::Single(Prim::Str(s))) => Some(s.clone()),
        _ => None,
    }
}

pub fn rec_bool(r: &Rec, k: &str) -> (o: Option<bool>)
    ensures
        match o {
            Some(b) => rv_bool(r@, k@) == Some(b),
            None => rv_bool(r@, k@) is None,
        },
{
    match rec_find(r, k) {
        Some(Entry::Single(Prim::Bool(b))) => Some(*b),
        _ => None,
    }
}

pub fn rec_u32(r: &Rec, k: &str) -> (o: Option<u32>)
    ensures
        match o {
            Some(v) => rv_bounded(r@, k@, 0, 0xffff_ffff) == Some(v as int),
            None => rv_bounded(r@, k@, 0, 0xffff_ffff) is None,
        },
{
    match rec_find(r, k) {
        Some(Entry::Single(Prim::Int(i))) => {
            if 0 <= *i && *i <= 0xffff_ffffi128 {
                Some(*i as u32)
            } else {
                None
            }
        },
        _ => None,
    }
}

pub fn rec_i32(r: &Rec, k: &str) -> (o: Option<i32>)
    ensures
        match o {
            Some(v) => rv_bounded(r@, k@, -0x8000_0000, 0x7fff_ffff) == Some(v as int),
            None => rv_bounded(r@, k@, -0x8000_0000, 0x7fff_ffff) is None,
        },
{
    match rec_find(r, k) {
        Some(Entry::Single(Prim::Int(i))) => {
            if -0x8000_0000i128 <= *i && *i <= 0x7fff_ffffi128 {
                Some(*i as i32)
            } else {
                None
            }
        },
        _ => None,
    }
}

pub fn rec_i64(r: &Rec, k: &str) -> (o: Option<i64>)
    ensures
        match o {
            Some(v) => rv_bounded(r@, k@, -0x8000_0000_0000_0000, 0x7fff_ffff_ffff_ffff) == Some(
                v as int,
            ),
            None => rv_bounded(r@, k@, -0x8000_0000_0000_0000, 0x7fff_ffff_ffff_ffff) is None,
        },
{
    match rec_find(r, k) {
        Some(Entry::Single(Prim::Int(i))) => {
            if -0x8000_0000_0000_0000i128 <= *i && *i <= 0x7fff_ffff_ffff_ffffi128 {
                Some(*i as i64)
            } else {
                None
            }
        },
        _ => None,
    }
}

pub fn rec_bytes(r: &Rec, k: &str) -> (o: Option<Vec<u8>>)
    ensures
        match o {
            Some(v) => rv_bytes(r@, k@) == Some(v@),
            None => rv_bytes(r@, k@) is None,
        },
{
    let found = rec_find(r, k);
    match found {
        Some(fv) => match fv {
            Entry::List(items) => {
            let ghost model = items@.map_values(|x: Prim| x@);
            proof {
                assert(rec_lookup(r@.fields, k@) == Some(fv@));
                assert(fv@ == EntryV::List(model));
            }
            let mut out: Vec<u8> = Vec::new();
            let mut i: usize = 0;
            while i < items.len()
                invariant
                    i <= items@.len(),
                    model == items@.map_values(|x: Prim| x@),
                    rec_lookup(r@.fields, k@) == Some(EntryV::List(model)),
                    out@.len() == i,
                    forall|j: int|
                        0 <= j < i ==> (#[trigger] model[j]) is Int && 0 <= model[j]->Int_0 <= 255,
                    forall|j: int| 0 <= j < i ==> (#[trigger] out@[j]) == model[j]->Int_0 as u8,
                decreases items@.len() - i,
            {
                match &items[i] {
                    Prim::Int(b) => {
                        if 0 <= *b && *b <= 255i128 {
                            out.push(*b as u8);
                        } else {
                            proof {
                                assert(!all_bytes(model)) by {
                                    assert((model[i as int]) is Int && !(0 <= model[i as
                                        int]->Int_0 <= 255));
                                }
                            }
                            return None;
                        }
                    },
                    _ => {
                        proof {
                            assert(!all_bytes(model)) by {
                                assert(!((model[i as int]) is Int));
                            }
                        }
                        return None;
                    },
                }
                i = i + 1;
            }
            proof {
                assert(out@ =~= model.map_values(|x: PrimV| x->Int_0 as u8));
            }
            Some(out)
            },
            _ => None,
        },
        _ => None,
    }
}

} // verus!

// The records the service's list results are made of.

verus! {

pub open spec fn rv_u32(r: RecV, k: Seq<char>) -> Option<int> {
    rv_bounded(r, k, 0, 0xffff_ffff)
}

pub open spec fn rv_i32(r: RecV, k: Seq<char>) -> Option<int> {
    rv_bounded(r, k, -0x8000_0000, 0x7fff_ffff)
}

pub open spec fn rv_i64(r: RecV, k: Seq<char>) -> Option<int> {
    rv_bounded(r, k, -0x8000_0000_0000_0000, 0x7fff_ffff_ffff_ffff)
}

/// A typed record shape: a value readable off one flat wire record.
pub trait RecShape: Sized {
    /// Whether the record has every field the shape requires, with the
    /// required types and ranges.
    spec fn rec_ok(r: RecV) -> bool;

    /// Whether `x` carries exactly the record's field values.
    spec fn rec_sat(r: RecV, x: &Self) -> bool;

    /// Reads the shape off a record: a value exactly when the record has the
    /// shape, and then the value the record dictates.
    fn from_rec(r: &Rec) -> (o: Option<Self>)
        ensures
            o is Some <==> Self::rec_ok(r@),
            o matches Some(x) ==> Self::rec_sat(r@, &x),
    ;
}

/// Whether every record of a list has the shape `T`.
pub open spec fn recs_ok<T: RecShape>(rs: Seq<RecV>) -> bool {
    forall|i: int| 0 <= i < rs.len() ==> #[trigger] T::rec_ok(rs[i])
}

/// Whether `v` carries exactly the records of `rs`, element for element.
pub open spec fn recs_sat<T: RecShape>(rs: Seq<RecV>, v: Seq<T>) -> bool {
    v.len() == rs.len() && forall|i: int| 0 <= i < rs.len() ==> #[trigger] T::rec_sat(rs[i], &v[i])
}

/// Reads a whole record list into typed values: a vector exactly when every
/// record has the shape.
pub fn recs_from<T: RecShape>(rs: &Vec<Rec>) -> (o: Option<Vec<T>>)
    ensures
        match o {
            Some(v) => recs_ok::<T>(rs@.map_values(|x: Rec| x@)) && recs_sat::<T>(
                rs@.map_values(|x: Rec| x@),
                v@,
            ),
            None => !recs_ok::<T>(rs@.map_values(|x: Rec| x@)),
        },
{
    let ghost model = rs@.map_values(|x: Rec| x@);
    let mut out: Vec<T> = Vec::new();
    let mut i: usize = 0;
    while i < rs.len()
        invariant
            i <= rs@.len(),
            model == rs@.map_values(|x: Rec| x@),
            out@.len() == i,
            forall|j: int| 0 <= j < i ==> #[trigger] T::rec_ok(model[j]),
            forall|j: int| 0 <= j < i ==> #[trigger] T::rec_sat(model[j], &out@[j]),
        decreases rs@.len() - i,
    {
        match T::from_rec(&rs[i]) {
            Some(x) => {
                out.push(x);
            },
            None => {
                proof {
                    assert(!recs_ok::<T>(model)) by {
                        assert(!T::rec_ok(model[i as int]));
                    }
                }
                return None;
            },
        }
        i = i + 1;
    }
    Some(out)
}

/// One coin type's balances, as the wallet reports them.
#[allow(non_snake_case)]
#[derive(Clone, Copy, Debug, PartialEq, Eq, Structural)]
pub struct CoinBalInfo {
    pub CoinType: u32,
    pub SyncHeight: i32,
    pub ChanTotal: i64,
    pub TxoTotal: i64,
    pub MatureWitty: i64,
    pub FeeRate: i64,
}

impl RecShape for CoinBalInfo {
    open spec fn rec_ok(r: RecV) -> bool {
        &&& rv_u32(r, "CoinType"@) is Some
        &&& rv_i32(r, "SyncHeight"@) is Some
        &&& rv_i64(r, "ChanTotal"@) is Some
        &&& rv_i64(r, "TxoTotal"@) is Some
        &&& rv_i64(r, "MatureWitty"@) is Some
        &&& rv_i64(r, "FeeRate"@) is Some
    }

    open spec fn rec_sat(r: RecV, x: &Self) -> bool {
        &&& rv_u32(r, "CoinType"@) == Some(x.CoinType as int)
        &&& rv_i32(r, "SyncHeight"@) == Some(x.SyncHeight as int)
        &&& rv_i64(r, "ChanTotal"@) == Some(x.ChanTotal as int)
        &&& rv_i64(r, "TxoTotal"@) == Some(x.TxoTotal as int)
        &&& rv_i64(r, "MatureWitty"@) == Some(x.MatureWitty as int)
        &&& rv_i64(r, "FeeRate"@) == Some(x.FeeRate as int)
    }

    fn from_rec(r: &Rec) -> (o: Option<Self>) {
        let CoinType = match rec_u32(r, "CoinType") {
            Some(v) => v,
            None => {
                return None;
            },
        };
        let SyncHeight = match rec_i32(r, "SyncHeight") {
            Some(v) => v,
            None => {
                return None;
            },
        };
        let ChanTotal = match rec_i64(r, "ChanTotal") {
            Some(v) => v,
            None => {
                return None;
            },
        };
        let TxoTotal = match rec_i64(r, "TxoTotal") {
            Some(v) => v,
            None => {
                return None;
            },
        };
        let MatureWitty = match rec_i64(r, "MatureWitty") {
            Some(v) => v,
            None => {
                return None;
            },
        };
        let FeeRate = match rec_i64(r, "FeeRate") {
            Some(v) => v,
            None => {
                return None;
            },
        };
        Some(CoinBalInfo { CoinType, SyncHeight, ChanTotal, TxoTotal, MatureWitty, FeeRate })
    }
}

/// One peer connection.
#[allow(non_snake_case)]
#[derive(Clone, Debug)]
pub struct ConInfo {
    pub PeerNumber: u32,
    pub RemoteHost: String,
}

impl RecShape for ConInfo {
    open spec fn rec_ok(r: RecV) -> bool {
        &&& rv_u32(r, "PeerNumber"@) is Some
        &&& rv_str(r, "RemoteHost"@) is Some
    }

    open spec fn rec_sat(r: RecV, x: &Self) -> bool {
        &&& rv_u32(r, "PeerNumber"@) == Some(x.PeerNumber as int)
        &&& rv_str(r, "RemoteHost"@) == Some(x.RemoteHost@)
    }

    fn from_rec(r: &Rec) -> (o: Option<Self>) {
        let PeerNumber = match rec_u32(r, "PeerNumber") {
            Some(v) => v,
            None => {
                return None;
            },
        };
        let RemoteHost = match rec_str(r, "RemoteHost") {
            Some(v) => v,
            None => {
                return None;
            },
        };
        Some(ConInfo { PeerNumber, RemoteHost })
    }
}

/// One payment channel.  `Data` and `Pkh` are fixed-length byte sequences on
/// the wire (32 and 20 bytes), carried here as vectors of that length.
#[allow(non_snake_case)]
#[derive(Clone, Debug)]
pub struct ChanInfo {
    pub OutPoint: String,
    pub CoinType: u32,
    pub Closed: bool,
    pub Capacity: i64,
    pub MyBalance: i64,
    pub Height: i32,
    pub StateNum: i64,
    pub PeerIdx: u32,
    pub CIdx: u32,
    pub Data: Vec<u8>,
    pub Pkh: Vec<u8>,
}

impl RecShape for ChanInfo {
    open spec fn rec_ok(r: RecV) -> bool {
        &&& rv_str(r, "OutPoint"@) is Some
        &&& rv_u32(r, "CoinType"@) is Some
        &&& rv_bool(r, "Closed"@) is Some
        &&& rv_i64(r, "Capacity"@) is Some
        &&& rv_i64(r, "MyBalance"@) is Some
        &&& rv_i32(r, "Height"@) is Some
        &&& rv_i64(r, "StateNum"@) is Some
        &&& rv_u32(r, "PeerIdx"@) is Some
        &&& rv_u32(r, "CIdx"@) is Some
        &&& rv_bytes(r, "Data"@) matches Some(d) && d.len() == 32
        &&& rv_bytes(r, "Pkh"@) matches Some(h) && h.len() == 20
    }

    open spec fn rec_sat(r: RecV, x: &Self) -> bool {
        &&& rv_str(r, "OutPoint"@) == Some(x.OutPoint@)
        &&& rv_u32(r, "CoinType"@) == Some(x.CoinType as int)
        &&& rv_bool(r, "Closed"@) == Some(x.Closed)
        &&& rv_i64(r, "Capacity"@) == Some(x.Capacity as int)
        &&& rv_i64(r, "MyBalance"@) == Some(x.MyBalance as int)
        &&& rv_i32(r, "Height"@) == Some(x.Height as int)
        &&& rv_i64(r, "StateNum"@) == Some(x.StateNum as int)
        &&& rv_u32(r, "PeerIdx"@) == Some(x.PeerIdx as int)
        &&& rv_u32(r, "CIdx"@) == Some(x.CIdx as int)
        &&& rv_bytes(r, "Data"@) == Some(x.Data@)
        &&& rv_bytes(r, "Pkh"@) == Some(x.Pkh@)
    }

    fn from_rec(r: &Rec) -> (o: Option<Self>) {
        let OutPoint = match rec_str(r, "OutPoint") {
            Some(v) => v,
            None => {
                return None;
            },
        };
        let CoinType = match rec_u32(r, "CoinType") {
            Some(v) => v,
            None => {
                return None;
            },
        };
        let Closed = match rec_bool(r, "Closed") {
            Some(v) => v,
            None => {
                return None;
            },
        };
        let Capacity = match rec_i64(r, "Capacity") {
            Some(v) => v,
            None => {
                return None;
            },
        };
        let MyBalance = match rec_i64(r, "MyBalance") {
            Some(v) => v,
            None => {
                return None;
            },
        };
        let Height = match rec_i32(r, "Height") {
            Some(v) => v,
            None => {
                return None;
            },
        };
        let StateNum = match rec_i64(r, "StateNum") {
            Some(v) => v,
            None => {
                return None;
            },
        };
        let PeerIdx = match rec_u32(r, "PeerIdx") {
            Some(v) => v,
            None => {
                return None;
            },
        };
        let CIdx = match rec_u32(r, "CIdx") {
            Some(v) => v,
            None => {
                return None;
            },
        };
        let Data = match rec_bytes(r, "Data") {
            Some(v) => v,
            None => {
                return None;
            },
        };
        if Data.len() != 32 {
            return None;
        }
        let Pkh = match rec_bytes(r, "Pkh") {
            Some(v) => v,
            None => {
                return None;
            },
        };
        if Pkh.len() != 20 {
            return None;
        }
        Some(
            ChanInfo {
                OutPoint,
                CoinType,
                Closed,
                Capacity,
                MyBalance,
                Height,
                StateNum,
                PeerIdx,
                CIdx,
                Data,
                Pkh,
            },
        )
    }
}

/// One spendable transaction output.
#[allow(non_snake_case)]
#[derive(Clone, Debug)]
pub struct TxoInfo {
    pub OutPoint: String,
    pub Amt: i64,
    pub Height: i32,
    pub Delay: i32,
    pub CoinType: String,
    pub Witty: bool,
    pub KeyPath: String,
}

impl RecShape for TxoInfo {
    open spec fn rec_ok(r: RecV) -> bool {
        &&& rv_str(r, "OutPoint"@) is Some
        &&& rv_i64(r, "Amt"@) is Some
        &&& rv_i32(r, "Height"@) is Some
        &&& rv_i32(r, "Delay"@) is Some
        &&& rv_str(r, "CoinType"@) is Some
        &&& rv_bool(r, "Witty"@) is Some
        &&& rv_str(r, "KeyPath"@) is Some
    }

    open spec fn rec_sat(r: RecV, x: &Self) -> bool {
        &&& rv_str(r, "OutPoint"@) == Some(x.OutPoint@)
        &&& rv_i64(r, "Amt"@) == Some(x.Amt as int)
        &&& rv_i32(r, "Height"@) == Some(x.Height as int)
        &&& rv_i32(r, "Delay"@) == Some(x.Delay as int)
        &&& rv_str(r, "CoinType"@) == Some(x.CoinType@)
        &&& rv_bool(r, "Witty"@) == Some(x.Witty)
        &&& rv_str(r, "KeyPath"@) == Some(x.KeyPath@)
    }

    fn from_rec(r: &Rec) -> (o: Option<Self>) {
        let OutPoint = match rec_str(r, "OutPoint") {
            Some(v) => v,
            None => {
                return None;
            },
        };
        let Amt = match rec_i64(r, "Amt") {
            Some(v) => v,
            None => {
                return None;
            },
        };
        let Height = match rec_i32(r, "Height") {
            Some(v) => v,
            None => {
                return None;
            },
        };
        let Delay = match rec_i32(r, "Delay") {
            Some(v) => v,
            None => {
                return None;
            },
        };
        let CoinType = match rec_str(r, "CoinType") {
            Some(v) => v,
            None => {
                return None;
            },
        };
        let Witty = match rec_bool(r, "Witty") {
            Some(v) => v,
            None => {
                return None;
            },
        };
        let KeyPath = match rec_str(r, "KeyPath") {
            Some(v) => v,
            None => {
                return None;
            },
        };
        Some(TxoInfo { OutPoint, Amt, Height, Delay, CoinType, Witty, KeyPath })
    }
}

/// One private key record of a wallet dump.
#[allow(non_snake_case)]
#[derive(Clone, Debug)]
pub struct PrivInfo {
    pub OutPoint: String,
    pub Amt: i64,
    pub Height: i32,
    pub Delay: i32,
    pub CoinType: String,
    pub Witty: bool,
    pub PairKey: String,
    pub WIF: String,
}

impl RecShape for PrivInfo {
    open spec fn rec_ok(r: RecV) -> bool {
        &&& rv_str(r, "OutPoint"@) is Some
        &&& rv_i64(r, "Amt"@) is Some
        &&& rv_i32(r, "Height"@) is Some
        &&& rv_i32(r, "Delay"@) is Some
        &&& rv_str(r, "CoinType"@) is Some
        &&& rv_bool(r, "Witty"@) is Some
        &&& rv_str(r, "PairKey"@) is Some
        &&& rv_str(r, "WIF"@) is Some
    }

    open spec fn rec_sat(r: RecV, x: &Self) -> bool {
        &&& rv_str(r, "OutPoint"@) == Some(x.OutPoint@)
        &&& rv_i64(r, "Amt"@) == Some(x.Amt as int)
        &&& rv_i32(r, "Height"@) == Some(x.Height as int)
        &&& rv_i32(r, "Delay"@) == Some(x.Delay as int)
        &&& rv_str(r, "CoinType"@) == Some(x.CoinType@)
        &&& rv_bool(r, "Witty"@) == Some(x.Witty)
        &&& rv_str(r, "PairKey"@) == Some(x.PairKey@)
        &&& rv_str(r, "WIF"@) == Some(x.WIF@)
    }

    fn from_rec(r: &Rec) -> (o: Option<Self>) {
        let OutPoint = match rec_str(r, "OutPoint") {
            Some(v) => v,
            None => {
                return None;
            },
        };
        let Amt = match rec_i64(r, "Amt") {
            Some(v) => v,
            None => {
                return None;
            },
        };
        let Height = match rec_i32(r, "Height") {
            Some(v) => v,
            None => {
                return None;
            },
        };
        let Delay = match rec_i32(r, "Delay") {
            Some(v) => v,
            None => {
                return None;
            },
        };
        let CoinType = match rec_str(r, "CoinType") {
            Some(v) => v,
            None => {
                return None;
            },
        };
        let Witty = match rec_bool(r, "Witty") {
            Some(v) => v,
            None => {
                return None;
            },
        };
        let PairKey = match rec_str(r, "PairKey") {
            Some(v) => v,
            None => {
                return None;
            },
        };
        let WIF = match rec_str(r, "WIF") {
            Some(v) => v,
            None => {
                return None;
            },
        };
        Some(PrivInfo { OutPoint, Amt, Height, Delay, CoinType, Witty, PairKey, WIF })
    }
}

} // verus!

// The reply shapes of the typed method surface.

verus! {

/// The service's plain acknowledgement.
#[allow(non_snake_case)]
#[derive(Clone, Debug)]
pub struct StatusReply {
    pub Status: String,
}

impl ReplyShape for StatusReply {
    open spec fn wire_of(x: &Self) -> PayloadV {
        PayloadV { fields: seq![("Status"@, FieldValV::Single(PrimV::Str(x.Status@)))] }
    }

    open spec fn canonical(x: &Self) -> bool {
        true
    }

    open spec fn eqv(x: &Self, y: &Self) -> bool {
        x.Status@ == y.Status@
    }

    proof fn round_trip(x: &Self, y: &Self) {
        let p = Self::wire_of(x);
        assert(pay_lookup(p.fields, "Status"@) == Some(p.fields[0].1));
    }


    open spec fn wire_ok(p: PayloadV) -> bool {
        pv_str(p, "Status"@) is Some
    }

    open spec fn wire_sat(p: PayloadV, x: &Self) -> bool {
        pv_str(p, "Status"@) == Some(x.Status@)
    }

    fn from_payload(p: &Payload) -> (r: Option<Self>) {
        match payload_str(p, "Status") {
            Some(s) => Some(StatusReply { Status: s }),
            None => None,
        }
    }
}

impl StatusReply {
    /// The reply as one line, in place of a `Debug`/`Display` rendering.
    pub fn status_line(&self) -> (r: String)
        ensures
            r@ == "status: "@ + self.Status@,
    {
        let mut out = String::new();
        vstd::string::StringExecFns::append(&mut out, "status: ");
        vstd::string::StringExecFns::append(&mut out, self.Status.as_str());
        out
    }
}

/// The ports the node listens on, and its own address.
#[allow(non_snake_case)]
#[derive(Clone, Debug)]
pub struct ListeningPortsReply {
    pub LisIpPorts: Vec<String>,
    pub Adr: String,
}

impl ReplyShape for ListeningPortsReply {
    open spec fn wire_of(x: &Self) -> PayloadV {
        PayloadV {
            fields: seq![
                ("LisIpPorts"@, FieldValV::Items(
                    x.LisIpPorts@.map_values(|s: String| PrimV::Str(s@)),
                )),
                ("Adr"@, FieldValV::Single(PrimV::Str(x.Adr@))),
            ],
        }
    }

    open spec fn canonical(x: &Self) -> bool {
        true
    }

    open spec fn eqv(x: &Self, y: &Self) -> bool {
        &&& x.LisIpPorts@.map_values(|s: String| s@) == y.LisIpPorts@.map_values(|s: String| s@)
        &&& x.Adr@ == y.Adr@
    }

    proof fn round_trip(x: &Self, y: &Self) {
        reveal_strlit("LisIpPorts");
        reveal_strlit("Adr");
        assert("LisIpPorts"@.len() == 10);
        assert("Adr"@.len() == 3);
        let p = Self::wire_of(x);
        let fs = p.fields;
        let d1 = fs.drop_first();
        assert(d1[0] == fs[1]);
        assert(pay_lookup(fs, "LisIpPorts"@) == Some(fs[0].1));
        assert(pay_lookup(fs, "Adr"@) == pay_lookup(d1, "Adr"@));
        assert(pay_lookup(d1, "Adr"@) == Some(fs[1].1));
        let lisipports_model = x.LisIpPorts@.map_values(|s: String| PrimV::Str(s@));
        assert(all_strs(lisipports_model)) by {
            assert forall|i: int|
                0 <= i < lisipports_model.len() implies (#[trigger] lisipports_model[i])
                is Str by {
                assert(lisipports_model[i] == PrimV::Str(x.LisIpPorts@[i]@));
            }
        }
        assert(lisipports_model.map_values(|q: PrimV| q->Str_0) =~= x.LisIpPorts@.map_values(
            |s: String| s@,
        ));
    }


    open spec fn wire_ok(p: PayloadV) -> bool {
        &&& pv_strs(p, "LisIpPorts"@) is Some
        &&& pv_str(p, "Adr"@) is Some
    }

    open spec fn wire_sat(p: PayloadV, x: &Self) -> bool {
        &&& pv_strs(p, "LisIpPorts"@) == Some(x.LisIpPorts@.map_values(|s: String| s@))
        &&& pv_str(p, "Adr"@) == Some(x.Adr@)
    }

    fn from_payload(p: &Payload) -> (r: Option<Self>) {
        let LisIpPorts = match payload_strs(p, "LisIpPorts") {
            Some(v) => v,
            None => {
                return None;
            },
        };
        let Adr = match payload_str(p, "Adr") {
            Some(v) => v,
            None => {
                return None;
            },
        };
        Some(ListeningPortsReply { LisIpPorts, Adr })
    }
}

/// The open peer connections, and the node's own public key hash.
#[allow(non_snake_case)]
#[derive(Clone, Debug)]
pub struct ListConnectionsReply {
    pub Connections: Vec<ConInfo>,
    pub MyPKH: String,
}

impl ReplyShape for ListConnectionsReply {
    open spec fn wire_of(x: &Self) -> PayloadV {
        PayloadV {
            fields: seq![
                ("Connections"@, FieldValV::Records(
                    x.Connections@.map_values(|b: ConInfo| con_record(b)),
                )),
                ("MyPKH"@, FieldValV::Single(PrimV::Str(x.MyPKH@))),
            ],
        }
    }

    open spec fn canonical(x: &Self) -> bool {
        true
    }

    open spec fn eqv(x: &Self, y: &Self) -> bool {
        &&& x.Connections@.len() == y.Connections@.len()
        &&& forall|i: int|
            0 <= i < x.Connections@.len() ==> #[trigger] con_eqv(x.Connections@[i], y.Connections@[i])
        &&& x.MyPKH@ == y.MyPKH@
    }

    proof fn round_trip(x: &Self, y: &Self) {
        let p = Self::wire_of(x);
        let rs = x.Connections@.map_values(|b: ConInfo| con_record(b));
        reveal_strlit("Connections");
        reveal_strlit("MyPKH");
        assert("Connections"@.len() == 11);
        assert("MyPKH"@.len() == 5);
        let d1 = p.fields.drop_first();
        assert(d1[0] == p.fields[1]);
        assert(pay_lookup(p.fields, "MyPKH"@) == pay_lookup(d1, "MyPKH"@));
        assert(pay_lookup(d1, "MyPKH"@) == Some(p.fields[1].1));
        assert(pay_lookup(p.fields, "Connections"@) == Some(p.fields[0].1));
        assert(pv_recs(p, "Connections"@) == Some(rs));
        assert forall|i: int| 0 <= i < rs.len() implies #[trigger] ConInfo::rec_ok(rs[i]) by {
            assert(rs[i] == con_record(x.Connections@[i]));
            lemma_con_record(x.Connections@[i], &x.Connections@[i]);
        }
        if Self::wire_sat(p, y) {
            assert forall|i: int|
                0 <= i < rs.len() implies #[trigger] con_eqv(x.Connections@[i], y.Connections@[i]) by {
                assert(ConInfo::rec_sat(rs[i], &y.Connections@[i]));
                assert(rs[i] == con_record(x.Connections@[i]));
                lemma_con_record(x.Connections@[i], &y.Connections@[i]);
            }
        }
    }


    open spec fn wire_ok(p: PayloadV) -> bool {
        &&& pv_recs(p, "Connections"@) matches Some(rs) && recs_ok::<ConInfo>(rs)
        &&& pv_str(p, "MyPKH"@) is Some
    }

    open spec fn wire_sat(p: PayloadV, x: &Self) -> bool {
        &&& pv_recs(p, "Connections"@) matches Some(rs) && recs_sat::<ConInfo>(rs, x.Connections@)
        &&& pv_str(p, "MyPKH"@) == Some(x.MyPKH@)
    }

    fn from_payload(p: &Payload) -> (r: Option<Self>) {
        let rs = match payload_recs(p, "Connections") {
            Some(v) => v,
            None => {
                return None;
            },
        };
        let Connections = match recs_from::<ConInfo>(&rs) {
            Some(v) => v,
            None => {
                return None;
            },
        };
        let MyPKH = match payload_str(p, "MyPKH") {
            Some(v) => v,
            None => {
                return None;
            },
        };
        Some(ListConnectionsReply { Connections, MyPKH })
    }
}

/// The channel listing.
#[allow(non_snake_case)]
#[derive(Clone, Debug)]
pub struct ChanListReply {
    pub Channels: Vec<ChanInfo>,
}

impl ReplyShape for ChanListReply {
    open spec fn wire_of(x: &Self) -> PayloadV {
        PayloadV {
            fields: seq![
                ("Channels"@, FieldValV::Records(
                    x.Channels@.map_values(|b: ChanInfo| chan_record(b)),
                )),
            ],
        }
    }

    open spec fn canonical(x: &Self) -> bool {
        forall|i: int|
            0 <= i < x.Channels@.len() ==> (#[trigger] x.Channels@[i]).Data@.len() == 32
                && x.Channels@[i].Pkh@.len() == 20
    }

    open spec fn eqv(x: &Self, y: &Self) -> bool {
        &&& x.Channels@.len() == y.Channels@.len()
        &&& forall|i: int|
            0 <= i < x.Channels@.len() ==> #[trigger] chan_eqv(x.Channels@[i], y.Channels@[i])
    }

    proof fn round_trip(x: &Self, y: &Self) {
        let p = Self::wire_of(x);
        let rs = x.Channels@.map_values(|b: ChanInfo| chan_record(b));
        assert(pay_lookup(p.fields, "Channels"@) == Some(p.fields[0].1));
        assert(pv_recs(p, "Channels"@) == Some(rs));
        if Self::canonical(x) {
            assert forall|i: int| 0 <= i < rs.len() implies #[trigger] ChanInfo::rec_ok(rs[i]) by {
                assert(rs[i] == chan_record(x.Channels@[i]));
                lemma_chan_record(x.Channels@[i], &x.Channels@[i]);
            }
        }
        if Self::wire_sat(p, y) {
            assert forall|i: int|
                0 <= i < rs.len() implies #[trigger] chan_eqv(x.Channels@[i], y.Channels@[i]) by {
                assert(ChanInfo::rec_sat(rs[i], &y.Channels@[i]));
                assert(rs[i] == chan_record(x.Channels@[i]));
                lemma_chan_record(x.Channels@[i], &y.Channels@[i]);
            }
        }
    }


    open spec fn wire_ok(p: PayloadV) -> bool {
        pv_recs(p, "Channels"@) matches Some(rs) && recs_ok::<ChanInfo>(rs)
    }

    open spec fn wire_sat(p: PayloadV, x: &Self) -> bool {
        pv_recs(p, "Channels"@) matches Some(rs) && recs_sat::<ChanInfo>(rs, x.Channels@)
    }

    fn from_payload(p: &Payload) -> (r: Option<Self>) {
        let rs = match payload_recs(p, "Channels") {
            Some(v) => v,
            None => {
                return None;
            },
        };
        match recs_from::<ChanInfo>(&rs) {
            Some(v) => Some(ChanListReply { Channels: v }),
            None => None,
        }
    }
}

/// The wallet's balances, one record per coin type.
#[allow(non_snake_case)]
#[derive(Clone, Debug)]
pub struct BalanceReply {
    pub Balances: Vec<CoinBalInfo>,
}

impl ReplyShape for BalanceReply {
    open spec fn wire_of(x: &Self) -> PayloadV {
        PayloadV {
            fields: seq![
                ("Balances"@, FieldValV::Records(
                    x.Balances@.map_values(|b: CoinBalInfo| bal_record(b)),
                )),
            ],
        }
    }

    open spec fn canonical(x: &Self) -> bool {
        true
    }

    open spec fn eqv(x: &Self, y: &Self) -> bool {
        x.Balances@ == y.Balances@
    }

    proof fn round_trip(x: &Self, y: &Self) {
        let p = Self::wire_of(x);
        let rs = x.Balances@.map_values(|b: CoinBalInfo| bal_record(b));
        assert(pay_lookup(p.fields, "Balances"@) == Some(p.fields[0].1));
        assert(pv_recs(p, "Balances"@) == Some(rs));
        assert forall|i: int| 0 <= i < rs.len() implies #[trigger] CoinBalInfo::rec_ok(rs[i]) by {
            assert(rs[i] == bal_record(x.Balances@[i]));
            lemma_bal_record(x.Balances@[i], &x.Balances@[i]);
        }
        if Self::wire_sat(p, y) {
            assert forall|i: int|
                0 <= i < rs.len() implies x.Balances@[i] == #[trigger] y.Balances@[i] by {
                assert(CoinBalInfo::rec_sat(rs[i], &y.Balances@[i]));
                assert(rs[i] == bal_record(x.Balances@[i]));
                lemma_bal_record(x.Balances@[i], &y.Balances@[i]);
            }
            assert(x.Balances@ =~= y.Balances@);
        }
    }


    open spec fn wire_ok(p: PayloadV) -> bool {
        pv_recs(p, "Balances"@) matches Some(rs) && recs_ok::<CoinBalInfo>(rs)
    }

    open spec fn wire_sat(p: PayloadV, x: &Self) -> bool {
        pv_recs(p, "Balances"@) matches Some(rs) && recs_sat::<CoinBalInfo>(rs, x.Balances@)
    }

    fn from_payload(p: &Payload) -> (r: Option<Self>) {
        let rs = match payload_recs(p, "Balances") {
            Some(v) => v,
            None => {
                return None;
            },
        };
        match recs_from::<CoinBalInfo>(&rs) {
            Some(v) => Some(BalanceReply { Balances: v }),
            None => None,
        }
    }
}

/// The spendable-output listing.
#[allow(non_snake_case)]
#[derive(Clone, Debug)]
pub struct TxoListReply {
    pub Txos: Vec<TxoInfo>,
}

impl ReplyShape for TxoListReply {
    open spec fn wire_of(x: &Self) -> PayloadV {
        PayloadV {
            fields: seq![
                ("Txos"@, FieldValV::Records(
                    x.Txos@.map_values(|b: TxoInfo| txo_record(b)),
                )),
            ],
        }
    }

    open spec fn canonical(x: &Self) -> bool {
        true
    }

    open spec fn eqv(x: &Self, y: &Self) -> bool {
        &&& x.Txos@.len() == y.Txos@.len()
        &&& forall|i: int|
            0 <= i < x.Txos@.len() ==> #[trigger] txo_eqv(x.Txos@[i], y.Txos@[i])
    }

    proof fn round_trip(x: &Self, y: &Self) {
        let p = Self::wire_of(x);
        let rs = x.Txos@.map_values(|b: TxoInfo| txo_record(b));
        assert(pay_lookup(p.fields, "Txos"@) == Some(p.fields[0].1));
        assert(pv_recs(p, "Txos"@) == Some(rs));
        assert forall|i: int| 0 <= i < rs.len() implies #[trigger] TxoInfo::rec_ok(rs[i]) by {
            assert(rs[i] == txo_record(x.Txos@[i]));
            lemma_txo_record(x.Txos@[i], &x.Txos@[i]);
        }
        if Self::wire_sat(p, y) {
            assert forall|i: int|
                0 <= i < rs.len() implies #[trigger] txo_eqv(x.Txos@[i], y.Txos@[i]) by {
                assert(TxoInfo::rec_sat(rs[i], &y.Txos@[i]));
                assert(rs[i] == txo_record(x.Txos@[i]));
                lemma_txo_record(x.Txos@[i], &y.Txos@[i]);
            }
        }
    }


    open spec fn wire_ok(p: PayloadV) -> bool {
        pv_recs(p, "Txos"@) matches Some(rs) && recs_ok::<TxoInfo>(rs)
    }

    open spec fn wire_sat(p: PayloadV, x: &Self) -> bool {
        pv_recs(p, "Txos"@) matches Some(rs) && recs_sat::<TxoInfo>(rs, x.Txos@)
    }

    fn from_payload(p: &Payload) -> (r: Option<Self>) {
        let rs = match payload_recs(p, "Txos") {
            Some(v) => v,
            None => {
                return None;
            },
        };
        match recs_from::<TxoInfo>(&rs) {
            Some(v) => Some(TxoListReply { Txos: v }),
            None => None,
        }
    }
}

/// The private-key dump.
#[allow(non_snake_case)]
#[derive(Clone, Debug)]
pub struct DumpPrivsReply {
    pub Privs: Vec<PrivInfo>,
}

impl ReplyShape for DumpPrivsReply {
    open spec fn wire_of(x: &Self) -> PayloadV {
        PayloadV {
            fields: seq![
                ("Privs"@, FieldValV::Records(
                    x.Privs@.map_values(|b: PrivInfo| priv_record(b)),
                )),
            ],
        }
    }

    open spec fn canonical(x: &Self) -> bool {
        true
    }

    open spec fn eqv(x: &Self, y: &Self) -> bool {
        &&& x.Privs@.len() == y.Privs@.len()
        &&& forall|i: int|
            0 <= i < x.Privs@.len() ==> #[trigger] priv_eqv(x.Privs@[i], y.Privs@[i])
    }

    proof fn round_trip(x: &Self, y: &Self) {
        let p = Self::wire_of(x);
        let rs = x.Privs@.map_values(|b: PrivInfo| priv_record(b));
        assert(pay_lookup(p.fields, "Privs"@) == Some(p.fields[0].1));
        assert(pv_recs(p, "Privs"@) == Some(rs));
        assert forall|i: int| 0 <= i < rs.len() implies #[trigger] PrivInfo::rec_ok(rs[i]) by {
            assert(rs[i] == priv_record(x.Privs@[i]));
            lemma_priv_record(x.Privs@[i], &x.Privs@[i]);
        }
        if Self::wire_sat(p, y) {
            assert forall|i: int|
                0 <= i < rs.len() implies #[trigger] priv_eqv(x.Privs@[i], y.Privs@[i]) by {
                assert(PrivInfo::rec_sat(rs[i], &y.Privs@[i]));
                assert(rs[i] == priv_record(x.Privs@[i]));
                lemma_priv_record(x.Privs@[i], &y.Privs@[i]);
            }
        }
    }


    open spec fn wire_ok(p: PayloadV) -> bool {
        pv_recs(p, "Privs"@) matches Some(rs) && recs_ok::<PrivInfo>(rs)
    }

    open spec fn wire_sat(p: PayloadV, x: &Self) -> bool {
        pv_recs(p, "Privs"@) matches Some(rs) && recs_sat::<PrivInfo>(rs, x.Privs@)
    }

    fn from_payload(p: &Payload) -> (r: Option<Self>) {
        let rs = match payload_recs(p, "Privs") {
            Some(v) => v,
            None => {
                return None;
            },
        };
        match recs_from::<PrivInfo>(&rs) {
            Some(v) => Some(DumpPrivsReply { Privs: v }),
            None => None,
        }
    }
}

/// The transaction identifiers a wallet operation produced.
#[allow(non_snake_case)]
#[derive(Clone, Debug)]
pub struct TxidsReply {
    pub Txids: Vec<String>,
}

impl ReplyShape for TxidsReply {
    open spec fn wire_of(x: &Self) -> PayloadV {
        PayloadV {
            fields: seq![
                ("Txids"@, FieldValV::Items(x.Txids@.map_values(|s: String| PrimV::Str(s@)))),
            ],
        }
    }

    open spec fn canonical(x: &Self) -> bool {
        true
    }

    open spec fn eqv(x: &Self, y: &Self) -> bool {
        x.Txids@.map_values(|s: String| s@) == y.Txids@.map_values(|s: String| s@)
    }

    proof fn round_trip(x: &Self, y: &Self) {
        let p = Self::wire_of(x);
        assert(pay_lookup(p.fields, "Txids"@) == Some(p.fields[0].1));
        let txids_model = x.Txids@.map_values(|s: String| PrimV::Str(s@));
        assert(all_strs(txids_model)) by {
            assert forall|i: int|
                0 <= i < txids_model.len() implies (#[trigger] txids_model[i])
                is Str by {
                assert(txids_model[i] == PrimV::Str(x.Txids@[i]@));
            }
        }
        assert(txids_model.map_values(|q: PrimV| q->Str_0) =~= x.Txids@.map_values(
            |s: String| s@,
        ));
    }


    open spec fn wire_ok(p: PayloadV) -> bool {
        pv_strs(p, "Txids"@) is Some
    }

    open spec fn wire_sat(p: PayloadV, x: &Self) -> bool {
        pv_strs(p, "Txids"@) == Some(x.Txids@.map_values(|s: String| s@))
    }

    fn from_payload(p: &Payload) -> (r: Option<Self>) {
        match payload_strs(p, "Txids") {
            Some(v) => Some(TxidsReply { Txids: v }),
            None => None,
        }
    }
}

/// The current fee rate.
#[allow(non_snake_case)]
#[derive(Clone, Copy, Debug, PartialEq, Eq, Structural)]
pub struct FeeReply {
    pub CurrentFee: i64,
}

impl ReplyShape for FeeReply {
    open spec fn wire_of(x: &Self) -> PayloadV {
        PayloadV { fields: seq![("CurrentFee"@, FieldValV::Single(PrimV::Int(x.CurrentFee as int)))] }
    }

    open spec fn canonical(x: &Self) -> bool {
        true
    }

    open spec fn eqv(x: &Self, y: &Self) -> bool {
        x.CurrentFee == y.CurrentFee
    }

    proof fn round_trip(x: &Self, y: &Self) {
        let p = Self::wire_of(x);
        assert(pay_lookup(p.fields, "CurrentFee"@) == Some(p.fields[0].1));
    }


    open spec fn wire_ok(p: PayloadV) -> bool {
        pv_i64(p, "CurrentFee"@) is Some
    }

    open spec fn wire_sat(p: PayloadV, x: &Self) -> bool {
        pv_i64(p, "CurrentFee"@) == Some(x.CurrentFee as int)
    }

    fn from_payload(p: &Payload) -> (r: Option<Self>) {
        match payload_i64(p, "CurrentFee") {
            Some(v) => Some(FeeReply { CurrentFee: v }),
            None => None,
        }
    }
}

/// The channel state index a push advanced to.
#[allow(non_snake_case)]
#[derive(Clone, Copy, Debug, PartialEq, Eq, Structural)]
pub struct PushReply {
    pub StateIdx: u64,
}

impl ReplyShape for PushReply {
    open spec fn wire_of(x: &Self) -> PayloadV {
        PayloadV { fields: seq![("StateIdx"@, FieldValV::Single(PrimV::Int(x.StateIdx as int)))] }
    }

    open spec fn canonical(x: &Self) -> bool {
        true
    }

    open spec fn eqv(x: &Self, y: &Self) -> bool {
        x.StateIdx == y.StateIdx
    }

    proof fn round_trip(x: &Self, y: &Self) {
        let p = Self::wire_of(x);
        assert(pay_lookup(p.fields, "StateIdx"@) == Some(p.fields[0].1));
    }


    open spec fn wire_ok(p: PayloadV) -> bool {
        pv_u64(p, "StateIdx"@) is Some
    }

    open spec fn wire_sat(p: PayloadV, x: &Self) -> bool {
        pv_u64(p, "StateIdx"@) == Some(x.StateIdx as int)
    }

    fn from_payload(p: &Payload) -> (r: Option<Self>) {
        match payload_u64(p, "StateIdx") {
            Some(v) => Some(PushReply { StateIdx: v }),
            None => None,
        }
    }
}

} // verus!

// The parameter shapes, and one request binding per remote procedure.

use vstd::string::StringExecFns;
use crate::client::called;

verus! {

/// The parameter shape of a procedure that takes nothing.
#[derive(Clone, Copy, Debug)]
pub struct NoParams;

impl ParamShape for NoParams {
    open spec fn wire_model(&self) -> PayloadV {
        PayloadV::empty()
    }

    fn to_payload(&self) -> (p: Payload) {
        Payload::empty()
    }
}

/// Builds the wire scalars of a string list.
fn strs_to_prims(v: &Vec<String>) -> (out: Vec<Prim>)
    ensures
        out@.map_values(|x: Prim| x@) == v@.map_values(|s: String| PrimV::Str(s@)),
{
    let ghost model = v@.map_values(|s: String| PrimV::Str(s@));
    let mut out: Vec<Prim> = Vec::new();
    let mut i: usize = 0;
    while i < v.len()
        invariant
            i <= v@.len(),
            model == v@.map_values(|s: String| PrimV::Str(s@)),
            out@.len() == i,
            forall|j: int| 0 <= j < i ==> (#[trigger] out@[j])@ == model[j],
        decreases v@.len() - i,
    {
        out.push(Prim::Str(v[i].clone()));
        i = i + 1;
    }
    proof {
        assert(out@.map_values(|x: Prim| x@) =~= model);
    }
    out
}

/// Builds the wire scalars of an amount list.
fn i64s_to_prims(v: &Vec<i64>) -> (out: Vec<Prim>)
    ensures
        out@.map_values(|x: Prim| x@) == v@.map_values(|a: i64| PrimV::Int(a as int)),
{
    let ghost model = v@.map_values(|a: i64| PrimV::Int(a as int));
    let mut out: Vec<Prim> = Vec::new();
    let mut i: usize = 0;
    while i < v.len()
        invariant
            i <= v@.len(),
            model == v@.map_values(|a: i64| PrimV::Int(a as int)),
            out@.len() == i,
            forall|j: int| 0 <= j < i ==> (#[trigger] out@[j])@ == model[j],
        decreases v@.len() - i,
    {
        out.push(Prim::Int(v[i] as i128));
        i = i + 1;
    }
    proof {
        assert(out@.map_values(|x: Prim| x@) =~= model);
    }
    out
}

/// Builds the wire scalars of a byte list.
fn bytes_to_prims(v: &Vec<u8>) -> (out: Vec<Prim>)
    ensures
        out@.map_values(|x: Prim| x@) == v@.map_values(|b: u8| PrimV::Int(b as int)),
{
    let ghost model = v@.map_values(|b: u8| PrimV::Int(b as int));
    let mut out: Vec<Prim> = Vec::new();
    let mut i: usize = 0;
    while i < v.len()
        invariant
            i <= v@.len(),
            model == v@.map_values(|b: u8| PrimV::Int(b as int)),
            out@.len() == i,
            forall|j: int| 0 <= j < i ==> (#[trigger] out@[j])@ == model[j],
        decreases v@.len() - i,
    {
        out.push(Prim::Int(v[i] as i128));
        i = i + 1;
    }
    proof {
        assert(out@.map_values(|x: Prim| x@) =~= model);
    }
    out
}

/// The parameters of `Listen`.
#[allow(non_snake_case)]
#[derive(Clone, Debug)]
pub struct ListenArgs {
    pub Port: String,
}

impl ParamShape for ListenArgs {
    open spec fn wire_model(&self) -> PayloadV {
        PayloadV { fields: seq![("Port"@, FieldValV::Single(PrimV::Str(self.Port@)))] }
    }

    fn to_payload(&self) -> (p: Payload) {
        let mut fields: Vec<(String, FieldVal)> = Vec::new();
        fields.push((String::from_str("Port"), FieldVal::Single(Prim::Str(self.Port.clone()))));
        let p = Payload { fields };
        proof {
            assert(p@.fields =~= self.wire_model().fields);
            assert(p@ =~= self.wire_model());
        }
        p
    }
}

/// The parameters of `Connect`.
#[allow(non_snake_case)]
#[derive(Clone, Debug)]
pub struct ConnectArgs {
    pub LNAddr: String,
}

impl ParamShape for ConnectArgs {
    open spec fn wire_model(&self) -> PayloadV {
        PayloadV { fields: seq![("LNAddr"@, FieldValV::Single(PrimV::Str(self.LNAddr@)))] }
    }

    fn to_payload(&self) -> (p: Payload) {
        let mut fields: Vec<(String, FieldVal)> = Vec::new();
        fields.push(
            (String::from_str("LNAddr"), FieldVal::Single(Prim::Str(self.LNAddr.clone()))),
        );
        let p = Payload { fields };
        proof {
            assert(p@.fields =~= self.wire_model().fields);
            assert(p@ =~= self.wire_model());
        }
        p
    }
}

/// The single-channel-index parameter several channel procedures take: which
/// channel to list, close or break — zero meaning all, for the listing.
#[allow(non_snake_case)]
#[derive(Clone, Copy, Debug)]
pub struct ChanIdxArgs {
    pub ChanIdx: u32,
}

impl ParamShape for ChanIdxArgs {
    open spec fn wire_model(&self) -> PayloadV {
        PayloadV { fields: seq![("ChanIdx"@, FieldValV::Single(PrimV::Int(self.ChanIdx as int)))] }
    }

    fn to_payload(&self) -> (p: Payload) {
        let mut fields: Vec<(String, FieldVal)> = Vec::new();
        fields.push(
            (String::from_str("ChanIdx"), FieldVal::Single(Prim::Int(self.ChanIdx as i128))),
        );
        let p = Payload { fields };
        proof {
            assert(p@.fields =~= self.wire_model().fields);
            assert(p@ =~= self.wire_model());
        }
        p
    }
}

/// The parameters of `Send`: destination addresses and the amount for each.
#[allow(non_snake_case)]
#[derive(Clone, Debug)]
pub struct SendArgs {
    pub DestAddrs: Vec<String>,
    pub Amts: Vec<i64>,
}

impl ParamShape for SendArgs {
    open spec fn wire_model(&self) -> PayloadV {
        PayloadV {
            fields: seq![
                ("DestAddrs"@, FieldValV::Items(
                    self.DestAddrs@.map_values(|s: String| PrimV::Str(s@)),
                )),
                ("Amts"@, FieldValV::Items(self.Amts@.map_values(|a: i64| PrimV::Int(a as int)))),
            ],
        }
    }

    fn to_payload(&self) -> (p: Payload) {
        let mut fields: Vec<(String, FieldVal)> = Vec::new();
        fields.push((String::from_str("DestAddrs"), FieldVal::Items(strs_to_prims(&self.DestAddrs))));
        fields.push((String::from_str("Amts"), FieldVal::Items(i64s_to_prims(&self.Amts))));
        let p = Payload { fields };
        proof {
            assert(p@.fields =~= self.wire_model().fields);
            assert(p@ =~= self.wire_model());
        }
        p
    }
}

/// The parameters of `SetFee`.
#[allow(non_snake_case)]
#[derive(Clone, Copy, Debug)]
pub struct SetFeeArgs {
    pub Fee: i64,
    pub CoinType: u32,
}

impl ParamShape for SetFeeArgs {
    open spec fn wire_model(&self) -> PayloadV {
        PayloadV {
            fields: seq![
                ("Fee"@, FieldValV::Single(PrimV::Int(self.Fee as int))),
                ("CoinType"@, FieldValV::Single(PrimV::Int(self.CoinType as int))),
            ],
        }
    }

    fn to_payload(&self) -> (p: Payload) {
        let mut fields: Vec<(String, FieldVal)> = Vec::new();
        fields.push((String::from_str("Fee"), FieldVal::Single(Prim::Int(self.Fee as i128))));
        fields.push(
            (String::from_str("CoinType"), FieldVal::Single(Prim::Int(self.CoinType as i128))),
        );
        let p = Payload { fields };
        proof {
            assert(p@.fields =~= self.wire_model().fields);
            assert(p@ =~= self.wire_model());
        }
        p
    }
}

/// The parameters of `GetFee`.
#[allow(non_snake_case)]
#[derive(Clone, Copy, Debug)]
pub struct GetFeeArgs {
    pub CoinType: u32,
}

impl ParamShape for GetFeeArgs {
    open spec fn wire_model(&self) -> PayloadV {
        PayloadV {
            fields: seq![("CoinType"@, FieldValV::Single(PrimV::Int(self.CoinType as int)))],
        }
    }

    fn to_payload(&self) -> (p: Payload) {
        let mut fields: Vec<(String, FieldVal)> = Vec::new();
        fields.push(
            (String::from_str("CoinType"), FieldVal::Single(Prim::Int(self.CoinType as i128))),
        );
        let p = Payload { fields };
        proof {
            assert(p@.fields =~= self.wire_model().fields);
            assert(p@ =~= self.wire_model());
        }
        p
    }
}

/// The parameters of `Push`: how much to push over which channel, with the
/// 32-byte data field the channel update carries.
#[allow(non_snake_case)]
#[derive(Clone, Debug)]
pub struct PushArgs {
    pub ChanIdx: u32,
    pub Amt: i64,
    pub Data: Vec<u8>,
}

impl ParamShape for PushArgs {
    open spec fn wire_model(&self) -> PayloadV {
        PayloadV {
            fields: seq![
                ("ChanIdx"@, FieldValV::Single(PrimV::Int(self.ChanIdx as int))),
                ("Amt"@, FieldValV::Single(PrimV::Int(self.Amt as int))),
                ("Data"@, FieldValV::Items(self.Data@.map_values(|b: u8| PrimV::Int(b as int)))),
            ],
        }
    }

    fn to_payload(&self) -> (p: Payload) {
        let mut fields: Vec<(String, FieldVal)> = Vec::new();
        fields.push(
            (String::from_str("ChanIdx"), FieldVal::Single(Prim::Int(self.ChanIdx as i128))),
        );
        fields.push((String::from_str("Amt"), FieldVal::Single(Prim::Int(self.Amt as i128))));
        fields.push((String::from_str("Data"), FieldVal::Items(bytes_to_prims(&self.Data))));
        let p = Payload { fields };
        proof {
            assert(p@.fields =~= self.wire_model().fields);
            assert(p@ =~= self.wire_model());
        }
        p
    }
}

impl LitRpcClient {
    /// Asks the node to listen on a port.
    pub fn call_lis_request(&mut self, Port: String) -> (r: (u64, String))
        requires
            old(self).inv(),
            old(self).next_msg_id < u64::MAX,
        ensures
            called(
                *old(self),
                *final(self),
                r,
                "LitRPC.Listen"@,
                (ListenArgs { Port }).wire_model(),
            ),
    {
        let args = ListenArgs { Port };
        self.call_request("LitRPC.Listen", &args)
    }

    /// Connects the node to a peer.
    pub fn call_connect_request(&mut self, LNAddr: String) -> (r: (u64, String))
        requires
            old(self).inv(),
            old(self).next_msg_id < u64::MAX,
        ensures
            called(
                *old(self),
                *final(self),
                r,
                "LitRPC.Connect"@,
                (ConnectArgs { LNAddr }).wire_model(),
            ),
    {
        let args = ConnectArgs { LNAddr };
        self.call_request("LitRPC.Connect", &args)
    }

    /// Lists the open peer connections; reply shape [`ListConnectionsReply`].
    pub fn call_list_connections_request(&mut self) -> (r: (u64, String))
        requires
            old(self).inv(),
            old(self).next_msg_id < u64::MAX,
        ensures
            called(*old(self), *final(self), r, "LitRPC.ListConnections"@, PayloadV::empty()),
    {
        self.call_request("LitRPC.ListConnections", &NoParams)
    }

    /// Asks for the node's listening ports; reply shape
    /// [`ListeningPortsReply`].
    pub fn call_get_listening_ports_request(&mut self) -> (r: (u64, String))
        requires
            old(self).inv(),
            old(self).next_msg_id < u64::MAX,
        ensures
            called(*old(self), *final(self), r, "LitRPC.GetListeningPorts"@, PayloadV::empty()),
    {
        self.call_request("LitRPC.GetListeningPorts", &NoParams)
    }

    /// Stops the node; reply shape [`StatusReply`].
    pub fn call_stop_request(&mut self) -> (r: (u64, String))
        requires
            old(self).inv(),
            old(self).next_msg_id < u64::MAX,
        ensures
            called(*old(self), *final(self), r, "LitRPC.Stop"@, PayloadV::empty()),
    {
        self.call_request("LitRPC.Stop", &NoParams)
    }

    /// Lists channels; reply shape [`ChanListReply`].
    pub fn call_chan_list_request(&mut self, ChanIdx: u32) -> (r: (u64, String))
        requires
            old(self).inv(),
            old(self).next_msg_id < u64::MAX,
        ensures
            called(
                *old(self),
                *final(self),
                r,
                "LitRPC.ChannelList"@,
                (ChanIdxArgs { ChanIdx }).wire_model(),
            ),
    {
        let args = ChanIdxArgs { ChanIdx };
        self.call_request("LitRPC.ChannelList", &args)
    }

    /// Pushes an amount over a channel; reply shape [`PushReply`].
    pub fn call_push_request(&mut self, ChanIdx: u32, Amt: i64, Data: Vec<u8>) -> (r: (
        u64,
        String,
    ))
        requires
            old(self).inv(),
            old(self).next_msg_id < u64::MAX,
        ensures
            called(
                *old(self),
                *final(self),
                r,
                "LitRPC.Push"@,
                (PushArgs { ChanIdx, Amt, Data }).wire_model(),
            ),
    {
        let args = PushArgs { ChanIdx, Amt, Data };
        self.call_request("LitRPC.Push", &args)
    }

    /// Dumps the wallet's private keys; reply shape [`DumpPrivsReply`].
    pub fn call_dump_privs_request(&mut self) -> (r: (u64, String))
        requires
            old(self).inv(),
            old(self).next_msg_id < u64::MAX,
        ensures
            called(*old(self), *final(self), r, "LitRPC.DumpPrivs"@, PayloadV::empty()),
    {
        self.call_request("LitRPC.DumpPrivs", &NoParams)
    }

    /// Asks for the wallet's balances; reply shape [`BalanceReply`].
    pub fn call_bal_request(&mut self) -> (r: (u64, String))
        requires
            old(self).inv(),
            old(self).next_msg_id < u64::MAX,
        ensures
            called(*old(self), *final(self), r, "LitRPC.Balance"@, PayloadV::empty()),
    {
        self.call_request("LitRPC.Balance", &NoParams)
    }

    /// Lists the wallet's outputs; reply shape [`TxoListReply`].
    pub fn call_get_txo_list_request(&mut self) -> (r: (u64, String))
        requires
            old(self).inv(),
            old(self).next_msg_id < u64::MAX,
        ensures
            called(*old(self), *final(self), r, "LitRPC.TxoList"@, PayloadV::empty()),
    {
        self.call_request("LitRPC.TxoList", &NoParams)
    }

    /// Sends coins; reply shape [`TxidsReply`].
    pub fn call_send_request(&mut self, DestAddrs: Vec<String>, Amts: Vec<i64>) -> (r: (
        u64,
        String,
    ))
        requires
            old(self).inv(),
            old(self).next_msg_id < u64::MAX,
        ensures
            called(
                *old(self),
                *final(self),
                r,
                "LitRPC.Send"@,
                (SendArgs { DestAddrs, Amts }).wire_model(),
            ),
    {
        let args = SendArgs { DestAddrs, Amts };
        self.call_request("LitRPC.Send", &args)
    }

    /// Sets the fee rate of a coin type; reply shape [`FeeReply`].
    pub fn call_set_fee_request(&mut self, Fee: i64, CoinType: u32) -> (r: (u64, String))
        requires
            old(self).inv(),
            old(self).next_msg_id < u64::MAX,
        ensures
            called(
                *old(self),
                *final(self),
                r,
                "LitRPC.SetFee"@,
                (SetFeeArgs { Fee, CoinType }).wire_model(),
            ),
    {
        let args = SetFeeArgs { Fee, CoinType };
        self.call_request("LitRPC.SetFee", &args)
    }

    /// Asks for the fee rate of a coin type; reply shape [`FeeReply`].
    pub fn call_get_fee_request(&mut self, CoinType: u32) -> (r: (u64, String))
        requires
            old(self).inv(),
            old(self).next_msg_id < u64::MAX,
        ensures
            called(
                *old(self),
                *final(self),
                r,
                "LitRPC.GetFee"@,
                (GetFeeArgs { CoinType }).wire_model(),
            ),
    {
        let args = GetFeeArgs { CoinType };
        self.call_request("LitRPC.GetFee", &args)
    }
}

} // verus!

// The rest of the remote procedures: connection management, channel
// lifecycle, wallet operations and address generation.

verus! {

/// The boolean under `k`, if `k` holds a boolean.
pub open spec fn pv_bool(p: PayloadV, k: Seq<char>) -> Option<bool> {
    match pay_lookup(p.fields, k) {
        Some(FieldValV::Single(PrimV::Bool(b))) => Some(b),
        _ => None,
    }
}

/// The integer under `k`, if it fits an unsigned 32-bit value.
pub open spec fn pv_u32(p: PayloadV, k: Seq<char>) -> Option<int> {
    match pv_int(p, k) {
        Some(i) => if 0 <= i <= 0xffff_ffff {
            Some(i)
        } else {
            None
        },
        None => None,
    }
}

pub fn payload_bool(p: &Payload, k: &str) -> (r: Option<bool>)
    ensures
        match r {
            Some(b) => pv_bool(p@, k@) == Some(b),
            None => pv_bool(p@, k@) is None,
        },
{
    match pay_find(p, k) {
        Some(FieldVal::Single(Prim::Bool(b))) => Some(*b),
        _ => None,
    }
}

pub fn payload_u32(p: &Payload, k: &str) -> (r: Option<u32>)
    ensures
        match r {
            Some(v) => pv_u32(p@, k@) == Some(v as int),
            None => pv_u32(p@, k@) is None,
        },
{
    match pay_find(p, k) {
        Some(FieldVal::Single(Prim::Int(i))) => {
            if 0 <= *i && *i <= 0xffff_ffffi128 {
                Some(*i as u32)
            } else {
                None
            }
        },
        _ => None,
    }
}

/// The node's channel graph, as one rendered string.
#[allow(non_snake_case)]
#[derive(Clone, Debug)]
pub struct ChanGraphReply {
    pub Graph: String,
}

impl ReplyShape for ChanGraphReply {
    open spec fn wire_of(x: &Self) -> PayloadV {
        PayloadV { fields: seq![("Graph"@, FieldValV::Single(PrimV::Str(x.Graph@)))] }
    }

    open spec fn canonical(x: &Self) -> bool {
        true
    }

    open spec fn eqv(x: &Self, y: &Self) -> bool {
        x.Graph@ == y.Graph@
    }

    proof fn round_trip(x: &Self, y: &Self) {
        let p = Self::wire_of(x);
        assert(pay_lookup(p.fields, "Graph"@) == Some(p.fields[0].1));
    }


    open spec fn wire_ok(p: PayloadV) -> bool {
        pv_str(p, "Graph"@) is Some
    }

    open spec fn wire_sat(p: PayloadV, x: &Self) -> bool {
        pv_str(p, "Graph"@) == Some(x.Graph@)
    }

    fn from_payload(p: &Payload) -> (r: Option<Self>) {
        match payload_str(p, "Graph") {
            Some(s) => Some(ChanGraphReply { Graph: s }),
            None => None,
        }
    }
}

/// A pending dual-funding offer, if any.
#[allow(non_snake_case)]
#[derive(Clone, Debug)]
pub struct PendingDualFundReply {
    pub Pending: bool,
    pub PeerIdx: u32,
    pub CoinType: u32,
    pub TheirAmount: i64,
    pub RequestedAmount: i64,
}

impl ReplyShape for PendingDualFundReply {
    open spec fn wire_of(x: &Self) -> PayloadV {
        PayloadV {
            fields: seq![
                ("Pending"@, FieldValV::Single(PrimV::Bool(x.Pending))),
                ("PeerIdx"@, FieldValV::Single(PrimV::Int(x.PeerIdx as int))),
                ("CoinType"@, FieldValV::Single(PrimV::Int(x.CoinType as int))),
                ("TheirAmount"@, FieldValV::Single(PrimV::Int(x.TheirAmount as int))),
                ("RequestedAmount"@, FieldValV::Single(PrimV::Int(x.RequestedAmount as int))),
            ],
        }
    }

    open spec fn canonical(x: &Self) -> bool {
        true
    }

    open spec fn eqv(x: &Self, y: &Self) -> bool {
        &&& x.Pending == y.Pending
        &&& x.PeerIdx == y.PeerIdx
        &&& x.CoinType == y.CoinType
        &&& x.TheirAmount == y.TheirAmount
        &&& x.RequestedAmount == y.RequestedAmount
    }

    proof fn round_trip(x: &Self, y: &Self) {
        reveal_strlit("Pending");
        reveal_strlit("PeerIdx");
        reveal_strlit("CoinType");
        reveal_strlit("TheirAmount");
        reveal_strlit("RequestedAmount");
        assert("Pending"@.len() == 7);
        assert("PeerIdx"@.len() == 7);
        assert("CoinType"@.len() == 8);
        assert("TheirAmount"@.len() == 11);
        assert("RequestedAmount"@.len() == 15);
        assert("Pending"@[2] == 'n');
        assert("PeerIdx"@[2] == 'e');
        let p = Self::wire_of(x);
        let fs = p.fields;
        let d1 = fs.drop_first();
        let d2 = d1.drop_first();
        let d3 = d2.drop_first();
        let d4 = d3.drop_first();
        assert(d1[0] == fs[1]);
        assert(d2[0] == fs[2]);
        assert(d3[0] == fs[3]);
        assert(d4[0] == fs[4]);
        assert(pay_lookup(fs, "Pending"@) == Some(fs[0].1));
        assert(pay_lookup(fs, "PeerIdx"@) == pay_lookup(d1, "PeerIdx"@));
        assert(pay_lookup(d1, "PeerIdx"@) == Some(fs[1].1));
        assert(pay_lookup(fs, "CoinType"@) == pay_lookup(d1, "CoinType"@));
        assert(pay_lookup(d1, "CoinType"@) == pay_lookup(d2, "CoinType"@));
        assert(pay_lookup(d2, "CoinType"@) == Some(fs[2].1));
        assert(pay_lookup(fs, "TheirAmount"@) == pay_lookup(d1, "TheirAmount"@));
        assert(pay_lookup(d1, "TheirAmount"@) == pay_lookup(d2, "TheirAmount"@));
        assert(pay_lookup(d2, "TheirAmount"@) == pay_lookup(d3, "TheirAmount"@));
        assert(pay_lookup(d3, "TheirAmount"@) == Some(fs[3].1));
        assert(pay_lookup(fs, "RequestedAmount"@) == pay_lookup(d1, "RequestedAmount"@));
        assert(pay_lookup(d1, "RequestedAmount"@) == pay_lookup(d2, "RequestedAmount"@));
        assert(pay_lookup(d2, "RequestedAmount"@) == pay_lookup(d3, "RequestedAmount"@));
        assert(pay_lookup(d3, "RequestedAmount"@) == pay_lookup(d4, "RequestedAmount"@));
        assert(pay_lookup(d4, "RequestedAmount"@) == Some(fs[4].1));
    }


    open spec fn wire_ok(p: PayloadV) -> bool {
        &&& pv_bool(p, "Pending"@) is Some
        &&& pv_u32(p, "PeerIdx"@) is Some
        &&& pv_u32(p, "CoinType"@) is Some
        &&& pv_i64(p, "TheirAmount"@) is Some
        &&& pv_i64(p, "RequestedAmount"@) is Some
    }

    open spec fn wire_sat(p: PayloadV, x: &Self) -> bool {
        &&& pv_bool(p, "Pending"@) == Some(x.Pending)
        &&& pv_u32(p, "PeerIdx"@) == Some(x.PeerIdx as int)
        &&& pv_u32(p, "CoinType"@) == Some(x.CoinType as int)
        &&& pv_i64(p, "TheirAmount"@) == Some(x.TheirAmount as int)
        &&& pv_i64(p, "RequestedAmount"@) == Some(x.RequestedAmount as int)
    }

    fn from_payload(p: &Payload) -> (r: Option<Self>) {
        let Pending = match payload_bool(p, "Pending") {
            Some(v) => v,
            None => {
                return None;
            },
        };
        let PeerIdx = match payload_u32(p, "PeerIdx") {
            Some(v) => v,
            None => {
                return None;
            },
        };
        let CoinType = match payload_u32(p, "CoinType") {
            Some(v) => v,
            None => {
                return None;
            },
        };
        let TheirAmount = match payload_i64(p, "TheirAmount") {
            Some(v) => v,
            None => {
                return None;
            },
        };
        let RequestedAmount = match payload_i64(p, "RequestedAmount") {
            Some(v) => v,
            None => {
                return None;
            },
        };
        Some(PendingDualFundReply { Pending, PeerIdx, CoinType, TheirAmount, RequestedAmount })
    }
}

/// Freshly generated receive addresses, witness and legacy.
#[allow(non_snake_case)]
#[derive(Clone, Debug)]
pub struct AddressReply {
    pub WitAddresses: Vec<String>,
    pub LegacyAddresses: Vec<String>,
}

impl ReplyShape for AddressReply {
    open spec fn wire_of(x: &Self) -> PayloadV {
        PayloadV {
            fields: seq![
                ("WitAddresses"@, FieldValV::Items(
                    x.WitAddresses@.map_values(|s: String| PrimV::Str(s@)),
                )),
                ("LegacyAddresses"@, FieldValV::Items(
                    x.LegacyAddresses@.map_values(|s: String| PrimV::Str(s@)),
                )),
            ],
        }
    }

    open spec fn canonical(x: &Self) -> bool {
        true
    }

    open spec fn eqv(x: &Self, y: &Self) -> bool {
        &&& x.WitAddresses@.map_values(|s: String| s@) == y.WitAddresses@.map_values(
            |s: String| s@,
        )
        &&& x.LegacyAddresses@.map_values(|s: String| s@) == y.LegacyAddresses@.map_values(
            |s: String| s@,
        )
    }

    proof fn round_trip(x: &Self, y: &Self) {
        reveal_strlit("WitAddresses");
        reveal_strlit("LegacyAddresses");
        assert("WitAddresses"@.len() == 12);
        assert("LegacyAddresses"@.len() == 15);
        let p = Self::wire_of(x);
        let fs = p.fields;
        let d1 = fs.drop_first();
        assert(d1[0] == fs[1]);
        assert(pay_lookup(fs, "WitAddresses"@) == Some(fs[0].1));
        assert(pay_lookup(fs, "LegacyAddresses"@) == pay_lookup(d1, "LegacyAddresses"@));
        assert(pay_lookup(d1, "LegacyAddresses"@) == Some(fs[1].1));
        let witaddresses_model = x.WitAddresses@.map_values(|s: String| PrimV::Str(s@));
        assert(all_strs(witaddresses_model)) by {
            assert forall|i: int|
                0 <= i < witaddresses_model.len() implies (#[trigger] witaddresses_model[i])
                is Str by {
                assert(witaddresses_model[i] == PrimV::Str(x.WitAddresses@[i]@));
            }
        }
        assert(witaddresses_model.map_values(|q: PrimV| q->Str_0) =~= x.WitAddresses@.map_values(
            |s: String| s@,
        ));
        let legacyaddresses_model = x.LegacyAddresses@.map_values(|s: String| PrimV::Str(s@));
        assert(all_strs(legacyaddresses_model)) by {
            assert forall|i: int|
                0 <= i < legacyaddresses_model.len() implies (#[trigger] legacyaddresses_model[i])
                is Str by {
                assert(legacyaddresses_model[i] == PrimV::Str(x.LegacyAddresses@[i]@));
            }
        }
        assert(legacyaddresses_model.map_values(|q: PrimV| q->Str_0) =~= x.LegacyAddresses@.map_values(
            |s: String| s@,
        ));
    }


    open spec fn wire_ok(p: PayloadV) -> bool {
        &&& pv_strs(p, "WitAddresses"@) is Some
        &&& pv_strs(p, "LegacyAddresses"@) is Some
    }

    open spec fn wire_sat(p: PayloadV, x: &Self) -> bool {
        &&& pv_strs(p, "WitAddresses"@) == Some(x.WitAddresses@.map_values(|s: String| s@))
        &&& pv_strs(p, "LegacyAddresses"@) == Some(x.LegacyAddresses@.map_values(|s: String| s@))
    }

    fn from_payload(p: &Payload) -> (r: Option<Self>) {
        let WitAddresses = match payload_strs(p, "WitAddresses") {
            Some(v) => v,
            None => {
                return None;
            },
        };
        let LegacyAddresses = match payload_strs(p, "LegacyAddresses") {
            Some(v) => v,
            None => {
                return None;
            },
        };
        Some(AddressReply { WitAddresses, LegacyAddresses })
    }
}

/// The parameters of `AssignNickname`.
#[allow(non_snake_case)]
#[derive(Clone, Debug)]
pub struct AssignNicknameArgs {
    pub Peer: u32,
    pub Nickname: String,
}

impl ParamShape for AssignNicknameArgs {
    open spec fn wire_model(&self) -> PayloadV {
        PayloadV {
            fields: seq![
                ("Peer"@, FieldValV::Single(PrimV::Int(self.Peer as int))),
                ("Nickname"@, FieldValV::Single(PrimV::Str(self.Nickname@))),
            ],
        }
    }

    fn to_payload(&self) -> (p: Payload) {
        let mut fields: Vec<(String, FieldVal)> = Vec::new();
        fields.push((String::from_str("Peer"), FieldVal::Single(Prim::Int(self.Peer as i128))));
        fields.push(
            (String::from_str("Nickname"), FieldVal::Single(Prim::Str(self.Nickname.clone()))),
        );
        let p = Payload { fields };
        proof {
            assert(p@.fields =~= self.wire_model().fields);
            assert(p@ =~= self.wire_model());
        }
        p
    }
}

/// The parameters of `FundChannel`.
#[allow(non_snake_case)]
#[derive(Clone, Debug)]
pub struct FundChannelArgs {
    pub Peer: u32,
    pub CoinType: u32,
    pub Capacity: i64,
    pub Roundup: i64,
    pub InitialSend: i64,
    pub Data: Vec<u8>,
}

impl ParamShape for FundChannelArgs {
    open spec fn wire_model(&self) -> PayloadV {
        PayloadV {
            fields: seq![
                ("Peer"@, FieldValV::Single(PrimV::Int(self.Peer as int))),
                ("CoinType"@, FieldValV::Single(PrimV::Int(self.CoinType as int))),
                ("Capacity"@, FieldValV::Single(PrimV::Int(self.Capacity as int))),
                ("Roundup"@, FieldValV::Single(PrimV::Int(self.Roundup as int))),
                ("InitialSend"@, FieldValV::Single(PrimV::Int(self.InitialSend as int))),
                ("Data"@, FieldValV::Items(self.Data@.map_values(|b: u8| PrimV::Int(b as int)))),
            ],
        }
    }

    fn to_payload(&self) -> (p: Payload) {
        let mut fields: Vec<(String, FieldVal)> = Vec::new();
        fields.push((String::from_str("Peer"), FieldVal::Single(Prim::Int(self.Peer as i128))));
        fields.push(
            (String::from_str("CoinType"), FieldVal::Single(Prim::Int(self.CoinType as i128))),
        );
        fields.push(
            (String::from_str("Capacity"), FieldVal::Single(Prim::Int(self.Capacity as i128))),
        );
        fields.push(
            (String::from_str("Roundup"), FieldVal::Single(Prim::Int(self.Roundup as i128))),
        );
        fields.push(
            (
                String::from_str("InitialSend"),
                FieldVal::Single(Prim::Int(self.InitialSend as i128)),
            ),
        );
        fields.push((String::from_str("Data"), FieldVal::Items(bytes_to_prims(&self.Data))));
        let p = Payload { fields };
        proof {
            assert(p@.fields =~= self.wire_model().fields);
            assert(p@ =~= self.wire_model());
        }
        p
    }
}

/// The parameters of `DualFundChannel`.
#[allow(non_snake_case)]
#[derive(Clone, Copy, Debug)]
pub struct DualFundArgs {
    pub Peer: i32,
    pub CoinType: i32,
    pub OurAmount: i64,
    pub TheirAmount: i64,
}

impl ParamShape for DualFundArgs {
    open spec fn wire_model(&self) -> PayloadV {
        PayloadV {
            fields: seq![
                ("Peer"@, FieldValV::Single(PrimV::Int(self.Peer as int))),
                ("CoinType"@, FieldValV::Single(PrimV::Int(self.CoinType as int))),
                ("OurAmount"@, FieldValV::Single(PrimV::Int(self.OurAmount as int))),
                ("TheirAmount"@, FieldValV::Single(PrimV::Int(self.TheirAmount as int))),
            ],
        }
    }

    fn to_payload(&self) -> (p: Payload) {
        let mut fields: Vec<(String, FieldVal)> = Vec::new();
        fields.push((String::from_str("Peer"), FieldVal::Single(Prim::Int(self.Peer as i128))));
        fields.push(
            (String::from_str("CoinType"), FieldVal::Single(Prim::Int(self.CoinType as i128))),
        );
        fields.push(
            (String::from_str("OurAmount"), FieldVal::Single(Prim::Int(self.OurAmount as i128))),
        );
        fields.push(
            (
                String::from_str("TheirAmount"),
                FieldVal::Single(Prim::Int(self.TheirAmount as i128)),
            ),
        );
        let p = Payload { fields };
        proof {
            assert(p@.fields =~= self.wire_model().fields);
            assert(p@ =~= self.wire_model());
        }
        p
    }
}

/// The parameters of `Sweep`.
#[allow(non_snake_case)]
#[derive(Clone, Debug)]
pub struct SweepArgs {
    pub DestAdr: String,
    pub NumTx: u32,
    pub Drop: bool,
}

impl ParamShape for SweepArgs {
    open spec fn wire_model(&self) -> PayloadV {
        PayloadV {
            fields: seq![
                ("DestAdr"@, FieldValV::Single(PrimV::Str(self.DestAdr@))),
                ("NumTx"@, FieldValV::Single(PrimV::Int(self.NumTx as int))),
                ("Drop"@, FieldValV::Single(PrimV::Bool(self.Drop))),
            ],
        }
    }

    fn to_payload(&self) -> (p: Payload) {
        let mut fields: Vec<(String, FieldVal)> = Vec::new();
        fields.push(
            (String::from_str("DestAdr"), FieldVal::Single(Prim::Str(self.DestAdr.clone()))),
        );
        fields.push((String::from_str("NumTx"), FieldVal::Single(Prim::Int(self.NumTx as i128))));
        fields.push((String::from_str("Drop"), FieldVal::Single(Prim::Bool(self.Drop))));
        let p = Payload { fields };
        proof {
            assert(p@.fields =~= self.wire_model().fields);
            assert(p@ =~= self.wire_model());
        }
        p
    }
}

/// The parameters of `Fanout`.
#[allow(non_snake_case)]
#[derive(Clone, Debug)]
pub struct FanoutArgs {
    pub DestAdr: String,
    pub NumOutputs: u32,
    pub AmtPerOutput: i64,
}

impl ParamShape for FanoutArgs {
    open spec fn wire_model(&self) -> PayloadV {
        PayloadV {
            fields: seq![
                ("DestAdr"@, FieldValV::Single(PrimV::Str(self.DestAdr@))),
                ("NumOutputs"@, FieldValV::Single(PrimV::Int(self.NumOutputs as int))),
                ("AmtPerOutput"@, FieldValV::Single(PrimV::Int(self.AmtPerOutput as int))),
            ],
        }
    }

    fn to_payload(&self) -> (p: Payload) {
        let mut fields: Vec<(String, FieldVal)> = Vec::new();
        fields.push(
            (String::from_str("DestAdr"), FieldVal::Single(Prim::Str(self.DestAdr.clone()))),
        );
        fields.push(
            (String::from_str("NumOutputs"), FieldVal::Single(Prim::Int(self.NumOutputs as i128))),
        );
        fields.push(
            (
                String::from_str("AmtPerOutput"),
                FieldVal::Single(Prim::Int(self.AmtPerOutput as i128)),
            ),
        );
        let p = Payload { fields };
        proof {
            assert(p@.fields =~= self.wire_model().fields);
            assert(p@ =~= self.wire_model());
        }
        p
    }
}

/// The parameters of `Address`.
#[allow(non_snake_case)]
#[derive(Clone, Copy, Debug)]
pub struct AddressArgs {
    pub NumToMake: u32,
    pub CoinType: u32,
}

impl ParamShape for AddressArgs {
    open spec fn wire_model(&self) -> PayloadV {
        PayloadV {
            fields: seq![
                ("NumToMake"@, FieldValV::Single(PrimV::Int(self.NumToMake as int))),
                ("CoinType"@, FieldValV::Single(PrimV::Int(self.CoinType as int))),
            ],
        }
    }

    fn to_payload(&self) -> (p: Payload) {
        let mut fields: Vec<(String, FieldVal)> = Vec::new();
        fields.push(
            (String::from_str("NumToMake"), FieldVal::Single(Prim::Int(self.NumToMake as i128))),
        );
        fields.push(
            (String::from_str("CoinType"), FieldVal::Single(Prim::Int(self.CoinType as i128))),
        );
        let p = Payload { fields };
        proof {
            assert(p@.fields =~= self.wire_model().fields);
            assert(p@ =~= self.wire_model());
        }
        p
    }
}

impl LitRpcClient {
    /// Gives a peer a nickname; reply shape [`StatusReply`].
    pub fn call_assign_nickname_request(&mut self, Peer: u32, Nickname: String) -> (r: (
        u64,
        String,
    ))
        requires
            old(self).inv(),
            old(self).next_msg_id < u64::MAX,
        ensures
            called(
                *old(self),
                *final(self),
                r,
                "LitRPC.AssignNickname"@,
                (AssignNicknameArgs { Peer, Nickname }).wire_model(),
            ),
    {
        let args = AssignNicknameArgs { Peer, Nickname };
        self.call_request("LitRPC.AssignNickname", &args)
    }

    /// Fetches queued messages; reply shape [`StatusReply`].
    pub fn call_get_messages_request(&mut self) -> (r: (u64, String))
        requires
            old(self).inv(),
            old(self).next_msg_id < u64::MAX,
        ensures
            called(*old(self), *final(self), r, "LitRPC.GetMessages"@, PayloadV::empty()),
    {
        self.call_request("LitRPC.GetMessages", &NoParams)
    }

    /// Sends a chat message; reply shape [`StatusReply`].
    pub fn call_say_request(&mut self) -> (r: (u64, String))
        requires
            old(self).inv(),
            old(self).next_msg_id < u64::MAX,
        ensures
            called(*old(self), *final(self), r, "LitRPC.Say"@, PayloadV::empty()),
    {
        self.call_request("LitRPC.Say", &NoParams)
    }

    /// Asks for the channel graph; reply shape [`ChanGraphReply`].
    pub fn call_get_chan_map_request(&mut self) -> (r: (u64, String))
        requires
            old(self).inv(),
            old(self).next_msg_id < u64::MAX,
        ensures
            called(*old(self), *final(self), r, "LitRPC.GetChannelMap"@, PayloadV::empty()),
    {
        self.call_request("LitRPC.GetChannelMap", &NoParams)
    }

    /// Funds a new channel; reply shape [`StatusReply`].
    pub fn call_fund_request(
        &mut self,
        Peer: u32,
        CoinType: u32,
        Capacity: i64,
        Roundup: i64,
        InitialSend: i64,
        Data: Vec<u8>,
    ) -> (r: (u64, String))
        requires
            old(self).inv(),
            old(self).next_msg_id < u64::MAX,
        ensures
            called(
                *old(self),
                *final(self),
                r,
                "LitRPC.FundChannel"@,
                (FundChannelArgs { Peer, CoinType, Capacity, Roundup, InitialSend, Data }).wire_model(),
            ),
    {
        let args = FundChannelArgs { Peer, CoinType, Capacity, Roundup, InitialSend, Data };
        self.call_request("LitRPC.FundChannel", &args)
    }

    /// Offers a dual funding; reply shape [`StatusReply`].
    pub fn call_dual_fund_request(
        &mut self,
        Peer: i32,
        CoinType: i32,
        OurAmount: i64,
        TheirAmount: i64,
    ) -> (r: (u64, String))
        requires
            old(self).inv(),
            old(self).next_msg_id < u64::MAX,
        ensures
            called(
                *old(self),
                *final(self),
                r,
                "LitRPC.DualFundChannel"@,
                (DualFundArgs { Peer, CoinType, OurAmount, TheirAmount }).wire_model(),
            ),
    {
        let args = DualFundArgs { Peer, CoinType, OurAmount, TheirAmount };
        self.call_request("LitRPC.DualFundChannel", &args)
    }

    /// Asks whether a dual funding is pending; reply shape
    /// [`PendingDualFundReply`].
    pub fn call_get_pending_dual_fund_request(&mut self) -> (r: (u64, String))
        requires
            old(self).inv(),
            old(self).next_msg_id < u64::MAX,
        ensures
            called(*old(self), *final(self), r, "LitRPC.PendingDualFund"@, PayloadV::empty()),
    {
        self.call_request("LitRPC.PendingDualFund", &NoParams)
    }

    /// Closes a channel cooperatively; reply shape [`StatusReply`].
    pub fn call_close_chan_request(&mut self, ChanIdx: u32) -> (r: (u64, String))
        requires
            old(self).inv(),
            old(self).next_msg_id < u64::MAX,
        ensures
            called(
                *old(self),
                *final(self),
                r,
                "LitRPC.CloseChannel"@,
                (ChanIdxArgs { ChanIdx }).wire_model(),
            ),
    {
        let args = ChanIdxArgs { ChanIdx };
        self.call_request("LitRPC.CloseChannel", &args)
    }

    /// Breaks a channel unilaterally; reply shape [`StatusReply`].
    pub fn call_break_chan_request(&mut self, ChanIdx: u32) -> (r: (u64, String))
        requires
            old(self).inv(),
            old(self).next_msg_id < u64::MAX,
        ensures
            called(
                *old(self),
                *final(self),
                r,
                "LitRPC.BreakChannel"@,
                (ChanIdxArgs { ChanIdx }).wire_model(),
            ),
    {
        let args = ChanIdxArgs { ChanIdx };
        self.call_request("LitRPC.BreakChannel", &args)
    }

    /// Sweeps outputs to one address; reply shape [`TxidsReply`].
    pub fn call_sweep_request(&mut self, DestAdr: String, NumTx: u32, Drop: bool) -> (r: (
        u64,
        String,
    ))
        requires
            old(self).inv(),
            old(self).next_msg_id < u64::MAX,
        ensures
            called(
                *old(self),
                *final(self),
                r,
                "LitRPC.Sweep"@,
                (SweepArgs { DestAdr, NumTx, Drop }).wire_model(),
            ),
    {
        let args = SweepArgs { DestAdr, NumTx, Drop };
        self.call_request("LitRPC.Sweep", &args)
    }

    /// Fans funds out into many outputs; reply shape [`TxidsReply`].
    pub fn call_fanout_request(
        &mut self,
        DestAdr: String,
        NumOutputs: u32,
        AmtPerOutput: i64,
    ) -> (r: (u64, String))
        requires
            old(self).inv(),
            old(self).next_msg_id < u64::MAX,
        ensures
            called(
                *old(self),
                *final(self),
                r,
                "LitRPC.Fanout"@,
                (FanoutArgs { DestAdr, NumOutputs, AmtPerOutput }).wire_model(),
            ),
    {
        let args = FanoutArgs { DestAdr, NumOutputs, AmtPerOutput };
        self.call_request("LitRPC.Fanout", &args)
    }

    /// Makes fresh receive addresses; reply shape [`AddressReply`].
    pub fn call_gen_address_request(&mut self, NumToMake: u32, CoinType: u32) -> (r: (
        u64,
        String,
    ))
        requires
            old(self).inv(),
            old(self).next_msg_id < u64::MAX,
        ensures
            called(
                *old(self),
                *final(self),
                r,
                "LitRPC.Address"@,
                (AddressArgs { NumToMake, CoinType }).wire_model(),
            ),
    {
        let args = AddressArgs { NumToMake, CoinType };
        self.call_request("LitRPC.Address", &args)
    }
}

} // verus!

// The canonical wire records of hand-constructed reply values, and the
// proofs that each record shape reads its own canonical record back
// unchanged: the per-record half of the round-trip law.

verus! {

/// The wire record a `CoinBalInfo` appears as in a response.
pub open spec fn bal_record(b: CoinBalInfo) -> RecV {
    RecV {
        fields: seq![
            ("CoinType"@, EntryV::Single(PrimV::Int(b.CoinType as int))),
            ("SyncHeight"@, EntryV::Single(PrimV::Int(b.SyncHeight as int))),
            ("ChanTotal"@, EntryV::Single(PrimV::Int(b.ChanTotal as int))),
            ("TxoTotal"@, EntryV::Single(PrimV::Int(b.TxoTotal as int))),
            ("MatureWitty"@, EntryV::Single(PrimV::Int(b.MatureWitty as int))),
            ("FeeRate"@, EntryV::Single(PrimV::Int(b.FeeRate as int))),
        ],
    }
}

/// A `CoinBalInfo` survives its canonical wire record unchanged.
proof fn lemma_bal_record(b: CoinBalInfo, y: &CoinBalInfo)
    ensures
        CoinBalInfo::rec_ok(bal_record(b)),
        CoinBalInfo::rec_sat(bal_record(b), y) ==> *y == b,
{
    reveal_strlit("CoinType");
    reveal_strlit("SyncHeight");
    reveal_strlit("ChanTotal");
    reveal_strlit("TxoTotal");
    reveal_strlit("MatureWitty");
    reveal_strlit("FeeRate");
    assert("CoinType"@.len() == 8);
    assert("SyncHeight"@.len() == 10);
    assert("ChanTotal"@.len() == 9);
    assert("TxoTotal"@.len() == 8);
    assert("MatureWitty"@.len() == 11);
    assert("FeeRate"@.len() == 7);
    assert("CoinType"@[0] == 'C');
    assert("CoinType"@[1] == 'o');
    assert("CoinType"@[2] == 'i');
    assert("SyncHeight"@[0] == 'S');
    assert("SyncHeight"@[1] == 'y');
    assert("SyncHeight"@[2] == 'n');
    assert("ChanTotal"@[0] == 'C');
    assert("ChanTotal"@[1] == 'h');
    assert("ChanTotal"@[2] == 'a');
    assert("TxoTotal"@[0] == 'T');
    assert("TxoTotal"@[1] == 'x');
    assert("TxoTotal"@[2] == 'o');
    assert("MatureWitty"@[0] == 'M');
    assert("MatureWitty"@[1] == 'a');
    assert("MatureWitty"@[2] == 't');
    assert("FeeRate"@[0] == 'F');
    assert("FeeRate"@[1] == 'e');
    assert("FeeRate"@[2] == 'e');
    let fs = bal_record(b).fields;
    let d1 = fs.drop_first();
    let d2 = d1.drop_first();
    let d3 = d2.drop_first();
    let d4 = d3.drop_first();
    let d5 = d4.drop_first();
    assert(d1[0] == fs[1]);
    assert(d2[0] == fs[2]);
    assert(d3[0] == fs[3]);
    assert(d4[0] == fs[4]);
    assert(d5[0] == fs[5]);
    assert(rec_lookup(fs, "CoinType"@) == Some(fs[0].1));
    assert(rec_lookup(fs, "SyncHeight"@) == rec_lookup(d1, "SyncHeight"@));
    assert(rec_lookup(d1, "SyncHeight"@) == Some(fs[1].1));
    assert(rec_lookup(fs, "ChanTotal"@) == rec_lookup(d1, "ChanTotal"@));
    assert(rec_lookup(d1, "ChanTotal"@) == rec_lookup(d2, "ChanTotal"@));
    assert(rec_lookup(d2, "ChanTotal"@) == Some(fs[2].1));
    assert(rec_lookup(fs, "TxoTotal"@) == rec_lookup(d1, "TxoTotal"@));
    assert(rec_lookup(d1, "TxoTotal"@) == rec_lookup(d2, "TxoTotal"@));
    assert(rec_lookup(d2, "TxoTotal"@) == rec_lookup(d3, "TxoTotal"@));
    assert(rec_lookup(d3, "TxoTotal"@) == Some(fs[3].1));
    assert(rec_lookup(fs, "MatureWitty"@) == rec_lookup(d1, "MatureWitty"@));
    assert(rec_lookup(d1, "MatureWitty"@) == rec_lookup(d2, "MatureWitty"@));
    assert(rec_lookup(d2, "MatureWitty"@) == rec_lookup(d3, "MatureWitty"@));
    assert(rec_lookup(d3, "MatureWitty"@) == rec_lookup(d4, "MatureWitty"@));
    assert(rec_lookup(d4, "MatureWitty"@) == Some(fs[4].1));
    assert(rec_lookup(fs, "FeeRate"@) == rec_lookup(d1, "FeeRate"@));
    assert(rec_lookup(d1, "FeeRate"@) == rec_lookup(d2, "FeeRate"@));
    assert(rec_lookup(d2, "FeeRate"@) == rec_lookup(d3, "FeeRate"@));
    assert(rec_lookup(d3, "FeeRate"@) == rec_lookup(d4, "FeeRate"@));
    assert(rec_lookup(d4, "FeeRate"@) == rec_lookup(d5, "FeeRate"@));
    assert(rec_lookup(d5, "FeeRate"@) == Some(fs[5].1));
}

/// The wire record a `ConInfo` appears as in a response.
pub open spec fn con_record(b: ConInfo) -> RecV {
    RecV {
        fields: seq![
            ("PeerNumber"@, EntryV::Single(PrimV::Int(b.PeerNumber as int))),
            ("RemoteHost"@, EntryV::Single(PrimV::Str(b.RemoteHost@))),
        ],
    }
}

/// Structural equality of two `ConInfo` values: every field equal, by
/// content.
pub open spec fn con_eqv(a: ConInfo, b: ConInfo) -> bool {
    &&& a.PeerNumber == b.PeerNumber
        &&& a.RemoteHost@ == b.RemoteHost@
}

/// A `ConInfo` survives its canonical wire record unchanged.
proof fn lemma_con_record(b: ConInfo, y: &ConInfo)
    ensures
        ConInfo::rec_ok(con_record(b)),
        ConInfo::rec_sat(con_record(b), y) ==> con_eqv(b, *y),
{
    reveal_strlit("PeerNumber");
    reveal_strlit("RemoteHost");
    assert("PeerNumber"@.len() == 10);
    assert("RemoteHost"@.len() == 10);
    assert("PeerNumber"@[0] == 'P');
    assert("PeerNumber"@[1] == 'e');
    assert("PeerNumber"@[2] == 'e');
    assert("RemoteHost"@[0] == 'R');
    assert("RemoteHost"@[1] == 'e');
    assert("RemoteHost"@[2] == 'm');
    let fs = con_record(b).fields;
    let d1 = fs.drop_first();
    assert(d1[0] == fs[1]);
    assert(rec_lookup(fs, "PeerNumber"@) == Some(fs[0].1));
    assert(rec_lookup(fs, "RemoteHost"@) == rec_lookup(d1, "RemoteHost"@));
    assert(rec_lookup(d1, "RemoteHost"@) == Some(fs[1].1));
}

/// The wire record a `TxoInfo` appears as in a response.
pub open spec fn txo_record(b: TxoInfo) -> RecV {
    RecV {
        fields: seq![
            ("OutPoint"@, EntryV::Single(PrimV::Str(b.OutPoint@))),
            ("Amt"@, EntryV::Single(PrimV::Int(b.Amt as int))),
            ("Height"@, EntryV::Single(PrimV::Int(b.Height as int))),
            ("Delay"@, EntryV::Single(PrimV::Int(b.Delay as int))),
            ("CoinType"@, EntryV::Single(PrimV::Str(b.CoinType@))),
            ("Witty"@, EntryV::Single(PrimV::Bool(b.Witty))),
            ("KeyPath"@, EntryV::Single(PrimV::Str(b.KeyPath@))),
        ],
    }
}

/// Structural equality of two `TxoInfo` values: every field equal, by
/// content.
pub open spec fn txo_eqv(a: TxoInfo, b: TxoInfo) -> bool {
    &&& a.OutPoint@ == b.OutPoint@
        &&& a.Amt == b.Amt
        &&& a.Height == b.Height
        &&& a.Delay == b.Delay
        &&& a.CoinType@ == b.CoinType@
        &&& a.Witty == b.Witty
        &&& a.KeyPath@ == b.KeyPath@
}

/// A `TxoInfo` survives its canonical wire record unchanged.
proof fn lemma_txo_record(b: TxoInfo, y: &TxoInfo)
    ensures
        TxoInfo::rec_ok(txo_record(b)),
        TxoInfo::rec_sat(txo_record(b), y) ==> txo_eqv(b, *y),
{
    reveal_strlit("OutPoint");
    reveal_strlit("Amt");
    reveal_strlit("Height");
    reveal_strlit("Delay");
    reveal_strlit("CoinType");
    reveal_strlit("Witty");
    reveal_strlit("KeyPath");
    assert("OutPoint"@.len() == 8);
    assert("Amt"@.len() == 3);
    assert("Height"@.len() == 6);
    assert("Delay"@.len() == 5);
    assert("CoinType"@.len() == 8);
    assert("Witty"@.len() == 5);
    assert("KeyPath"@.len() == 7);
    assert("OutPoint"@[0] == 'O');
    assert("OutPoint"@[1] == 'u');
    assert("OutPoint"@[2] == 't');
    assert("Amt"@[0] == 'A');
    assert("Amt"@[1] == 'm');
    assert("Amt"@[2] == 't');
    assert("Height"@[0] == 'H');
    assert("Height"@[1] == 'e');
    assert("Height"@[2] == 'i');
    assert("Delay"@[0] == 'D');
    assert("Delay"@[1] == 'e');
    assert("Delay"@[2] == 'l');
    assert("CoinType"@[0] == 'C');
    assert("CoinType"@[1] == 'o');
    assert("CoinType"@[2] == 'i');
    assert("Witty"@[0] == 'W');
    assert("Witty"@[1] == 'i');
    assert("Witty"@[2] == 't');
    assert("KeyPath"@[0] == 'K');
    assert("KeyPath"@[1] == 'e');
    assert("KeyPath"@[2] == 'y');
    let fs = txo_record(b).fields;
    let d1 = fs.drop_first();
    let d2 = d1.drop_first();
    let d3 = d2.drop_first();
    let d4 = d3.drop_first();
    let d5 = d4.drop_first();
    let d6 = d5.drop_first();
    assert(d1[0] == fs[1]);
    assert(d2[0] == fs[2]);
    assert(d3[0] == fs[3]);
    assert(d4[0] == fs[4]);
    assert(d5[0] == fs[5]);
    assert(d6[0] == fs[6]);
    assert(rec_lookup(fs, "OutPoint"@) == Some(fs[0].1));
    assert(rec_lookup(fs, "Amt"@) == rec_lookup(d1, "Amt"@));
    assert(rec_lookup(d1, "Amt"@) == Some(fs[1].1));
    assert(rec_lookup(fs, "Height"@) == rec_lookup(d1, "Height"@));
    assert(rec_lookup(d1, "Height"@) == rec_lookup(d2, "Height"@));
    assert(rec_lookup(d2, "Height"@) == Some(fs[2].1));
    assert(rec_lookup(fs, "Delay"@) == rec_lookup(d1, "Delay"@));
    assert(rec_lookup(d1, "Delay"@) == rec_lookup(d2, "Delay"@));
    assert(rec_lookup(d2, "Delay"@) == rec_lookup(d3, "Delay"@));
    assert(rec_lookup(d3, "Delay"@) == Some(fs[3].1));
    assert(rec_lookup(fs, "CoinType"@) == rec_lookup(d1, "CoinType"@));
    assert(rec_lookup(d1, "CoinType"@) == rec_lookup(d2, "CoinType"@));
    assert(rec_lookup(d2, "CoinType"@) == rec_lookup(d3, "CoinType"@));
    assert(rec_lookup(d3, "CoinType"@) == rec_lookup(d4, "CoinType"@));
    assert(rec_lookup(d4, "CoinType"@) == Some(fs[4].1));
    assert(rec_lookup(fs, "Witty"@) == rec_lookup(d1, "Witty"@));
    assert(rec_lookup(d1, "Witty"@) == rec_lookup(d2, "Witty"@));
    assert(rec_lookup(d2, "Witty"@) == rec_lookup(d3, "Witty"@));
    assert(rec_lookup(d3, "Witty"@) == rec_lookup(d4, "Witty"@));
    assert(rec_lookup(d4, "Witty"@) == rec_lookup(d5, "Witty"@));
    assert(rec_lookup(d5, "Witty"@) == Some(fs[5].1));
    assert(rec_lookup(fs, "KeyPath"@) == rec_lookup(d1, "KeyPath"@));
    assert(rec_lookup(d1, "KeyPath"@) == rec_lookup(d2, "KeyPath"@));
    assert(rec_lookup(d2, "KeyPath"@) == rec_lookup(d3, "KeyPath"@));
    assert(rec_lookup(d3, "KeyPath"@) == rec_lookup(d4, "KeyPath"@));
    assert(rec_lookup(d4, "KeyPath"@) == rec_lookup(d5, "KeyPath"@));
    assert(rec_lookup(d5, "KeyPath"@) == rec_lookup(d6, "KeyPath"@));
    assert(rec_lookup(d6, "KeyPath"@) == Some(fs[6].1));
}

/// The wire record a `PrivInfo` appears as in a response.
pub open spec fn priv_record(b: PrivInfo) -> RecV {
    RecV {
        fields: seq![
            ("OutPoint"@, EntryV::Single(PrimV::Str(b.OutPoint@))),
            ("Amt"@, EntryV::Single(PrimV::Int(b.Amt as int))),
            ("Height"@, EntryV::Single(PrimV::Int(b.Height as int))),
            ("Delay"@, EntryV::Single(PrimV::Int(b.Delay as int))),
            ("CoinType"@, EntryV::Single(PrimV::Str(b.CoinType@))),
            ("Witty"@, EntryV::Single(PrimV::Bool(b.Witty))),
            ("PairKey"@, EntryV::Single(PrimV::Str(b.PairKey@))),
            ("WIF"@, EntryV::Single(PrimV::Str(b.WIF@))),
        ],
    }
}

/// Structural equality of two `PrivInfo` values: every field equal, by
/// content.
pub open spec fn priv_eqv(a: PrivInfo, b: PrivInfo) -> bool {
    &&& a.OutPoint@ == b.OutPoint@
        &&& a.Amt == b.Amt
        &&& a.Height == b.Height
        &&& a.Delay == b.Delay
        &&& a.CoinType@ == b.CoinType@
        &&& a.Witty == b.Witty
        &&& a.PairKey@ == b.PairKey@
        &&& a.WIF@ == b.WIF@
}

/// A `PrivInfo` survives its canonical wire record unchanged.
proof fn lemma_priv_record(b: PrivInfo, y: &PrivInfo)
    ensures
        PrivInfo::rec_ok(priv_record(b)),
        PrivInfo::rec_sat(priv_record(b), y) ==> priv_eqv(b, *y),
{
    reveal_strlit("OutPoint");
    reveal_strlit("Amt");
    reveal_strlit("Height");
    reveal_strlit("Delay");
    reveal_strlit("CoinType");
    reveal_strlit("Witty");
    reveal_strlit("PairKey");
    reveal_strlit("WIF");
    assert("OutPoint"@.len() == 8);
    assert("Amt"@.len() == 3);
    assert("Height"@.len() == 6);
    assert("Delay"@.len() == 5);
    assert("CoinType"@.len() == 8);
    assert("Witty"@.len() == 5);
    assert("PairKey"@.len() == 7);
    assert("WIF"@.len() == 3);
    assert("OutPoint"@[0] == 'O');
    assert("OutPoint"@[1] == 'u');
    assert("OutPoint"@[2] == 't');
    assert("Amt"@[0] == 'A');
    assert("Amt"@[1] == 'm');
    assert("Amt"@[2] == 't');
    assert("Height"@[0] == 'H');
    assert("Height"@[1] == 'e');
    assert("Height"@[2] == 'i');
    assert("Delay"@[0] == 'D');
    assert("Delay"@[1] == 'e');
    assert("Delay"@[2] == 'l');
    assert("CoinType"@[0] == 'C');
    assert("CoinType"@[1] == 'o');
    assert("CoinType"@[2] == 'i');
    assert("Witty"@[0] == 'W');
    assert("Witty"@[1] == 'i');
    assert("Witty"@[2] == 't');
    assert("PairKey"@[0] == 'P');
    assert("PairKey"@[1] == 'a');
    assert("PairKey"@[2] == 'i');
    assert("WIF"@[0] == 'W');
    assert("WIF"@[1] == 'I');
    assert("WIF"@[2] == 'F');
    let fs = priv_record(b).fields;
    let d1 = fs.drop_first();
    let d2 = d1.drop_first();
    let d3 = d2.drop_first();
    let d4 = d3.drop_first();
    let d5 = d4.drop_first();
    let d6 = d5.drop_first();
    let d7 = d6.drop_first();
    assert(d1[0] == fs[1]);
    assert(d2[0] == fs[2]);
    assert(d3[0] == fs[3]);
    assert(d4[0] == fs[4]);
    assert(d5[0] == fs[5]);
    assert(d6[0] == fs[6]);
    assert(d7[0] == fs[7]);
    assert(rec_lookup(fs, "OutPoint"@) == Some(fs[0].1));
    assert(rec_lookup(fs, "Amt"@) == rec_lookup(d1, "Amt"@));
    assert(rec_lookup(d1, "Amt"@) == Some(fs[1].1));
    assert(rec_lookup(fs, "Height"@) == rec_lookup(d1, "Height"@));
    assert(rec_lookup(d1, "Height"@) == rec_lookup(d2, "Height"@));
    assert(rec_lookup(d2, "Height"@) == Some(fs[2].1));
    assert(rec_lookup(fs, "Delay"@) == rec_lookup(d1, "Delay"@));
    assert(rec_lookup(d1, "Delay"@) == rec_lookup(d2, "Delay"@));
    assert(rec_lookup(d2, "Delay"@) == rec_lookup(d3, "Delay"@));
    assert(rec_lookup(d3, "Delay"@) == Some(fs[3].1));
    assert(rec_lookup(fs, "CoinType"@) == rec_lookup(d1, "CoinType"@));
    assert(rec_lookup(d1, "CoinType"@) == rec_lookup(d2, "CoinType"@));
    assert(rec_lookup(d2, "CoinType"@) == rec_lookup(d3, "CoinType"@));
    assert(rec_lookup(d3, "CoinType"@) == rec_lookup(d4, "CoinType"@));
    assert(rec_lookup(d4, "CoinType"@) == Some(fs[4].1));
    assert(rec_lookup(fs, "Witty"@) == rec_lookup(d1, "Witty"@));
    assert(rec_lookup(d1, "Witty"@) == rec_lookup(d2, "Witty"@));
    assert(rec_lookup(d2, "Witty"@) == rec_lookup(d3, "Witty"@));
    assert(rec_lookup(d3, "Witty"@) == rec_lookup(d4, "Witty"@));
    assert(rec_lookup(d4, "Witty"@) == rec_lookup(d5, "Witty"@));
    assert(rec_lookup(d5, "Witty"@) == Some(fs[5].1));
    assert(rec_lookup(fs, "PairKey"@) == rec_lookup(d1, "PairKey"@));
    assert(rec_lookup(d1, "PairKey"@) == rec_lookup(d2, "PairKey"@));
    assert(rec_lookup(d2, "PairKey"@) == rec_lookup(d3, "PairKey"@));
    assert(rec_lookup(d3, "PairKey"@) == rec_lookup(d4, "PairKey"@));
    assert(rec_lookup(d4, "PairKey"@) == rec_lookup(d5, "PairKey"@));
    assert(rec_lookup(d5, "PairKey"@) == rec_lookup(d6, "PairKey"@));
    assert(rec_lookup(d6, "PairKey"@) == Some(fs[6].1));
    assert(rec_lookup(fs, "WIF"@) == rec_lookup(d1, "WIF"@));
    assert(rec_lookup(d1, "WIF"@) == rec_lookup(d2, "WIF"@));
    assert(rec_lookup(d2, "WIF"@) == rec_lookup(d3, "WIF"@));
    assert(rec_lookup(d3, "WIF"@) == rec_lookup(d4, "WIF"@));
    assert(rec_lookup(d4, "WIF"@) == rec_lookup(d5, "WIF"@));
    assert(rec_lookup(d5, "WIF"@) == rec_lookup(d6, "WIF"@));
    assert(rec_lookup(d6, "WIF"@) == rec_lookup(d7, "WIF"@));
    assert(rec_lookup(d7, "WIF"@) == Some(fs[7].1));
}

/// The wire record a `ChanInfo` appears as in a response.
pub open spec fn chan_record(b: ChanInfo) -> RecV {
    RecV {
        fields: seq![
            ("OutPoint"@, EntryV::Single(PrimV::Str(b.OutPoint@))),
            ("CoinType"@, EntryV::Single(PrimV::Int(b.CoinType as int))),
            ("Closed"@, EntryV::Single(PrimV::Bool(b.Closed))),
            ("Capacity"@, EntryV::Single(PrimV::Int(b.Capacity as int))),
            ("MyBalance"@, EntryV::Single(PrimV::Int(b.MyBalance as int))),
            ("Height"@, EntryV::Single(PrimV::Int(b.Height as int))),
            ("StateNum"@, EntryV::Single(PrimV::Int(b.StateNum as int))),
            ("PeerIdx"@, EntryV::Single(PrimV::Int(b.PeerIdx as int))),
            ("CIdx"@, EntryV::Single(PrimV::Int(b.CIdx as int))),
            ("Data"@, EntryV::List(b.Data@.map_values(|v: u8| PrimV::Int(v as int)))),
            ("Pkh"@, EntryV::List(b.Pkh@.map_values(|v: u8| PrimV::Int(v as int)))),
        ],
    }
}

/// Structural equality of two `ChanInfo` values: every field equal, by
/// content.
pub open spec fn chan_eqv(a: ChanInfo, b: ChanInfo) -> bool {
    &&& a.OutPoint@ == b.OutPoint@
        &&& a.CoinType == b.CoinType
        &&& a.Closed == b.Closed
        &&& a.Capacity == b.Capacity
        &&& a.MyBalance == b.MyBalance
        &&& a.Height == b.Height
        &&& a.StateNum == b.StateNum
        &&& a.PeerIdx == b.PeerIdx
        &&& a.CIdx == b.CIdx
        &&& a.Data@ == b.Data@
        &&& a.Pkh@ == b.Pkh@
}

/// A `ChanInfo` survives its canonical wire record unchanged.
proof fn lemma_chan_record(b: ChanInfo, y: &ChanInfo)
    ensures
        (b.Data@.len() == 32 && b.Pkh@.len() == 20) ==> ChanInfo::rec_ok(chan_record(b)),
        ChanInfo::rec_sat(chan_record(b), y) ==> chan_eqv(b, *y),
{
    reveal_strlit("OutPoint");
    reveal_strlit("CoinType");
    reveal_strlit("Closed");
    reveal_strlit("Capacity");
    reveal_strlit("MyBalance");
    reveal_strlit("Height");
    reveal_strlit("StateNum");
    reveal_strlit("PeerIdx");
    reveal_strlit("CIdx");
    reveal_strlit("Data");
    reveal_strlit("Pkh");
    assert("OutPoint"@.len() == 8);
    assert("CoinType"@.len() == 8);
    assert("Closed"@.len() == 6);
    assert("Capacity"@.len() == 8);
    assert("MyBalance"@.len() == 9);
    assert("Height"@.len() == 6);
    assert("StateNum"@.len() == 8);
    assert("PeerIdx"@.len() == 7);
    assert("CIdx"@.len() == 4);
    assert("Data"@.len() == 4);
    assert("Pkh"@.len() == 3);
    assert("OutPoint"@[0] == 'O');
    assert("OutPoint"@[1] == 'u');
    assert("OutPoint"@[2] == 't');
    assert("CoinType"@[0] == 'C');
    assert("CoinType"@[1] == 'o');
    assert("CoinType"@[2] == 'i');
    assert("Closed"@[0] == 'C');
    assert("Closed"@[1] == 'l');
    assert("Closed"@[2] == 'o');
    assert("Capacity"@[0] == 'C');
    assert("Capacity"@[1] == 'a');
    assert("Capacity"@[2] == 'p');
    assert("MyBalance"@[0] == 'M');
    assert("MyBalance"@[1] == 'y');
    assert("MyBalance"@[2] == 'B');
    assert("Height"@[0] == 'H');
    assert("Height"@[1] == 'e');
    assert("Height"@[2] == 'i');
    assert("StateNum"@[0] == 'S');
    assert("StateNum"@[1] == 't');
    assert("StateNum"@[2] == 'a');
    assert("PeerIdx"@[0] == 'P');
    assert("PeerIdx"@[1] == 'e');
    assert("PeerIdx"@[2] == 'e');
    assert("CIdx"@[0] == 'C');
    assert("CIdx"@[1] == 'I');
    assert("CIdx"@[2] == 'd');
    assert("Data"@[0] == 'D');
    assert("Data"@[1] == 'a');
    assert("Data"@[2] == 't');
    assert("Pkh"@[0] == 'P');
    assert("Pkh"@[1] == 'k');
    assert("Pkh"@[2] == 'h');
    let fs = chan_record(b).fields;
    let d1 = fs.drop_first();
    let d2 = d1.drop_first();
    let d3 = d2.drop_first();
    let d4 = d3.drop_first();
    let d5 = d4.drop_first();
    let d6 = d5.drop_first();
    let d7 = d6.drop_first();
    let d8 = d7.drop_first();
    let d9 = d8.drop_first();
    let d10 = d9.drop_first();
    assert(d1[0] == fs[1]);
    assert(d2[0] == fs[2]);
    assert(d3[0] == fs[3]);
    assert(d4[0] == fs[4]);
    assert(d5[0] == fs[5]);
    assert(d6[0] == fs[6]);
    assert(d7[0] == fs[7]);
    assert(d8[0] == fs[8]);
    assert(d9[0] == fs[9]);
    assert(d10[0] == fs[10]);
    assert(rec_lookup(fs, "OutPoint"@) == Some(fs[0].1));
    assert(rec_lookup(fs, "CoinType"@) == rec_lookup(d1, "CoinType"@));
    assert(rec_lookup(d1, "CoinType"@) == Some(fs[1].1));
    assert(rec_lookup(fs, "Closed"@) == rec_lookup(d1, "Closed"@));
    assert(rec_lookup(d1, "Closed"@) == rec_lookup(d2, "Closed"@));
    assert(rec_lookup(d2, "Closed"@) == Some(fs[2].1));
    assert(rec_lookup(fs, "Capacity"@) == rec_lookup(d1, "Capacity"@));
    assert(rec_lookup(d1, "Capacity"@) == rec_lookup(d2, "Capacity"@));
    assert(rec_lookup(d2, "Capacity"@) == rec_lookup(d3, "Capacity"@));
    assert(rec_lookup(d3, "Capacity"@) == Some(fs[3].1));
    assert(rec_lookup(fs, "MyBalance"@) == rec_lookup(d1, "MyBalance"@));
    assert(rec_lookup(d1, "MyBalance"@) == rec_lookup(d2, "MyBalance"@));
    assert(rec_lookup(d2, "MyBalance"@) == rec_lookup(d3, "MyBalance"@));
    assert(rec_lookup(d3, "MyBalance"@) == rec_lookup(d4, "MyBalance"@));
    assert(rec_lookup(d4, "MyBalance"@) == Some(fs[4].1));
    assert(rec_lookup(fs, "Height"@) == rec_lookup(d1, "Height"@));
    assert(rec_lookup(d1, "Height"@) == rec_lookup(d2, "Height"@));
    assert(rec_lookup(d2, "Height"@) == rec_lookup(d3, "Height"@));
    assert(rec_lookup(d3, "Height"@) == rec_lookup(d4, "Height"@));
    assert(rec_lookup(d4, "Height"@) == rec_lookup(d5, "Height"@));
    assert(rec_lookup(d5, "Height"@) == Some(fs[5].1));
    assert(rec_lookup(fs, "StateNum"@) == rec_lookup(d1, "StateNum"@));
    assert(rec_lookup(d1, "StateNum"@) == rec_lookup(d2, "StateNum"@));
    assert(rec_lookup(d2, "StateNum"@) == rec_lookup(d3, "StateNum"@));
    assert(rec_lookup(d3, "StateNum"@) == rec_lookup(d4, "StateNum"@));
    assert(rec_lookup(d4, "StateNum"@) == rec_lookup(d5, "StateNum"@));
    assert(rec_lookup(d5, "StateNum"@) == rec_lookup(d6, "StateNum"@));
    assert(rec_lookup(d6, "StateNum"@) == Some(fs[6].1));
    assert(rec_lookup(fs, "PeerIdx"@) == rec_lookup(d1, "PeerIdx"@));
    assert(rec_lookup(d1, "PeerIdx"@) == rec_lookup(d2, "PeerIdx"@));
    assert(rec_lookup(d2, "PeerIdx"@) == rec_lookup(d3, "PeerIdx"@));
    assert(rec_lookup(d3, "PeerIdx"@) == rec_lookup(d4, "PeerIdx"@));
    assert(rec_lookup(d4, "PeerIdx"@) == rec_lookup(d5, "PeerIdx"@));
    assert(rec_lookup(d5, "PeerIdx"@) == rec_lookup(d6, "PeerIdx"@));
    assert(rec_lookup(d6, "PeerIdx"@) == rec_lookup(d7, "PeerIdx"@));
    assert(rec_lookup(d7, "PeerIdx"@) == Some(fs[7].1));
    assert(rec_lookup(fs, "CIdx"@) == rec_lookup(d1, "CIdx"@));
    assert(rec_lookup(d1, "CIdx"@) == rec_lookup(d2, "CIdx"@));
    assert(rec_lookup(d2, "CIdx"@) == rec_lookup(d3, "CIdx"@));
    assert(rec_lookup(d3, "CIdx"@) == rec_lookup(d4, "CIdx"@));
    assert(rec_lookup(d4, "CIdx"@) == rec_lookup(d5, "CIdx"@));
    assert(rec_lookup(d5, "CIdx"@) == rec_lookup(d6, "CIdx"@));
    assert(rec_lookup(d6, "CIdx"@) == rec_lookup(d7, "CIdx"@));
    assert(rec_lookup(d7, "CIdx"@) == rec_lookup(d8, "CIdx"@));
    assert(rec_lookup(d8, "CIdx"@) == Some(fs[8].1));
    assert(rec_lookup(fs, "Data"@) == rec_lookup(d1, "Data"@));
    assert(rec_lookup(d1, "Data"@) == rec_lookup(d2, "Data"@));
    assert(rec_lookup(d2, "Data"@) == rec_lookup(d3, "Data"@));
    assert(rec_lookup(d3, "Data"@) == rec_lookup(d4, "Data"@));
    assert(rec_lookup(d4, "Data"@) == rec_lookup(d5, "Data"@));
    assert(rec_lookup(d5, "Data"@) == rec_lookup(d6, "Data"@));
    assert(rec_lookup(d6, "Data"@) == rec_lookup(d7, "Data"@));
    assert(rec_lookup(d7, "Data"@) == rec_lookup(d8, "Data"@));
    assert(rec_lookup(d8, "Data"@) == rec_lookup(d9, "Data"@));
    assert(rec_lookup(d9, "Data"@) == Some(fs[9].1));
    assert(rec_lookup(fs, "Pkh"@) == rec_lookup(d1, "Pkh"@));
    assert(rec_lookup(d1, "Pkh"@) == rec_lookup(d2, "Pkh"@));
    assert(rec_lookup(d2, "Pkh"@) == rec_lookup(d3, "Pkh"@));
    assert(rec_lookup(d3, "Pkh"@) == rec_lookup(d4, "Pkh"@));
    assert(rec_lookup(d4, "Pkh"@) == rec_lookup(d5, "Pkh"@));
    assert(rec_lookup(d5, "Pkh"@) == rec_lookup(d6, "Pkh"@));
    assert(rec_lookup(d6, "Pkh"@) == rec_lookup(d7, "Pkh"@));
    assert(rec_lookup(d7, "Pkh"@) == rec_lookup(d8, "Pkh"@));
    assert(rec_lookup(d8, "Pkh"@) == rec_lookup(d9, "Pkh"@));
    assert(rec_lookup(d9, "Pkh"@) == rec_lookup(d10, "Pkh"@));
    assert(rec_lookup(d10, "Pkh"@) == Some(fs[10].1));
    let data_model = b.Data@.map_values(|v: u8| PrimV::Int(v as int));
    assert(all_bytes(data_model)) by {
        assert forall|i: int|
            0 <= i < data_model.len() implies (#[trigger] data_model[i]) is Int && 0
            <= data_model[i]->Int_0 <= 255 by {
            assert(data_model[i] == PrimV::Int(b.Data@[i] as int));
        }
    }
    assert(data_model.map_values(|q: PrimV| q->Int_0 as u8) =~= b.Data@);
    let pkh_model = b.Pkh@.map_values(|v: u8| PrimV::Int(v as int));
    assert(all_bytes(pkh_model)) by {
        assert forall|i: int|
            0 <= i < pkh_model.len() implies (#[trigger] pkh_model[i]) is Int && 0
            <= pkh_model[i]->Int_0 <= 255 by {
            assert(pkh_model[i] == PrimV::Int(b.Pkh@[i] as int));
        }
    }
    assert(pkh_model.map_values(|q: PrimV| q->Int_0 as u8) =~= b.Pkh@);
}

} // verus!

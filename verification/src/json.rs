//! The structured values that travel inside the wire envelope.
//!
//! The protocol's payloads are shallow: a parameter or result object maps
//! field names to scalars, to lists of scalars, or to lists of flat records
//! (whose own fields are again scalars or lists of scalars).  The types here
//! model exactly that fragment, so every operation on a payload can carry a
//! full contract.  A field outside the fragment — as an unknown field of a
//! response may be — is carried as an opaque `Foreign` value instead of
//! failing the decode.

use vstd::prelude::*;

verus! {

/// Whether a number is within the wire bound: the protocol's unsigned
/// identifiers are 64-bit, its signed amounts 64-bit, so every number that is
/// sent or accepted has magnitude at most `u64::MAX`.
pub open spec fn int_wf(i: int) -> bool {
    -0xffff_ffff_ffff_ffff <= i <= 0xffff_ffff_ffff_ffff
}

/// A wire scalar.
#[derive(Clone, Debug)]
pub enum Prim {
    Null,
    Bool(bool),
    Int(i128),
    Str(String),
}

/// Mathematical model of a [`Prim`].
pub enum PrimV {
    Null,
    Bool(bool),
    Int(int),
    Str(Seq<char>),
}

impl View for Prim {
    type V = PrimV;

    open spec fn view(&self) -> PrimV {
        match self {
            Prim::Null => PrimV::Null,
            Prim::Bool(b) => PrimV::Bool(*b),
            Prim::Int(i) => PrimV::Int(*i as int),
            Prim::Str(s) => PrimV::Str(s@),
        }
    }
}

impl PrimV {
    pub open spec fn wf(self) -> bool {
        match self {
            PrimV::Int(i) => int_wf(i),
            _ => true,
        }
    }
}

/// The value of one field of a record nested inside a payload list: a scalar
/// or a list of scalars.  A well-formed wire value of any other shape parses
/// as `Foreign`: it is carried opaquely so that unknown fields of a response
/// never fail the decode, and it is never encoded.
#[derive(Clone, Debug)]
pub enum Entry {
    Single(Prim),
    List(Vec<Prim>),
    Foreign,
}

/// Mathematical model of an [`Entry`].
pub enum EntryV {
    Single(PrimV),
    List(Seq<PrimV>),
    Foreign,
}

impl View for Entry {
    type V = EntryV;

    open spec fn view(&self) -> EntryV {
        match self {
            Entry::Single(p) => EntryV::Single(p@),
            Entry::List(v) => EntryV::List(v@.map_values(|p: Prim| p@)),
            Entry::Foreign => EntryV::Foreign,
        }
    }
}

impl EntryV {
    pub open spec fn wf(self) -> bool {
        match self {
            EntryV::Single(p) => p.wf(),
            EntryV::List(s) => forall|i: int| 0 <= i < s.len() ==> #[trigger] s[i].wf(),
            EntryV::Foreign => false,
        }
    }
}

/// A flat record inside a payload list, such as one balance or one channel.
#[derive(Clone, Debug)]
pub struct Rec {
    pub fields: Vec<(String, Entry)>,
}

/// Mathematical model of a [`Rec`].
#[verifier::ext_equal]
pub struct RecV {
    pub fields: Seq<(Seq<char>, EntryV)>,
}

impl View for Rec {
    type V = RecV;

    open spec fn view(&self) -> RecV {
        RecV { fields: self.fields@.map_values(|kv: (String, Entry)| (kv.0@, kv.1@)) }
    }
}

impl RecV {
    pub open spec fn wf(self) -> bool {
        forall|i: int| 0 <= i < self.fields.len() ==> (#[trigger] self.fields[i]).1.wf()
    }
}

/// The value of one field of a payload object.  A well-formed wire value of
/// any other shape parses as `Foreign`: carried opaquely so that unknown
/// fields never fail the decode, never encoded.
#[derive(Clone, Debug)]
pub enum FieldVal {
    Single(Prim),
    Items(Vec<Prim>),
    Records(Vec<Rec>),
    Foreign,
}

/// Mathematical model of a [`FieldVal`].
pub enum FieldValV {
    Single(PrimV),
    Items(Seq<PrimV>),
    Records(Seq<RecV>),
    Foreign,
}

impl View for FieldVal {
    type V = FieldValV;

    open spec fn view(&self) -> FieldValV {
        match self {
            FieldVal::Single(p) => FieldValV::Single(p@),
            FieldVal::Items(v) => FieldValV::Items(v@.map_values(|p: Prim| p@)),
            FieldVal::Records(v) => FieldValV::Records(v@.map_values(|r: Rec| r@)),
            FieldVal::Foreign => FieldValV::Foreign,
        }
    }
}

impl FieldValV {
    pub open spec fn wf(self) -> bool {
        match self {
            FieldValV::Single(p) => p.wf(),
            FieldValV::Items(s) => forall|i: int| 0 <= i < s.len() ==> #[trigger] s[i].wf(),
            FieldValV::Records(s) => forall|i: int| 0 <= i < s.len() ==> #[trigger] s[i].wf(),
            FieldValV::Foreign => false,
        }
    }
}

/// A payload object: the `params` of a request, or the `result` or `error`
/// of a response.
#[derive(Clone, Debug)]
pub struct Payload {
    pub fields: Vec<(String, FieldVal)>,
}

/// Mathematical model of a [`Payload`].
#[verifier::ext_equal]
pub struct PayloadV {
    pub fields: Seq<(Seq<char>, FieldValV)>,
}

impl View for Payload {
    type V = PayloadV;

    open spec fn view(&self) -> PayloadV {
        PayloadV { fields: self.fields@.map_values(|kv: (String, FieldVal)| (kv.0@, kv.1@)) }
    }
}

impl PayloadV {
    pub open spec fn wf(self) -> bool {
        forall|i: int| 0 <= i < self.fields.len() ==> (#[trigger] self.fields[i]).1.wf()
    }

    pub open spec fn empty() -> PayloadV {
        PayloadV { fields: Seq::empty() }
    }
}

impl Payload {
    /// The empty payload, for procedures that take no parameters.
    pub fn empty() -> (r: Payload)
        ensures
            r@ == PayloadV::empty(),
    {
        let r = Payload { fields: Vec::new() };
        proof {
            assert(r@.fields =~= Seq::<(Seq<char>, FieldValV)>::empty());
            assert(r@ =~= PayloadV::empty());
        }
        r
    }
}

} // verus!

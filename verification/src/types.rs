//! Data model of the session façade: payloads, samples, key expressions,
//! selectors, peer identifiers, and the enumerated policy values that the
//! option overlay can set.

use vstd::prelude::*;

verus! {

/// Kind of a publication: a value write or a deletion marker.
#[derive(Clone, Copy, PartialEq, Eq, Structural, Debug)]
pub enum SampleKind {
    Put,
    Delete,
}

/// Behaviour when the network path is backpressured.
#[derive(Clone, Copy, PartialEq, Eq, Structural, Debug)]
pub enum CongestionControl {
    Block,
    Drop,
}

/// Relative scheduling weight of a publication.
#[derive(Clone, Copy, PartialEq, Eq, Structural, Debug)]
pub enum Priority {
    RealTime,
    InteractiveHigh,
    InteractiveLow,
    DataHigh,
    Data,
    DataLow,
    Background,
}

/// How multiple replies to one query are merged or deduplicated.
#[derive(Clone, Copy, PartialEq, Eq, Structural, Debug)]
pub enum ConsolidationMode {
    Auto,
    NoConsolidation,
    Monotonic,
    Latest,
}

/// Which peer roles a query is sent to.
#[derive(Clone, Copy, PartialEq, Eq, Structural, Debug)]
pub enum QueryTarget {
    BestMatching,
    All,
    AllComplete,
}

/// Delivery expectation of a subscription.
#[derive(Clone, Copy, PartialEq, Eq, Structural, Debug)]
pub enum Reliability {
    BestEffort,
    Reliable,
}

/// An engine-validated topic pattern, carried opaquely: the matching grammar
/// is the engine's own and is never interpreted here.
#[derive(Debug, PartialEq, Eq)]
pub struct KeyExpr {
    pub text: String,
}

impl KeyExpr {
    pub fn new(text: String) -> (r: KeyExpr)
        ensures
            r.text@ == text@,
    {
        KeyExpr { text }
    }
}

impl Clone for KeyExpr {
    fn clone(&self) -> (r: Self)
        ensures
            r == *self,
    {
        KeyExpr { text: self.text.clone() }
    }
}

impl View for KeyExpr {
    type V = Seq<char>;

    open spec fn view(&self) -> Seq<char> {
        self.text@
    }
}

/// A key expression plus query parameters; used only by `get`.
#[derive(Debug, PartialEq, Eq)]
pub struct Selector {
    pub key_expr: KeyExpr,
    pub parameters: String,
}

impl Clone for Selector {
    fn clone(&self) -> (r: Self)
        ensures
            r == *self,
    {
        Selector { key_expr: self.key_expr.clone(), parameters: self.parameters.clone() }
    }
}

/// An immutable payload plus its encoding label.
#[derive(Debug, PartialEq, Eq)]
pub struct Value {
    pub payload: Vec<u8>,
    pub encoding: String,
}

impl Value {
    /// The empty payload that a deletion marker carries.
    pub fn empty() -> (r: Value)
        ensures
            r.payload@ == Seq::<u8>::empty(),
            r.encoding@ == Seq::<char>::empty(),
    {
        Value { payload: Vec::new(), encoding: String::new() }
    }
}

/// A payload delivered to a subscriber, tagged put or delete.
#[derive(Debug, PartialEq, Eq)]
pub struct Sample {
    pub key_expr: KeyExpr,
    pub value: Value,
    pub kind: SampleKind,
}

/// A byte-for-byte copy of a byte vector.
pub fn clone_bytes(v: &Vec<u8>) -> (r: Vec<u8>)
    ensures
        r@ == v@,
{
    let mut copy: Vec<u8> = Vec::new();
    let mut i: usize = 0;
    while i < v.len()
        invariant
            i <= v@.len(),
            copy@ == v@.subrange(0, i as int),
        decreases v@.len() - i,
    {
        copy.push(v[i]);
        i = i + 1;
    }
    proof {
        assert(copy@ =~= v@);
    }
    copy
}

/// Opaque unique identifier of a network peer.
#[derive(Debug, PartialEq, Eq)]
pub struct ZenohId {
    pub bytes: Vec<u8>,
}

impl Clone for ZenohId {
    fn clone(&self) -> (r: Self)
        ensures
            r.bytes@ == self.bytes@,
    {
        ZenohId { bytes: clone_bytes(&self.bytes) }
    }
}

} // verus!

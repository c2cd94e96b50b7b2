//! Model of outgoing-request metadata, and the rule deciding which strings
//! are usable as metadata values.

use vstd::prelude::*;
use vstd::string::StringSliceAdditionalSpecFns;
use vstd::utf8::encode_utf8;

verus! {

/// A byte that may appear in a request metadata (header) value: the
/// horizontal tab, or any byte from the space character on except the
/// ASCII delete.
pub open spec fn legal_header_byte(b: u8) -> bool {
    b == 9 || (32 <= b && b != 127)
}

/// Every byte of the sequence may appear in a metadata value.
pub open spec fn legal_header_bytes(s: Seq<u8>) -> bool {
    forall|i: int| 0 <= i < s.len() ==> legal_header_byte(#[trigger] s[i])
}

/// The characters encode, as UTF-8, to bytes that are all legal in a
/// metadata value.
pub open spec fn legal_header_value(s: Seq<char>) -> bool {
    legal_header_bytes(encode_utf8(s))
}

/// Decides whether a string can be carried as a request metadata value.
pub fn check_header_value(s: &str) -> (r: bool)
    ensures
        r == legal_header_value(s@),
{
    let bytes: &[u8] = s.as_bytes();
    let mut i: usize = 0;
    while i < bytes.len()
        invariant
            0 <= i <= bytes@.len(),
            bytes@ == encode_utf8(s@),
            forall|j: int| 0 <= j < i ==> legal_header_byte(#[trigger] bytes@[j]),
        decreases bytes@.len() - i,
    {
        let b = bytes[i];
        if !(b == 9 || (32 <= b && b != 127)) {
            return false;
        }
        i = i + 1;
    }
    true
}

/// One metadata entry of an outgoing request.
#[derive(Debug)]
pub struct HeaderEntry {
    pub key: String,
    pub value: String,
}

impl View for HeaderEntry {
    type V = (Seq<char>, Seq<char>);

    open spec fn view(&self) -> (Seq<char>, Seq<char>) {
        (self.key@, self.value@)
    }
}

/// An outgoing request as the decorator sees it: the metadata entries
/// attached so far. The request payload itself never passes through the
/// decorator and is not modelled.
#[derive(Debug)]
pub struct Request {
    pub metadata: Vec<HeaderEntry>,
}

impl View for Request {
    type V = Seq<(Seq<char>, Seq<char>)>;

    open spec fn view(&self) -> Seq<(Seq<char>, Seq<char>)> {
        self.metadata@.map_values(|h: HeaderEntry| h@)
    }
}

impl Request {
    /// A request with no metadata attached yet.
    pub fn new() -> (r: Request)
        ensures
            r@ == Seq::<(Seq<char>, Seq<char>)>::empty(),
    {
        let r = Request { metadata: Vec::new() };
        proof {
            assert(r@ =~= Seq::<(Seq<char>, Seq<char>)>::empty());
        }
        r
    }
}

} // verus!

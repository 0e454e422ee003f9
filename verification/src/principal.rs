//! Principals: the opaque identifiers of callers and canisters.

use vstd::prelude::*;
use vstd::slice::slice_subrange;

verus! {

/// The longest byte string that is a principal.
pub const MAX_LENGTH_IN_BYTES: usize = 29;

/// The textual form of the principal with the given bytes, as
/// `candid::Principal::to_text` prints it: the big-endian CRC-32 of the bytes
/// followed by the bytes, in lower-case unpadded base 32, with a dash after
/// every fifth character.
pub uninterp spec fn principal_text(bytes: Seq<u8>) -> Seq<char>;

/// An identifier of at most 29 bytes, compared by value.
#[derive(Clone, Copy, Debug, Hash)]
pub struct Principal {
    len: u8,
    bytes: [u8; 29],
}

impl View for Principal {
    type V = Seq<u8>;

    closed spec fn view(&self) -> Seq<u8> {
        self.bytes@.subrange(0, self.len as int)
    }
}

impl Principal {
    /// The buffer holds `len` bytes of content and zeros behind them.
    #[verifier::type_invariant]
    spec fn inv(self) -> bool {
        &&& self.len <= 29
        &&& forall|i: int| self.len <= i < 29 ==> self.bytes[i] == 0
    }

    /// The principal of the management canister: the empty byte string.
    pub fn management_canister() -> (p: Principal)
        ensures
            p@ == Seq::<u8>::empty(),
    {
        let bytes = zeroed();
        let p = Principal { len: 0, bytes };
        assert(p@ =~= Seq::<u8>::empty());
        p
    }

    /// The principal with the given bytes, if they are at most 29.
    pub fn from_slice(slice: &[u8]) -> (r: Option<Principal>)
        ensures
            r is Some <==> slice@.len() <= MAX_LENGTH_IN_BYTES,
            r matches Some(p) ==> p@ == slice@,
    {
        if slice.len() > MAX_LENGTH_IN_BYTES {
            return None;
        }
        let mut bytes = zeroed();
        let mut i: usize = 0;
        while i < slice.len()
            invariant
                i <= slice@.len() <= 29,
                forall|j: int| 0 <= j < i ==> bytes[j] == slice@[j],
                forall|j: int| i <= j < 29 ==> bytes[j] == 0,
            decreases slice@.len() - i,
        {
            bytes[i] = slice[i];
            i += 1;
        }
        let p = Principal { len: slice.len() as u8, bytes };
        assert(p@ =~= slice@);
        Some(p)
    }

    /// The bytes of the principal.
    pub fn as_slice(&self) -> (r: &[u8])
        ensures
            r@ == self@,
            r@.len() <= MAX_LENGTH_IN_BYTES,
    {
        proof {
            use_type_invariant(self);
        }
        slice_subrange(self.bytes.as_slice(), 0, self.len as usize)
    }

    /// The textual form of the principal.
    pub fn to_text(&self) -> (text: String)
        ensures
            text@ == principal_text(self@),
    {
        text_of_bytes(self.as_slice())
    }
}

/// The byte strings of a list of principals, in order.
pub open spec fn ids(list: Seq<Principal>) -> Seq<Seq<u8>> {
    list.map_values(|p: Principal| p@)
}

impl PartialEq for Principal {
    fn eq(&self, other: &Principal) -> (r: bool) {
        proof {
            use_type_invariant(self);
            use_type_invariant(other);
        }
        if self.len != other.len {
            assert(self@.len() != other@.len());
            return false;
        }
        let mut i: usize = 0;
        while i < self.len as usize
            invariant
                i <= self.len == other.len <= 29,
                forall|j: int| 0 <= j < i ==> self.bytes[j] == other.bytes[j],
            decreases self.len - i,
        {
            if self.bytes[i] != other.bytes[i] {
                assert(self@[i as int] != other@[i as int]);
                return false;
            }
            i += 1;
        }
        assert(self@ =~= other@);
        true
    }
}

impl Eq for Principal {

}

impl vstd::std_specs::cmp::PartialEqSpecImpl for Principal {
    open spec fn obeys_eq_spec() -> bool {
        true
    }

    open spec fn eq_spec(&self, other: &Principal) -> bool {
        self@ == other@
    }
}

/// A buffer of zeros.
fn zeroed() -> (bytes: [u8; 29])
    ensures
        forall|i: int| 0 <= i < 29 ==> bytes[i] == 0,
{
    [
        0u8, 0u8, 0u8, 0u8, 0u8, 0u8, 0u8, 0u8, 0u8, 0u8,
        0u8, 0u8, 0u8, 0u8, 0u8, 0u8, 0u8, 0u8, 0u8, 0u8,
        0u8, 0u8, 0u8, 0u8, 0u8, 0u8, 0u8, 0u8, 0u8,
    ]
}

/// Prints a principal through `candid::Principal::from_slice` and
/// `candid::Principal::to_text`. The first accepts every slice of at most
/// 29 bytes; the second depends on the bytes alone.
#[verifier::external_body]
fn text_of_bytes(bytes: &[u8]) -> (text: String)
    requires
        bytes@.len() <= 29,
    ensures
        text@ == principal_text(bytes@),
{
    candid::Principal::from_slice(bytes).to_text()
}

} // verus!

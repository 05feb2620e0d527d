//! Null-terminated byte strings: the borrowed view `CStr` and the owning
//! buffer `CString`.
//!
//! A well-formed C string is a byte sequence that ends with a single zero
//! byte and contains no zero byte anywhere else. `CStr` is a non-owning view
//! over such a sequence; `CString` owns a heap buffer guaranteed to be in
//! that shape from construction until it is dropped.

use vstd::prelude::*;
use crate::memchr::memchr;

verus! {

/// A byte sequence is a well-formed C string: it is non-empty, its last byte
/// is zero, and no byte before the last is zero.
pub open spec fn is_c_str(s: Seq<u8>) -> bool {
    &&& s.len() > 0
    &&& s[s.len() - 1] == 0
    &&& forall|i: int| 0 <= i < s.len() - 1 ==> s[i] != 0
}

/// The content of a C string: everything before the trailing terminator.
pub open spec fn content_of(s: Seq<u8>) -> Seq<u8>
    recommends
        s.len() > 0,
{
    s.take(s.len() - 1)
}

/// The raw bytes of a C string built from `c`: the content followed by the
/// single trailing terminator.
pub open spec fn with_nul(c: Seq<u8>) -> Seq<u8> {
    c.push(0)
}

/// Content followed by exactly one trailing zero byte is a well-formed C
/// string, and taking that string's content gives the original content back:
/// building an owning string from zero-free content and viewing it loses
/// nothing, and verified construction over `c + [0]` succeeds with content
/// length equal to `c`'s length.
pub proof fn lemma_with_nul_roundtrip(c: Seq<u8>)
    requires
        forall|i: int| 0 <= i < c.len() ==> c[i] != 0,
    ensures
        is_c_str(with_nul(c)),
        content_of(with_nul(c)) == c,
        content_of(with_nul(c)).len() == c.len(),
{
    assert(content_of(with_nul(c)) =~= c);
}

/// A sequence with a zero byte anywhere but the last position is not a
/// well-formed C string, so verified construction over it fails.
pub proof fn lemma_interior_nul_rejected(s: Seq<u8>, i: int)
    requires
        0 <= i < s.len() - 1,
        s[i] == 0,
    ensures
        !is_c_str(s),
{
}

/// A sequence with no zero byte at all is not a well-formed C string, so
/// verified construction over it fails.
pub proof fn lemma_missing_nul_rejected(s: Seq<u8>)
    requires
        forall|i: int| 0 <= i < s.len() ==> s[i] != 0,
    ensures
        !is_c_str(s),
{
    if s.len() > 0 {
        assert(s[s.len() - 1] != 0);
    }
}

/// Why verified construction of a `CStr` was refused.
#[derive(Clone, Copy, PartialEq, Eq, Structural, Debug)]
pub enum FromBytesWithNulError {
    /// A zero byte occurs before the final position.
    InteriorNul,
    /// No zero byte occurs at all (so there is no terminator at the end).
    NotNulTerminated,
}

/// A borrowed view over a well-formed C string. It never owns the bytes: it
/// is valid exactly as long as the buffer it borrows from.
///
/// The view of a `CStr` (`self@`) is the full raw byte sequence, terminator
/// included; `content_of(self@)` is the content without the terminator.
pub struct CStr<'a> {
    bytes: &'a [u8],
}

impl<'a> View for CStr<'a> {
    type V = Seq<u8>;

    closed spec fn view(&self) -> Seq<u8> {
        self.bytes@
    }
}

impl<'a> CStr<'a> {
    #[verifier::type_invariant]
    spec fn wf(self) -> bool {
        is_c_str(self.bytes@)
    }

    /// Trusted construction path: wrap bytes that the caller already knows to
    /// be a well-formed C string. No validation is performed; the guarantee
    /// is the caller's precondition, discharged by the verifier rather than
    /// by a scan.
    pub fn from_bytes_with_nul_unchecked(bytes: &'a [u8]) -> (r: CStr<'a>)
        requires
            is_c_str(bytes@),
        ensures
            r@ == bytes@,
    {
        CStr { bytes }
    }

    /// Verified construction path: scan arbitrary bytes for a zero byte and
    /// accept them only if the first zero found is exactly the last byte.
    /// A zero anywhere earlier is an interior terminator; no zero at all is a
    /// missing terminator. Both are rejected, never silently truncated.
    pub fn from_bytes_with_nul(bytes: &'a [u8]) -> (r: Result<CStr<'a>, FromBytesWithNulError>)
        ensures
            r is Ok <==> is_c_str(bytes@),
            r matches Ok(c) ==> c@ == bytes@,
            r == Err::<CStr<'a>, _>(FromBytesWithNulError::InteriorNul) <==> (exists|i: int|
                0 <= i < bytes@.len() - 1 && bytes@[i] == 0),
            r == Err::<CStr<'a>, _>(FromBytesWithNulError::NotNulTerminated) <==> (forall|i: int|
                0 <= i < bytes@.len() ==> bytes@[i] != 0),
    {
        match memchr(0, bytes) {
            Some(i) => {
                let n: usize = bytes.len();
                if i == n - 1 {
                    Ok(CStr { bytes })
                } else {
                    Err(FromBytesWithNulError::InteriorNul)
                }
            },
            None => Err(FromBytesWithNulError::NotNulTerminated),
        }
    }

    /// Content length: the number of bytes before the terminator.
    pub fn len(&self) -> (r: usize)
        ensures
            r == content_of(self@).len(),
    {
        proof {
            use_type_invariant(self);
        }
        self.bytes.len() - 1
    }

    /// The content bytes, terminator excluded.
    pub fn to_bytes(&self) -> (r: &'a [u8])
        ensures
            r@ == content_of(self@),
    {
        proof {
            use_type_invariant(self);
        }
        vstd::slice::slice_subrange(self.bytes, 0, self.bytes.len() - 1)
    }

    /// The full raw bytes, terminator included, for handing to consumers that
    /// expect a terminated buffer.
    pub fn to_bytes_with_nul(&self) -> (r: &'a [u8])
        ensures
            r@ == self@,
            is_c_str(r@),
    {
        proof {
            use_type_invariant(self);
        }
        self.bytes
    }
}

/// Content handed to `CString::new` contained a zero byte. Appending a
/// terminator to such content would leave the string's true length ambiguous,
/// so construction is refused and the content handed back.
pub struct NulError {
    pos: usize,
    bytes: Vec<u8>,
}

impl NulError {
    /// The position of the first zero byte in the rejected content.
    pub closed spec fn spec_nul_position(&self) -> int {
        self.pos as int
    }

    /// The rejected content, unchanged.
    pub closed spec fn spec_bytes(&self) -> Seq<u8> {
        self.bytes@
    }

    /// The position of the first zero byte in the rejected content.
    pub fn nul_position(&self) -> (r: usize)
        ensures
            r == self.spec_nul_position(),
    {
        self.pos
    }

    /// Returns the rejected content, unchanged.
    pub fn into_vec(self) -> (r: Vec<u8>)
        ensures
            r@ == self.spec_bytes(),
    {
        self.bytes
    }
}

/// An owned, heap-allocated C string: content bytes followed by exactly one
/// trailing zero byte, immutable once constructed, freed when dropped.
///
/// The view of a `CString` (`self@`) is the full owned byte sequence,
/// terminator included.
pub struct CString {
    inner: Vec<u8>,
}

impl View for CString {
    type V = Seq<u8>;

    closed spec fn view(&self) -> Seq<u8> {
        self.inner@
    }
}

impl CString {
    #[verifier::type_invariant]
    spec fn wf(self) -> bool {
        is_c_str(self.inner@)
    }

    /// Takes ownership of content bytes and appends the single trailing
    /// terminator. Content with an embedded zero byte is rejected, and the
    /// error carries the position of the first zero and the content back.
    pub fn new(bytes: Vec<u8>) -> (r: Result<CString, NulError>)
        ensures
            r is Ok <==> (forall|i: int| 0 <= i < bytes@.len() ==> bytes@[i] != 0),
            r matches Ok(c) ==> c@ == with_nul(bytes@),
            r matches Err(e) ==> {
                &&& e.spec_bytes() == bytes@
                &&& 0 <= e.spec_nul_position() < bytes@.len()
                &&& bytes@[e.spec_nul_position()] == 0
                &&& forall|j: int| 0 <= j < e.spec_nul_position() ==> bytes@[j] != 0
            },
    {
        match memchr(0, bytes.as_slice()) {
            Some(i) => Err(NulError { pos: i, bytes }),
            None => {
                let mut inner = bytes;
                inner.push(0);
                Ok(CString { inner })
            },
        }
    }

    /// Derives a borrowed view over the owned buffer, through the trusted
    /// construction path: the owner guarantees termination, so no scan is
    /// needed. The view borrows from `self` and cannot outlive it.
    pub fn as_c_str<'a>(&'a self) -> (r: CStr<'a>)
        ensures
            r@ == self@,
    {
        proof {
            use_type_invariant(self);
        }
        CStr::from_bytes_with_nul_unchecked(self.inner.as_slice())
    }

    /// The owned content bytes, terminator excluded.
    pub fn as_bytes(&self) -> (r: &[u8])
        ensures
            r@ == content_of(self@),
    {
        proof {
            use_type_invariant(self);
        }
        vstd::slice::slice_subrange(self.inner.as_slice(), 0, self.inner.len() - 1)
    }

    /// The full owned bytes, terminator included.
    pub fn as_bytes_with_nul(&self) -> (r: &[u8])
        ensures
            r@ == self@,
            is_c_str(r@),
    {
        proof {
            use_type_invariant(self);
        }
        self.inner.as_slice()
    }
}

} // verus!

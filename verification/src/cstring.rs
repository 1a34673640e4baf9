//! Strings on their way to C.
use vstd::prelude::*;

verus! {

/// Whether no byte of `bytes` is NUL.
pub open spec fn nul_free(bytes: Seq<u8>) -> bool {
    forall|i: int| 0 <= i < bytes.len() ==> bytes[i] != 0
}

/// Whether `position` is the offset of the first NUL byte of `bytes`.
pub open spec fn first_nul(bytes: Seq<u8>, position: int) -> bool {
    &&& 0 <= position < bytes.len()
    &&& bytes[position] == 0
    &&& nul_free(bytes.take(position))
}

/// Says that the bytes for a C string contained a NUL of their own.
#[derive(Debug, Clone, Copy, PartialEq, Eq, Structural)]
pub struct NulError {
    /// The offset of the first NUL byte.
    pub position: usize,
}

impl NulError {
    /// The offset of the first NUL byte.
    pub fn nul_position(&self) -> (r: usize)
        ensures
            r == self.position,
    {
        self.position
    }
}

/// A string that can be handed to C, which ends strings at the first NUL byte.
///
/// The bytes hold no NUL, so C sees all of them.
#[derive(Debug, PartialEq, Eq)]
pub struct CString {
    bytes: Vec<u8>,
}

impl View for CString {
    type V = Seq<u8>;

    closed spec fn view(&self) -> Seq<u8> {
        self.bytes@
    }
}

impl CString {
    #[verifier::type_invariant]
    spec fn has_no_nul(self) -> bool {
        nul_free(self.bytes@)
    }

    /// Takes the bytes as they are, or refuses them at their first NUL.
    pub fn new(bytes: Vec<u8>) -> (r: Result<CString, NulError>)
        ensures
            r is Ok <==> nul_free(bytes@),
            r matches Ok(s) ==> s@ == bytes@,
            r matches Err(e) ==> first_nul(bytes@, e.position as int),
    {
        let mut i: usize = 0;
        while i < bytes.len()
            invariant
                i <= bytes.len(),
                nul_free(bytes@.take(i as int)),
            decreases bytes.len() - i,
        {
            if bytes[i] == 0 {
                return Err(NulError { position: i });
            }
            assert(bytes@.take(i + 1) =~= bytes@.take(i as int).push(bytes@[i as int]));
            i += 1;
        }
        assert(bytes@.take(i as int) =~= bytes@);
        Ok(CString { bytes })
    }

    /// The bytes, without the trailing NUL that C adds.
    pub fn as_bytes(&self) -> (r: &[u8])
        ensures
            r@ == self@,
            nul_free(r@),
    {
        proof {
            use_type_invariant(self);
        }
        self.bytes.as_slice()
    }
}

impl Clone for CString {
    fn clone(&self) -> (r: CString)
        ensures
            r@ == self@,
    {
        proof {
            use_type_invariant(self);
        }
        let bytes: Vec<u8> = self.bytes.clone();
        assert(bytes@ =~= self.bytes@);
        CString { bytes }
    }
}

impl Default for CString {
    /// The empty string.
    fn default() -> (r: CString)
        ensures
            r@ == Seq::<u8>::empty(),
    {
        CString { bytes: Vec::new() }
    }
}

/// A string has at most one first NUL, so the reported offset is the only one
/// that could have been reported.
pub proof fn first_nul_is_unique(bytes: Seq<u8>, p: int, q: int)
    requires
        first_nul(bytes, p),
        first_nul(bytes, q),
    ensures
        p == q,
{
    if p < q {
        assert(bytes.take(q)[p] == 0);
    } else if q < p {
        assert(bytes.take(p)[q] == 0);
    }
}

/// A string is kept whole, byte for byte, or refused at its first NUL. It is never
/// cut short.
pub proof fn kept_whole_or_refused(bytes: Vec<u8>, r: Result<CString, NulError>)
    requires
        call_ensures(CString::new, (bytes,), r),
    ensures
        r is Ok <==> forall|i: int| 0 <= i < bytes@.len() ==> bytes@[i] != 0,
        r matches Ok(string) ==> string@ == bytes@,
        r matches Err(e) ==> e.position < bytes@.len() && bytes@[e.position as int] == 0
            && forall|i: int| 0 <= i < e.position ==> bytes@[i] != 0,
{
    if let Err(e) = r {
        let prefix = bytes@.take(e.position as int);
        assert forall|i: int| 0 <= i < e.position implies bytes@[i] != 0 by {
            assert(prefix[i] == bytes@[i]);
        }
        assert(bytes@[e.position as int] == 0);
    }
}

} // verus!

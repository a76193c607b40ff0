use vstd::prelude::*;

verus! {

/// The UTF-8 bytes a text value is handed to the native library as.
pub open spec fn utf8_bytes(s: Seq<char>) -> Seq<u8> {
    vstd::utf8::encode_utf8(s)
}

/// No nul byte anywhere: exactly the condition under which a byte
/// sequence can become a nul-terminated C string.
pub open spec fn nul_free(s: Seq<u8>) -> bool {
    forall|i: int| 0 <= i < s.len() ==> s[i] != 0u8
}

/// `p` is the position of the first nul byte in `s`.
pub open spec fn first_nul_at(s: Seq<u8>, p: int) -> bool {
    &&& 0 <= p < s.len()
    &&& s[p] == 0u8
    &&& forall|j: int| 0 <= j < p ==> s[j] != 0u8
}

/// Scans a byte sequence for an embedded nul, returning the position of
/// the first one, or `None` when the bytes are fit for a C string.
pub fn find_nul(bytes: &[u8]) -> (r: Option<usize>)
    ensures
        match r {
            Some(p) => first_nul_at(bytes@, p as int),
            None => nul_free(bytes@),
        },
{
    let mut i: usize = 0;
    while i < bytes.len()
        invariant
            i <= bytes@.len(),
            forall|j: int| 0 <= j < i ==> bytes@[j] != 0u8,
        decreases bytes@.len() - i,
    {
        if bytes[i] == 0u8 {
            return Some(i);
        }
        i = i + 1;
    }
    None
}

} // verus!

//! Strings in the form the native library stores them: a run of bytes that a
//! zero byte terminates, so no zero byte can occur inside.

use vstd::prelude::*;

verus! {

/// Whether `bytes` holds a zero byte.
pub open spec fn has_nul(bytes: Seq<u8>) -> bool {
    exists|i: int| 0 <= i < bytes.len() && bytes[i] == 0
}

/// Whether `position` is where the first zero byte of `bytes` stands.
pub open spec fn is_first_nul(bytes: Seq<u8>, position: int) -> bool {
    &&& 0 <= position < bytes.len()
    &&& bytes[position] == 0
    &&& forall|i: int| 0 <= i < position ==> bytes[i] != 0
}

/// A string was refused because it holds a zero byte.
#[derive(Clone, Copy, Debug, PartialEq, Eq, Structural)]
pub struct NulError {
    position: usize,
}

impl View for NulError {
    type V = int;

    closed spec fn view(&self) -> int {
        self.position as int
    }
}

impl NulError {
    /// Index of the first zero byte in the refused string.
    pub fn nul_position(&self) -> (out: usize)
        ensures
            out == self@,
    {
        self.position
    }
}

/// Index of the first zero byte of `bytes`, if there is one.
pub fn find_nul(bytes: &[u8]) -> (out: Option<usize>)
    ensures
        match out {
            Some(position) => is_first_nul(bytes@, position as int),
            None => !has_nul(bytes@),
        },
{
    let mut i: usize = 0;
    while i < bytes.len()
        invariant
            i <= bytes.len(),
            forall|j: int| 0 <= j < i ==> bytes@[j] != 0,
        decreases bytes.len() - i,
    {
        if bytes[i] == 0 {
            return Some(i);
        }
        i += 1;
    }
    None
}

/// An owned string in native form. It never holds a zero byte.
#[derive(Debug)]
pub struct NativeString {
    bytes: Vec<u8>,
}

impl View for NativeString {
    type V = Seq<u8>;

    closed spec fn view(&self) -> Seq<u8> {
        self.bytes@
    }
}

impl NativeString {
    #[verifier::type_invariant]
    spec fn no_interior_nul(self) -> bool {
        !has_nul(self.bytes@)
    }

    /// Copies `bytes` into a fresh native string. This is the only way to make
    /// one, so every replacement string of a rectangle is allocated here.
    ///
    /// Bytes with a zero among them are refused before anything is copied.
    pub fn duplicate(bytes: &[u8]) -> (out: Result<NativeString, NulError>)
        ensures
            match out {
                Ok(copy) => copy@ == bytes@ && !has_nul(bytes@),
                Err(e) => is_first_nul(bytes@, e@),
            },
    {
        match find_nul(bytes) {
            Some(position) => Err(NulError { position }),
            None => Ok(NativeString { bytes: vstd::slice::slice_to_vec(bytes) }),
        }
    }

    /// The bytes of the string, without a terminator.
    pub fn as_bytes(&self) -> (out: &[u8])
        ensures
            out@ == self@,
            !has_nul(out@),
    {
        proof {
            use_type_invariant(self);
        }
        self.bytes.as_slice()
    }
}

} // verus!

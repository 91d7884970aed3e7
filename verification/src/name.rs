//! The name token under which a shared memory object is asked for.

use vstd::prelude::*;

verus! {

/// Whether `bytes` can be handed to the system as a null-terminated string:
/// no byte of it is the terminator.
pub open spec fn has_no_nul(bytes: Seq<u8>) -> bool {
    forall|i: int| 0 <= i < bytes.len() ==> bytes[i] != 0
}

/// A name token: the bytes of a name, without the terminator.
///
/// The system never sees a byte past the first zero, so a token holds none.
/// Nothing else is asked of it: whether a name is one that the target's
/// facility takes is for the system to say.
#[derive(Debug, PartialEq, Eq)]
pub struct ShmName {
    bytes: Vec<u8>,
}

impl View for ShmName {
    type V = Seq<u8>;

    closed spec fn view(&self) -> Seq<u8> {
        self.bytes@
    }
}

impl ShmName {
    #[verifier::type_invariant]
    spec fn well_formed(self) -> bool {
        has_no_nul(self.bytes@)
    }

    /// Makes a token of `bytes`, unless one of them is zero.
    pub fn new(bytes: Vec<u8>) -> (r: Option<ShmName>)
        ensures
            r is Some <==> has_no_nul(bytes@),
            r matches Some(name) ==> name@ == bytes@,
    {
        let mut i: usize = 0;
        while i < bytes.len()
            invariant
                i <= bytes.len(),
                forall|j: int| 0 <= j < i ==> bytes@[j] != 0,
            decreases bytes.len() - i,
        {
            if bytes[i] == 0 {
                return None;
            }
            i += 1;
        }
        Some(ShmName { bytes })
    }

    /// The bytes of the name, none of them zero.
    pub fn as_bytes(&self) -> (r: &[u8])
        ensures
            r@ == self@,
            has_no_nul(r@),
    {
        proof {
            use_type_invariant(self);
        }
        self.bytes.as_slice()
    }
}

impl Clone for ShmName {
    /// A second token for the same name.
    fn clone(&self) -> (r: ShmName)
        ensures
            r@ == self@,
    {
        proof {
            use_type_invariant(self);
        }
        let mut bytes: Vec<u8> = Vec::new();
        let mut i: usize = 0;
        while i < self.bytes.len()
            invariant
                i <= self.bytes.len(),
                bytes@ == self.bytes@.take(i as int),
            decreases self.bytes.len() - i,
        {
            bytes.push(self.bytes[i]);
            i += 1;
            assert(self.bytes@.take(i as int) =~= self.bytes@.take(i - 1).push(self.bytes@[i - 1]));
        }
        assert(bytes@ =~= self.bytes@);
        ShmName { bytes }
    }
}

} // verus!

//! Account addresses.
//!
//! An address is 32 opaque bytes. Everything the library decides about an
//! address it decides from those bytes, so the type holds them in the open
//! and its view is the byte sequence.

use vstd::prelude::*;
use vstd::std_specs::cmp::PartialEqSpecImpl;

verus! {

/// Number of bytes in an address.
pub const PUBKEY_BYTES: usize = 32;

/// The address of an account or program.
#[derive(Clone, Copy, Debug)]
pub struct Pubkey(pub [u8; 32]);

impl View for Pubkey {
    type V = Seq<u8>;

    open spec fn view(&self) -> Seq<u8> {
        self.0@
    }
}

impl PartialEq for Pubkey {
    fn eq(&self, other: &Pubkey) -> (r: bool) {
        let mut i: usize = 0;
        while i < 32
            invariant
                0 <= i <= 32,
                forall|j: int| 0 <= j < i ==> self.0[j] == other.0[j],
            decreases 32 - i,
        {
            if self.0[i] != other.0[i] {
                return false;
            }
            i += 1;
        }
        assert(self.0@ =~= other.0@);
        true
    }
}

impl PartialEqSpecImpl for Pubkey {
    open spec fn obeys_eq_spec() -> bool {
        true
    }

    open spec fn eq_spec(&self, other: &Pubkey) -> bool {
        self@ == other@
    }
}

impl Eq for Pubkey {

}

impl Default for Pubkey {
    /// The all-zero address.
    fn default() -> (r: Pubkey)
        ensures
            r@ == Seq::new(32, |i: int| 0u8),
    {
        let r = Pubkey([0u8; 32]);
        assert(r@ =~= Seq::new(32, |i: int| 0u8));
        r
    }
}

impl Pubkey {
    /// The address with exactly these bytes.
    pub fn new_from_array(bytes: [u8; 32]) -> (r: Pubkey)
        ensures
            r@ == bytes@,
    {
        Pubkey(bytes)
    }

    /// The 32 bytes of the address.
    pub fn to_bytes(&self) -> (r: [u8; 32])
        ensures
            r@ == self@,
    {
        self.0
    }

    /// The bytes of the address as a growable buffer, as seed material or
    /// for appending to an encoding.
    pub fn to_vec(&self) -> (r: Vec<u8>)
        ensures
            r@ == self@,
    {
        let mut out: Vec<u8> = Vec::new();
        let mut i: usize = 0;
        while i < 32
            invariant
                0 <= i <= 32,
                out@ == self@.take(i as int),
            decreases 32 - i,
        {
            out.push(self.0[i]);
            assert(self@.take(i + 1) =~= self@.take(i as int).push(self@[i as int]));
            i += 1;
        }
        assert(self@.take(32) =~= self@);
        out
    }

    /// Reads an address from a slice, which must hold exactly 32 bytes.
    pub fn try_from_slice(data: &[u8]) -> (r: Option<Pubkey>)
        ensures
            data@.len() == 32 ==> r is Some && r->0@ == data@,
            data@.len() != 32 ==> r is None,
    {
        if data.len() != 32 {
            return None;
        }
        let mut bytes = [0u8; 32];
        let mut i: usize = 0;
        while i < 32
            invariant
                0 <= i <= 32,
                data@.len() == 32,
                forall|j: int| 0 <= j < i ==> bytes@[j] == data@[j],
            decreases 32 - i,
        {
            bytes[i] = data[i];
            i += 1;
        }
        assert(bytes@ =~= data@);
        Some(Pubkey(bytes))
    }

    /// The address with the bytes `bytes`, for a sequence of 32 bytes.
    pub open spec fn spec_from_bytes(bytes: Seq<u8>) -> Pubkey
        recommends
            bytes.len() == 32,
    {
        choose|p: Pubkey| p@ == bytes
    }

    /// Every sequence of 32 bytes is the view of an address.
    pub proof fn lemma_spec_from_bytes(bytes: Seq<u8>)
        requires
            bytes.len() == 32,
        ensures
            Pubkey::spec_from_bytes(bytes)@ == bytes,
    {
        let a = Pubkey::array_with_prefix(bytes, 32);
        let p = Pubkey(a);
        assert(p@ =~= bytes);
    }

    /// An array that agrees with `bytes` on its first `k` places.
    proof fn array_with_prefix(bytes: Seq<u8>, k: nat) -> (a: [u8; 32])
        requires
            bytes.len() == 32,
            k <= 32,
        ensures
            forall|i: int| 0 <= i < k ==> a@[i] == bytes[i],
        decreases k,
    {
        if k == 0 {
            arbitrary()
        } else {
            let before = Pubkey::array_with_prefix(bytes, (k - 1) as nat);
            let a = vstd::array::spec_array_update(before, k - 1, bytes[k - 1]);
            vstd::array::axiom_spec_array_update(before, k - 1, bytes[k - 1]);
            a
        }
    }

    /// Two addresses are the same value exactly when their bytes agree.
    pub proof fn lemma_eq_by_view(a: Pubkey, b: Pubkey)
        ensures
            (a@ == b@) <==> (a == b),
    {
        if a@ == b@ {
            assert(a.0 =~= b.0);
        }
    }
}

} // verus!

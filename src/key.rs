use vstd::prelude::*;

verus! {

/// The identity of an account: a 32-byte public key.
#[derive(Clone, Copy, Debug, Eq)]
pub struct AccountKey {
    pub bytes: [u8; 32],
}

/// The key with every byte zero, which marks "no account".
pub open spec fn zero_key() -> AccountKey {
    AccountKey { bytes: vstd::array::spec_array_fill_for_copy_type::<u8, 32>(0u8) }
}

impl AccountKey {
    /// Builds a key from its 32 bytes.
    pub fn new(bytes: [u8; 32]) -> (r: AccountKey)
        ensures
            r.bytes == bytes,
    {
        AccountKey { bytes }
    }

    /// The all-zero key, used where no account has been recorded yet.
    pub fn default_key() -> (r: AccountKey)
        ensures
            r == zero_key(),
    {
        AccountKey { bytes: [0u8; 32] }
    }

    /// Whether two keys hold the same bytes.
    pub fn same_as(&self, other: &AccountKey) -> (r: bool)
        ensures
            r == (*self == *other),
    {
        let mut i: usize = 0;
        while i < 32
            invariant
                0 <= i <= 32,
                forall|j: int| 0 <= j < i ==> self.bytes[j] == other.bytes[j],
            decreases 32 - i,
        {
            if self.bytes[i] != other.bytes[i] {
                assert(self.bytes@[i as int] != other.bytes@[i as int]);
                return false;
            }
            i = i + 1;
        }
        proof {
            assert(self.bytes =~= other.bytes);
        }
        true
    }

    /// Whether this is the all-zero key.
    pub fn is_default(&self) -> (r: bool)
        ensures
            r == (*self == zero_key()),
    {
        let zero = AccountKey::default_key();
        self.same_as(&zero)
    }
}

impl PartialEq for AccountKey {
    fn eq(&self, other: &AccountKey) -> (r: bool) {
        self.same_as(other)
    }
}

impl vstd::std_specs::cmp::PartialEqSpecImpl for AccountKey {
    open spec fn obeys_eq_spec() -> bool {
        true
    }

    open spec fn eq_spec(&self, other: &AccountKey) -> bool {
        *self == *other
    }
}

} // verus!

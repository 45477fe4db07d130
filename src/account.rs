//! References to ledger accounts that a deferred instruction will receive.
use anchor_lang::prelude::Pubkey;
use vstd::prelude::*;

verus! {

/// The ledger's account address, carried through unchanged.
#[verifier::external_type_specification]
#[verifier::external_body]
pub struct ExPubkey(Pubkey);

/// An account handed to a deferred instruction, with its write permission.
#[derive(Debug, Clone, Copy, PartialEq, Eq)]
pub struct AccountMetaRef {
    pub pubkey: Pubkey,
    pub is_writable: bool,
}

/// The read-only reference to `pubkey`.
pub open spec fn read_only_ref(pubkey: Pubkey) -> AccountMetaRef {
    AccountMetaRef { pubkey, is_writable: false }
}

/// `a` with write access granted, and nothing else changed.
pub open spec fn writable_ref(a: AccountMetaRef) -> AccountMetaRef {
    AccountMetaRef { pubkey: a.pubkey, is_writable: true }
}

impl AccountMetaRef {
    /// Grants write access. The reference is taken by value: a copy kept by the
    /// caller stays as it was.
    pub fn mutable(self) -> (r: Self)
        ensures
            r == writable_ref(self),
    {
        AccountMetaRef { pubkey: self.pubkey, is_writable: true }
    }
}

/// A reference to the account at `pubkey`; it starts out read-only.
pub fn account_meta(pubkey: Pubkey) -> (r: AccountMetaRef)
    ensures
        r == read_only_ref(pubkey),
{
    AccountMetaRef { pubkey, is_writable: false }
}

/// Write access is an explicit opt-in: a fresh reference is read-only, granting
/// write access yields a writable reference to the same account, and the
/// reference it was granted on is left read-only. Granting it on any reference
/// keeps the account, and granting it twice is granting it once.
pub proof fn lemma_write_access_is_opt_in(pubkey: Pubkey, a: AccountMetaRef)
    ensures
        writable_ref(a).is_writable,
        writable_ref(a).pubkey == a.pubkey,
        writable_ref(writable_ref(a)) == writable_ref(a),
        !read_only_ref(pubkey).is_writable,
        writable_ref(read_only_ref(pubkey)).is_writable,
        writable_ref(read_only_ref(pubkey)).pubkey == read_only_ref(pubkey).pubkey,
{
}

} // verus!

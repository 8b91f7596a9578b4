//! Caller-side help: the account references that carry the checked accounts
//! into the verification step of a bundle.

use vstd::prelude::*;

verus! {

/// A reference to an account in a bundle step: its address, and whether the
/// step needs the account's signature and may write to it.
#[derive(Clone, Copy, Debug, PartialEq, Eq)]
pub struct AccountMeta {
    pub pubkey: [u8; 32],
    pub is_signer: bool,
    pub is_writable: bool,
}

/// Builds the account list of a verification step.
pub struct AccountZipper;

impl AccountZipper {
    /// One read-only, non-signing reference per address, in the order given.
    /// The address at position `i` is checked against the minimum balance at
    /// position `i` of the same verification.
    pub fn zip_accounts(keys: &[[u8; 32]]) -> (r: Vec<AccountMeta>)
        ensures
            r@.len() == keys@.len(),
            forall|i: int|
                0 <= i < keys@.len() ==> #[trigger] r@[i] == (AccountMeta {
                    pubkey: keys@[i],
                    is_signer: false,
                    is_writable: false,
                }),
    {
        let mut metas: Vec<AccountMeta> = Vec::new();
        let mut i: usize = 0;
        while i < keys.len()
            invariant
                i <= keys@.len(),
                metas@.len() == i,
                forall|j: int|
                    0 <= j < i ==> #[trigger] metas@[j] == (AccountMeta {
                        pubkey: keys@[j],
                        is_signer: false,
                        is_writable: false,
                    }),
            decreases keys@.len() - i,
        {
            metas.push(AccountMeta { pubkey: keys[i], is_signer: false, is_writable: false });
            i = i + 1;
        }
        metas
    }
}

} // verus!

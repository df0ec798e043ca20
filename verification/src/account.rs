use vstd::prelude::*;

use crate::pubkey::Pubkey;

verus! {

/// One entry of an instruction's account list: an address together with the
/// flags that tell the runtime whether the account is written to and whether
/// its key must sign the transaction.
#[derive(Clone, Copy, Debug, PartialEq, Eq)]
pub struct AccountMeta {
    pub pubkey: Pubkey,
    pub is_signer: bool,
    pub is_writable: bool,
}

/// The mathematical value of an `AccountMeta`: the address as a byte
/// sequence, with the two flags.
#[verifier::ext_equal]
pub ghost struct AccountMetaView {
    pub pubkey: Seq<u8>,
    pub is_signer: bool,
    pub is_writable: bool,
}

impl View for AccountMeta {
    type V = AccountMetaView;

    open spec fn view(&self) -> AccountMetaView {
        AccountMetaView { pubkey: self.pubkey@, is_signer: self.is_signer, is_writable: self.is_writable }
    }
}

/// A writable account entry.
pub open spec fn writable_meta(pubkey: Seq<u8>, is_signer: bool) -> AccountMetaView {
    AccountMetaView { pubkey, is_signer, is_writable: true }
}

/// A read-only account entry.
pub open spec fn readonly_meta(pubkey: Seq<u8>, is_signer: bool) -> AccountMetaView {
    AccountMetaView { pubkey, is_signer, is_writable: false }
}

/// The account list as a sequence of mathematical values.
pub open spec fn metas_view(metas: Seq<AccountMeta>) -> Seq<AccountMetaView> {
    metas.map_values(|m: AccountMeta| m@)
}

/// The addresses of a key list as byte sequences.
pub open spec fn keys_view(keys: Seq<Pubkey>) -> Seq<Seq<u8>> {
    keys.map_values(|k: Pubkey| k@)
}

/// Non-signing entries for a run of keys, all writable or all read-only.
pub open spec fn metas_of_keys(keys: Seq<Seq<u8>>, writable: bool) -> Seq<AccountMetaView> {
    keys.map_values(|k: Seq<u8>| AccountMetaView { pubkey: k, is_signer: false, is_writable: writable })
}

impl AccountMeta {
    /// A writable entry, as the runtime's own constructor of that name makes it.
    pub fn new(pubkey: Pubkey, is_signer: bool) -> (r: AccountMeta)
        ensures
            r@ == writable_meta(pubkey@, is_signer),
    {
        AccountMeta { pubkey, is_signer, is_writable: true }
    }

    /// A read-only entry.
    pub fn new_readonly(pubkey: Pubkey, is_signer: bool) -> (r: AccountMeta)
        ensures
            r@ == readonly_meta(pubkey@, is_signer),
    {
        AccountMeta { pubkey, is_signer, is_writable: false }
    }
}

} // verus!

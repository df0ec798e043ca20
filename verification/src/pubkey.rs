use vstd::prelude::*;

verus! {

/// A 32-byte account address, held as plain bytes so that contracts can
/// speak of its contents directly.
#[derive(Clone, Copy, Debug, PartialEq, Eq)]
pub struct Pubkey {
    pub bytes: [u8; 32],
}

impl View for Pubkey {
    type V = Seq<u8>;

    open spec fn view(&self) -> Seq<u8> {
        self.bytes@
    }
}

impl Pubkey {
    pub fn new(bytes: [u8; 32]) -> (r: Pubkey)
        ensures
            r@ == bytes@,
    {
        Pubkey { bytes }
    }

    pub fn to_bytes(&self) -> (r: [u8; 32])
        ensures
            r@ == self@,
    {
        self.bytes
    }
}

/// The address of the token program that `transact` instructions reference:
/// the base58 decoding of `TokenkegQfeZyiNwAJbNbGKPFXCWuBvf9Ss623VQ5DA`.
pub open spec fn spec_spl_token_program_id() -> Seq<u8> {
    seq![
        6u8, 221u8, 246u8, 225u8, 215u8, 101u8, 161u8, 147u8,
        217u8, 203u8, 225u8, 70u8, 206u8, 235u8, 121u8, 172u8,
        28u8, 180u8, 133u8, 237u8, 95u8, 91u8, 55u8, 145u8,
        58u8, 140u8, 245u8, 133u8, 126u8, 255u8, 0u8, 169u8,
    ]
}

/// Relies on `spl_token::id()`: the constant program id declared by the
/// `spl-token` crate, whose bytes are `spec_spl_token_program_id()`.
#[verifier::external_body]
pub(crate) fn spl_token_program_id() -> (r: Pubkey)
    ensures
        r@ == spec_spl_token_program_id(),
{
    Pubkey { bytes: spl_token::id().to_bytes() }
}

} // verus!

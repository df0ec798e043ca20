use vstd::prelude::*;

verus! {

/// What a pool request asks the pool to do with pool tokens: mint them
/// against a deposit, redeem them, or swap between the pool's assets.
/// The variants and their order follow the pool schema, which encodes the
/// variant's position as a single byte.
#[derive(Clone, Debug, PartialEq, Eq)]
pub enum PoolAction {
    /// Create pool tokens by depositing assets into the pool.
    Create(u64),
    /// Redeem pool tokens by burning them and receiving assets from the pool.
    Redeem(u64),
    /// Deposit assets into the pool and receive other assets from the pool.
    Swap(Vec<u64>),
}

/// The tag that opens every serialized pool request.
pub const POOL_REQUEST_TAG: u64 = 0x220a6cbdcd1cc4cf;

/// The little-endian bytes of a `u32`.
pub open spec fn spec_u32_le(n: u32) -> Seq<u8> {
    seq![
        (n & 0xff) as u8,
        ((n >> 8) & 0xff) as u8,
        ((n >> 16) & 0xff) as u8,
        ((n >> 24) & 0xff) as u8,
    ]
}

/// The little-endian bytes of a `u64`.
pub open spec fn spec_u64_le(n: u64) -> Seq<u8> {
    seq![
        (n & 0xff) as u8,
        ((n >> 8) & 0xff) as u8,
        ((n >> 16) & 0xff) as u8,
        ((n >> 24) & 0xff) as u8,
        ((n >> 32) & 0xff) as u8,
        ((n >> 40) & 0xff) as u8,
        ((n >> 48) & 0xff) as u8,
        ((n >> 56) & 0xff) as u8,
    ]
}

/// The little-endian bytes of each word, in order.
pub open spec fn spec_u64s_le(s: Seq<u64>) -> Seq<u8>
    decreases s.len(),
{
    if s.len() == 0 {
        Seq::<u8>::empty()
    } else {
        spec_u64_le(s[0]) + spec_u64s_le(s.drop_first())
    }
}

/// The tag bytes that open every serialized pool request.
pub open spec fn spec_request_tag_bytes() -> Seq<u8> {
    spec_u64_le(POOL_REQUEST_TAG)
}

/// Whether an action serializes: a swap's asset list is length-prefixed with
/// a `u32`, so its length must fit in one.
pub open spec fn action_fits(action: PoolAction) -> bool {
    match action {
        PoolAction::Create(_) => true,
        PoolAction::Redeem(_) => true,
        PoolAction::Swap(quantities) => quantities@.len() <= u32::MAX,
    }
}

/// The serialized form of an action: one byte for the variant's position,
/// then the amount, or the length-prefixed amounts of a swap.
pub open spec fn spec_action_bytes(action: PoolAction) -> Seq<u8> {
    match action {
        PoolAction::Create(amount) => seq![0u8] + spec_u64_le(amount),
        PoolAction::Redeem(amount) => seq![1u8] + spec_u64_le(amount),
        PoolAction::Swap(quantities) => seq![2u8] + spec_u32_le(quantities@.len() as u32) + spec_u64s_le(quantities@),
    }
}

/// The serialized form of an initialize request: the request tag, the byte
/// for the initialize variant, the vault signer nonce, the asset count, the
/// length-prefixed pool name, the fee rate, and the length-prefixed custom
/// state.
pub open spec fn spec_initialize_request_bytes(
    vault_signer_nonce: u8,
    assets_length: u8,
    pool_name: Seq<u8>,
    fee_rate: u32,
    custom_data: Seq<u8>,
) -> Seq<u8> {
    spec_request_tag_bytes() + seq![0u8, vault_signer_nonce, assets_length]
        + spec_u32_le(pool_name.len() as u32) + pool_name
        + spec_u32_le(fee_rate)
        + spec_u32_le(custom_data.len() as u32) + custom_data
}

/// The serialized form of a basket query: the request tag, the byte for the
/// get-basket variant, then the action.
pub open spec fn spec_get_basket_request_bytes(action: PoolAction) -> Seq<u8> {
    spec_request_tag_bytes() + seq![1u8] + spec_action_bytes(action)
}

/// The serialized form of an execution request: the request tag, the byte
/// for the execute variant, then the action.
pub open spec fn spec_execute_request_bytes(action: PoolAction) -> Seq<u8> {
    spec_request_tag_bytes() + seq![2u8] + spec_action_bytes(action)
}

} // verus!

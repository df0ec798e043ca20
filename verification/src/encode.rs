use vstd::prelude::*;
use vstd::string::StringSliceAdditionalSpecFns;

use crate::request::PoolAction;
use crate::request::spec_execute_request_bytes;
use crate::request::spec_get_basket_request_bytes;
use crate::request::spec_initialize_request_bytes;
use crate::request::action_fits;

verus! {

/// Relies on `borsh::BorshSerialize::try_to_vec` for
/// `serum_pool_schema::PoolRequest`: the tag's eight little-endian bytes,
/// one byte for the variant's position, then the fields in order, strings
/// and vectors prefixed with their little-endian `u32` length. Writing to a
/// vector cannot fail, and the length prefixes fit by the preconditions, so
/// the call returns the bytes.
#[verifier::external_body]
pub(crate) fn encode_initialize_request(
    vault_signer_nonce: u8,
    assets_length: u8,
    pool_name: &str,
    fee_rate: u32,
    custom_data: &Vec<u8>,
) -> (r: Vec<u8>)
    requires
        pool_name.spec_bytes().len() <= u32::MAX,
        custom_data@.len() <= u32::MAX,
    ensures
        r@ == spec_initialize_request_bytes(
            vault_signer_nonce,
            assets_length,
            pool_name.spec_bytes(),
            fee_rate,
            custom_data@,
        ),
{
    let req = serum_pool_schema::PoolRequest {
        tag: Default::default(),
        inner: serum_pool_schema::PoolRequestInner::Initialize(serum_pool_schema::InitializePoolRequest {
            vault_signer_nonce,
            assets_length,
            pool_name: pool_name.to_owned(),
            fee_rate,
            custom_data: custom_data.clone(),
        }),
    };
    borsh::BorshSerialize::try_to_vec(&req).expect("writing to a vector cannot fail")
}

/// Relies on `borsh::BorshSerialize::try_to_vec` for
/// `serum_pool_schema::PoolRequest`, as above, for a basket query.
#[verifier::external_body]
pub(crate) fn encode_get_basket_request(action: &PoolAction) -> (r: Vec<u8>)
    requires
        action_fits(*action),
    ensures
        r@ == spec_get_basket_request_bytes(*action),
{
    let inner = serum_pool_schema::PoolRequestInner::GetBasket(match action {
        PoolAction::Create(amount) => serum_pool_schema::PoolAction::Create(*amount),
        PoolAction::Redeem(amount) => serum_pool_schema::PoolAction::Redeem(*amount),
        PoolAction::Swap(quantities) => serum_pool_schema::PoolAction::Swap(quantities.clone()),
    });
    let req = serum_pool_schema::PoolRequest { tag: Default::default(), inner };
    borsh::BorshSerialize::try_to_vec(&req).expect("writing to a vector cannot fail")
}

/// Relies on `borsh::BorshSerialize::try_to_vec` for
/// `serum_pool_schema::PoolRequest`, as above, for an execution request.
#[verifier::external_body]
pub(crate) fn encode_execute_request(action: &PoolAction) -> (r: Vec<u8>)
    requires
        action_fits(*action),
    ensures
        r@ == spec_execute_request_bytes(*action),
{
    let inner = serum_pool_schema::PoolRequestInner::Execute(match action {
        PoolAction::Create(amount) => serum_pool_schema::PoolAction::Create(*amount),
        PoolAction::Redeem(amount) => serum_pool_schema::PoolAction::Redeem(*amount),
        PoolAction::Swap(quantities) => serum_pool_schema::PoolAction::Swap(quantities.clone()),
    });
    let req = serum_pool_schema::PoolRequest { tag: Default::default(), inner };
    borsh::BorshSerialize::try_to_vec(&req).expect("writing to a vector cannot fail")
}

} // verus!

use vstd::prelude::*;
use vstd::string::StringSliceAdditionalSpecFns;

use crate::account::AccountMeta;
use crate::account::AccountMetaView;
use crate::account::keys_view;
use crate::account::metas_of_keys;
use crate::account::metas_view;
use crate::account::readonly_meta;
use crate::account::writable_meta;
use crate::encode::encode_execute_request;
use crate::encode::encode_get_basket_request;
use crate::encode::encode_initialize_request;
use crate::pubkey::Pubkey;
use crate::pubkey::spec_spl_token_program_id;
use crate::pubkey::spl_token_program_id;
use crate::request::PoolAction;
use crate::request::action_fits;
use crate::request::spec_execute_request_bytes;
use crate::request::spec_get_basket_request_bytes;
use crate::request::spec_initialize_request_bytes;

verus! {

/// A program call ready to be placed in a transaction: the program to call,
/// the ordered account list it reads, and the serialized request.
#[derive(Clone, Debug, PartialEq, Eq)]
pub struct Instruction {
    pub program_id: Pubkey,
    pub accounts: Vec<AccountMeta>,
    pub data: Vec<u8>,
}

/// The account order an initialize call hands the pool program: the pool
/// account (writable), the pool token mint, the asset vaults, the pool's
/// vault authority, and the registrar's vault authority.
pub open spec fn spec_initialize_accounts(
    pool: Seq<u8>,
    pool_token_mint: Seq<u8>,
    pool_asset_vaults: Seq<Seq<u8>>,
    pool_vault_authority: Seq<u8>,
    registrar_vault_authority: Seq<u8>,
) -> Seq<AccountMetaView> {
    seq![writable_meta(pool, false), readonly_meta(pool_token_mint, false)]
        + metas_of_keys(pool_asset_vaults, false)
        + seq![
            readonly_meta(pool_vault_authority, false),
            readonly_meta(registrar_vault_authority, false),
        ]
}

/// The account order a basket query hands the pool program: the pool
/// account, the pool token mint and the asset vaults (writable), the pool's
/// vault authority, then the return buffer and its owning program.
pub open spec fn spec_get_basket_accounts(
    pool: Seq<u8>,
    pool_token_mint: Seq<u8>,
    pool_asset_vaults: Seq<Seq<u8>>,
    pool_vault_authority: Seq<u8>,
    retbuf: Seq<u8>,
    retbuf_pid: Seq<u8>,
) -> Seq<AccountMetaView> {
    seq![writable_meta(pool, false), writable_meta(pool_token_mint, false)]
        + metas_of_keys(pool_asset_vaults, true)
        + seq![
            readonly_meta(pool_vault_authority, false),
            writable_meta(retbuf, false),
            readonly_meta(retbuf_pid, false),
        ]
}

/// The account order an execution hands the pool program: the pool account,
/// the pool token mint and the asset vaults (writable), the pool's vault
/// authority, the user's pool token account and asset accounts (writable),
/// the signing user authority, the token program, and the signing
/// beneficiary of the staking pool.
pub open spec fn spec_transact_accounts(
    pool: Seq<u8>,
    pool_token_mint: Seq<u8>,
    pool_asset_vaults: Seq<Seq<u8>>,
    pool_vault_authority: Seq<u8>,
    user_pool_token: Seq<u8>,
    user_pool_asset_tokens: Seq<Seq<u8>>,
    user_authority: Seq<u8>,
    beneficiary: Seq<u8>,
) -> Seq<AccountMetaView> {
    seq![writable_meta(pool, false), writable_meta(pool_token_mint, false)]
        + metas_of_keys(pool_asset_vaults, true)
        + seq![readonly_meta(pool_vault_authority, false), writable_meta(user_pool_token, false)]
        + metas_of_keys(user_pool_asset_tokens, true)
        + seq![
            readonly_meta(user_authority, true),
            readonly_meta(spec_spl_token_program_id(), false),
            readonly_meta(beneficiary, true),
        ]
}

/// Appends one writable entry.
fn push_writable(accounts: &mut Vec<AccountMeta>, key: &Pubkey, is_signer: bool)
    ensures
        metas_view(final(accounts)@) == metas_view(old(accounts)@).push(
            writable_meta(key@, is_signer),
        ),
{
    let ghost before: Seq<AccountMeta> = accounts@;
    accounts.push(AccountMeta::new(*key, is_signer));
    proof {
        assert(metas_view(accounts@) =~~= metas_view(before).push(writable_meta(key@, is_signer)));
    }
}

/// Appends one read-only entry.
fn push_readonly(accounts: &mut Vec<AccountMeta>, key: &Pubkey, is_signer: bool)
    ensures
        metas_view(final(accounts)@) == metas_view(old(accounts)@).push(
            readonly_meta(key@, is_signer),
        ),
{
    let ghost before: Seq<AccountMeta> = accounts@;
    accounts.push(AccountMeta::new_readonly(*key, is_signer));
    proof {
        assert(metas_view(accounts@) =~~= metas_view(before).push(readonly_meta(key@, is_signer)));
    }
}

/// Appends one non-signing entry per key, all writable or all read-only.
fn push_account_keys(accounts: &mut Vec<AccountMeta>, keys: &Vec<Pubkey>, writable: bool)
    ensures
        metas_view(final(accounts)@) == metas_view(old(accounts)@)
            + metas_of_keys(keys_view(keys@), writable),
{
    let ghost initial: Seq<AccountMeta> = accounts@;
    let n: usize = keys.len();
    let mut i: usize = 0;
    while i < n
        invariant
            i <= n,
            n == keys@.len(),
            metas_view(accounts@) =~~= metas_view(initial)
                + metas_of_keys(keys_view(keys@.take(i as int)), writable),
        decreases n - i,
    {
        let ghost before: Seq<AccountMeta> = accounts@;
        let meta: AccountMeta = if writable {
            AccountMeta::new(keys[i], false)
        } else {
            AccountMeta::new_readonly(keys[i], false)
        };
        accounts.push(meta);
        i = i + 1;
        proof {
            let j: int = i - 1;
            assert(keys@.take(i as int) =~= keys@.take(j as int).push(keys@[j as int]));
            assert(metas_of_keys(keys_view(keys@.take(i as int)), writable)
                =~~= metas_of_keys(keys_view(keys@.take(j as int)), writable).push(meta@));
            assert(metas_view(accounts@) =~~= metas_view(before).push(meta@));
        }
    }
    proof {
        assert(keys@.take(n as int) =~= keys@);
    }
}

/// Builds the instruction that initializes a staking pool: the accounts in
/// the order `spec_initialize_accounts` gives, and an initialize request
/// carrying the vault signer nonce, the number of asset vaults, the pool's
/// name and fee rate, and no custom state.
pub fn initialize(
    program_id: &Pubkey,
    pool: &Pubkey,
    pool_token_mint: &Pubkey,
    pool_asset_vaults: &Vec<Pubkey>,
    pool_vault_authority: &Pubkey,
    registrar_vault_authority: &Pubkey,
    vault_signer_nonce: u8,
    pool_name: &str,
    fee_rate: u32,
) -> (r: Instruction)
    requires
        pool_asset_vaults@.len() <= u8::MAX,
        pool_name.spec_bytes().len() <= u32::MAX,
    ensures
        r.program_id@ == program_id@,
        metas_view(r.accounts@) == spec_initialize_accounts(
            pool@,
            pool_token_mint@,
            keys_view(pool_asset_vaults@),
            pool_vault_authority@,
            registrar_vault_authority@,
        ),
        r.data@ == spec_initialize_request_bytes(
            vault_signer_nonce,
            pool_asset_vaults@.len() as u8,
            pool_name.spec_bytes(),
            fee_rate,
            Seq::<u8>::empty(),
        ),
{
    let assets_length: u8 = pool_asset_vaults.len() as u8;
    let mut accounts: Vec<AccountMeta> = Vec::new();
    push_writable(&mut accounts, pool, false);
    push_readonly(&mut accounts, pool_token_mint, false);
    push_account_keys(&mut accounts, pool_asset_vaults, false);
    push_readonly(&mut accounts, pool_vault_authority, false);
    push_readonly(&mut accounts, registrar_vault_authority, false);
    proof {
        assert(metas_view(accounts@) =~~= spec_initialize_accounts(
            pool@,
            pool_token_mint@,
            keys_view(pool_asset_vaults@),
            pool_vault_authority@,
            registrar_vault_authority@,
        ));
    }
    let custom_data: Vec<u8> = Vec::new();
    let data = encode_initialize_request(
        vault_signer_nonce,
        assets_length,
        pool_name,
        fee_rate,
        &custom_data,
    );
    Instruction { program_id: *program_id, accounts, data }
}

/// Builds the instruction that asks the pool program to write a creation or
/// redemption basket for `spt_amount` pool tokens into the return buffer.
/// The pool program prices creation and redemption baskets alike, so the
/// request always carries a creation action.
pub fn get_basket(
    pool_program_id: &Pubkey,
    pool: &Pubkey,
    pool_token_mint: &Pubkey,
    pool_asset_vaults: &Vec<Pubkey>,
    pool_vault_authority: &Pubkey,
    retbuf: &Pubkey,
    retbuf_pid: &Pubkey,
    spt_amount: u64,
) -> (r: Instruction)
    ensures
        r.program_id@ == pool_program_id@,
        metas_view(r.accounts@) == spec_get_basket_accounts(
            pool@,
            pool_token_mint@,
            keys_view(pool_asset_vaults@),
            pool_vault_authority@,
            retbuf@,
            retbuf_pid@,
        ),
        r.data@ == spec_get_basket_request_bytes(PoolAction::Create(spt_amount)),
{
    let mut accounts: Vec<AccountMeta> = Vec::new();
    push_writable(&mut accounts, pool, false);
    push_writable(&mut accounts, pool_token_mint, false);
    push_account_keys(&mut accounts, pool_asset_vaults, true);
    push_readonly(&mut accounts, pool_vault_authority, false);
    push_writable(&mut accounts, retbuf, false);
    push_readonly(&mut accounts, retbuf_pid, false);
    proof {
        assert(metas_view(accounts@) =~~= spec_get_basket_accounts(
            pool@,
            pool_token_mint@,
            keys_view(pool_asset_vaults@),
            pool_vault_authority@,
            retbuf@,
            retbuf_pid@,
        ));
    }
    let action = PoolAction::Create(spt_amount);
    let data = encode_get_basket_request(&action);
    Instruction { program_id: *pool_program_id, accounts, data }
}

/// Builds the instruction that executes `action` against the pool on behalf
/// of the user and the staking-pool beneficiary: the accounts in the order
/// `spec_transact_accounts` gives, and an execution request carrying the
/// action.
pub fn transact(
    program_id: &Pubkey,
    pool: &Pubkey,
    pool_token_mint: &Pubkey,
    pool_asset_vaults: &Vec<Pubkey>,
    pool_vault_authority: &Pubkey,
    user_pool_token: &Pubkey,
    user_pool_asset_tokens: &Vec<Pubkey>,
    user_authority: &Pubkey,
    beneficiary: &Pubkey,
    action: PoolAction,
) -> (r: Instruction)
    requires
        action_fits(action),
    ensures
        r.program_id@ == program_id@,
        metas_view(r.accounts@) == spec_transact_accounts(
            pool@,
            pool_token_mint@,
            keys_view(pool_asset_vaults@),
            pool_vault_authority@,
            user_pool_token@,
            keys_view(user_pool_asset_tokens@),
            user_authority@,
            beneficiary@,
        ),
        r.data@ == spec_execute_request_bytes(action),
{
    let mut accounts: Vec<AccountMeta> = Vec::new();
    push_writable(&mut accounts, pool, false);
    push_writable(&mut accounts, pool_token_mint, false);
    push_account_keys(&mut accounts, pool_asset_vaults, true);
    push_readonly(&mut accounts, pool_vault_authority, false);
    push_writable(&mut accounts, user_pool_token, false);
    push_account_keys(&mut accounts, user_pool_asset_tokens, true);
    push_readonly(&mut accounts, user_authority, true);
    let token_program: Pubkey = spl_token_program_id();
    push_readonly(&mut accounts, &token_program, false);
    push_readonly(&mut accounts, beneficiary, true);
    proof {
        assert(metas_view(accounts@) =~~= spec_transact_accounts(
            pool@,
            pool_token_mint@,
            keys_view(pool_asset_vaults@),
            pool_vault_authority@,
            user_pool_token@,
            keys_view(user_pool_asset_tokens@),
            user_authority@,
            beneficiary@,
        ));
    }
    let data = encode_execute_request(&action);
    Instruction { program_id: *program_id, accounts, data }
}

} // verus!

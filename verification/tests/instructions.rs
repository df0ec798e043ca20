use borsh::BorshSerialize;
use stake::AccountMeta;
use stake::PoolAction;
use stake::Pubkey;
use stake::get_basket;
use stake::initialize;
use stake::transact;

fn key(b: u8) -> Pubkey {
    Pubkey::new([b; 32])
}

fn tag_bytes() -> Vec<u8> {
    vec![0xcf, 0xc4, 0x1c, 0xcd, 0xbd, 0x6c, 0x0a, 0x22]
}

fn check_meta(meta: &AccountMeta, key_byte: u8, is_signer: bool, is_writable: bool) {
    assert_eq!(meta.pubkey.to_bytes(), [key_byte; 32]);
    assert_eq!(meta.is_signer, is_signer);
    assert_eq!(meta.is_writable, is_writable);
}

#[test]
fn initialize_account_order() {
    let vaults = vec![key(4), key(5)];
    let ix = initialize(&key(1), &key(2), &key(3), &vaults, &key(6), &key(7), 9, "pool", 2500);
    assert_eq!(ix.program_id.bytes, [1u8; 32]);
    assert_eq!(ix.accounts.len(), 6);
    check_meta(&ix.accounts[0], 2, false, true);
    check_meta(&ix.accounts[1], 3, false, false);
    check_meta(&ix.accounts[2], 4, false, false);
    check_meta(&ix.accounts[3], 5, false, false);
    check_meta(&ix.accounts[4], 6, false, false);
    check_meta(&ix.accounts[5], 7, false, false);
}

#[test]
fn initialize_no_vaults() {
    let vaults: Vec<Pubkey> = Vec::new();
    let ix = initialize(&key(1), &key(2), &key(3), &vaults, &key(6), &key(7), 0, "", 0);
    assert_eq!(ix.accounts.len(), 4);
    check_meta(&ix.accounts[0], 2, false, true);
    check_meta(&ix.accounts[1], 3, false, false);
    check_meta(&ix.accounts[2], 6, false, false);
    check_meta(&ix.accounts[3], 7, false, false);
}

#[test]
fn initialize_data_layout() {
    let vaults = vec![key(4), key(5)];
    let ix = initialize(&key(1), &key(2), &key(3), &vaults, &key(6), &key(7), 7, "pool", 2500);
    let mut expected = tag_bytes();
    expected.push(0); // initialize variant
    expected.push(7); // vault signer nonce
    expected.push(2); // number of asset vaults
    expected.extend_from_slice(&[4, 0, 0, 0]); // name length
    expected.extend_from_slice(b"pool");
    expected.extend_from_slice(&[0xc4, 0x09, 0, 0]); // fee rate 2500
    expected.extend_from_slice(&[0, 0, 0, 0]); // custom state length
    assert_eq!(ix.data, expected);
}

#[test]
fn initialize_matches_schema_serialization() {
    let vaults = vec![key(4)];
    let ix = initialize(&key(1), &key(2), &key(3), &vaults, &key(6), &key(7), 3, "a pool", 150);
    let req = serum_pool_schema::PoolRequest {
        tag: Default::default(),
        inner: serum_pool_schema::PoolRequestInner::Initialize(
            serum_pool_schema::InitializePoolRequest {
                vault_signer_nonce: 3,
                assets_length: 1,
                pool_name: "a pool".to_string(),
                fee_rate: 150,
                custom_data: Vec::new(),
            },
        ),
    };
    assert_eq!(ix.data, req.try_to_vec().unwrap());
}

#[test]
fn get_basket_account_order() {
    let vaults = vec![key(4), key(5)];
    let ix = get_basket(&key(1), &key(2), &key(3), &vaults, &key(6), &key(8), &key(9), 11);
    assert_eq!(ix.program_id.bytes, [1u8; 32]);
    assert_eq!(ix.accounts.len(), 7);
    check_meta(&ix.accounts[0], 2, false, true);
    check_meta(&ix.accounts[1], 3, false, true);
    check_meta(&ix.accounts[2], 4, false, true);
    check_meta(&ix.accounts[3], 5, false, true);
    check_meta(&ix.accounts[4], 6, false, false);
    check_meta(&ix.accounts[5], 8, false, true);
    check_meta(&ix.accounts[6], 9, false, false);
}

#[test]
fn get_basket_data_layout() {
    let vaults = vec![key(4)];
    let ix = get_basket(&key(1), &key(2), &key(3), &vaults, &key(6), &key(8), &key(9), 11);
    let mut expected = tag_bytes();
    expected.push(1); // get-basket variant
    expected.push(0); // create action
    expected.extend_from_slice(&[11, 0, 0, 0, 0, 0, 0, 0]);
    assert_eq!(ix.data, expected);

    let req = serum_pool_schema::PoolRequest {
        tag: Default::default(),
        inner: serum_pool_schema::PoolRequestInner::GetBasket(
            serum_pool_schema::PoolAction::Create(11),
        ),
    };
    assert_eq!(ix.data, req.try_to_vec().unwrap());
}

#[test]
fn transact_account_order() {
    let vaults = vec![key(4), key(5)];
    let user_tokens = vec![key(10), key(11)];
    let ix = transact(
        &key(1),
        &key(2),
        &key(3),
        &vaults,
        &key(6),
        &key(12),
        &user_tokens,
        &key(13),
        &key(14),
        PoolAction::Create(1),
    );
    assert_eq!(ix.accounts.len(), 11);
    check_meta(&ix.accounts[0], 2, false, true);
    check_meta(&ix.accounts[1], 3, false, true);
    check_meta(&ix.accounts[2], 4, false, true);
    check_meta(&ix.accounts[3], 5, false, true);
    check_meta(&ix.accounts[4], 6, false, false);
    check_meta(&ix.accounts[5], 12, false, true);
    check_meta(&ix.accounts[6], 10, false, true);
    check_meta(&ix.accounts[7], 11, false, true);
    check_meta(&ix.accounts[8], 13, true, false);
    assert_eq!(ix.accounts[9].pubkey.bytes, spl_token::id().to_bytes());
    assert!(!ix.accounts[9].is_signer);
    assert!(!ix.accounts[9].is_writable);
    check_meta(&ix.accounts[10], 14, true, false);
}

#[test]
fn transact_create_data_layout() {
    let ix = transact(
        &key(1),
        &key(2),
        &key(3),
        &vec![key(4)],
        &key(6),
        &key(12),
        &vec![key(10)],
        &key(13),
        &key(14),
        PoolAction::Create(21),
    );
    let mut expected = tag_bytes();
    expected.push(2); // execute variant
    expected.push(0); // create action
    expected.extend_from_slice(&[21, 0, 0, 0, 0, 0, 0, 0]);
    assert_eq!(ix.data, expected);
}

#[test]
fn transact_redeem_data_layout() {
    let ix = transact(
        &key(1),
        &key(2),
        &key(3),
        &vec![key(4)],
        &key(6),
        &key(12),
        &vec![key(10)],
        &key(13),
        &key(14),
        PoolAction::Redeem(5),
    );
    let mut expected = tag_bytes();
    expected.push(2); // execute variant
    expected.push(1); // redeem action
    expected.extend_from_slice(&[5, 0, 0, 0, 0, 0, 0, 0]);
    assert_eq!(ix.data, expected);
}

#[test]
fn transact_swap_data_layout() {
    let ix = transact(
        &key(1),
        &key(2),
        &key(3),
        &vec![key(4), key(5)],
        &key(6),
        &key(12),
        &vec![key(10), key(11)],
        &key(13),
        &key(14),
        PoolAction::Swap(vec![3, 4]),
    );
    let mut expected = tag_bytes();
    expected.push(2); // execute variant
    expected.push(2); // swap action
    expected.extend_from_slice(&[2, 0, 0, 0]); // quantity count
    expected.extend_from_slice(&[3, 0, 0, 0, 0, 0, 0, 0]);
    expected.extend_from_slice(&[4, 0, 0, 0, 0, 0, 0, 0]);
    assert_eq!(ix.data, expected);

    let req = serum_pool_schema::PoolRequest {
        tag: Default::default(),
        inner: serum_pool_schema::PoolRequestInner::Execute(serum_pool_schema::PoolAction::Swap(
            vec![3, 4],
        )),
    };
    assert_eq!(ix.data, req.try_to_vec().unwrap());
}

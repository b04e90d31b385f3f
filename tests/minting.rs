use pink_minting::minting::MintingData;
use pink_minting::traits::PinkMint;
use pink_minting::types::{Error, Id};

fn s(text: &str) -> String {
    text.to_string()
}

#[test]
fn new_controller_starts_empty() {
    let d = MintingData::new(Some(5), 2);
    assert_eq!(d.last_token_id, 0);
    assert_eq!(d.max_supply(), Some(5));
    assert_eq!(d.limit_per_account(), 2);
    assert!(d.nft_metadata.is_empty());
}

#[test]
fn zero_supply_cap_refuses_mint() {
    let mut d = MintingData::new(Some(0), 0);
    assert_eq!(d.mint(true, 0, s("m")), Err(Error::SupplyCapExceeded));
    assert_eq!(d.last_token_id, 0);
    assert!(d.nft_metadata.is_empty());
}

#[test]
fn account_limit_of_one() {
    let mut d = MintingData::new(None, 1);
    // account A holds nothing, then one token
    assert_eq!(d.mint(true, 0, s("a1")), Ok(Id::U64(1)));
    assert_eq!(d.mint(true, 1, s("a2")), Err(Error::AccountLimitExceeded));
    // account B holds nothing
    assert_eq!(d.mint(true, 0, s("b1")), Ok(Id::U64(2)));
    assert_eq!(d.last_token_id, 2);
}

#[test]
fn change_metadata_of_unminted_token() {
    let mut d = MintingData::new(None, 0);
    assert_eq!(d.change_metadata(true, Id::U64(1), s("x")), Err(Error::TokenNotFound));
    assert_eq!(d.mint(true, 0, s("m")), Ok(Id::U64(1)));
    assert_eq!(d.change_metadata(true, Id::U64(2), s("x")), Err(Error::TokenNotFound));
    // an identity of another width is never one the controller allocated
    assert_eq!(d.change_metadata(true, Id::U8(1), s("x")), Err(Error::TokenNotFound));
    assert_eq!(d.change_metadata(true, Id::Bytes(vec![1]), s("x")), Err(Error::TokenNotFound));
}

#[test]
fn non_admin_mint_is_refused() {
    let mut d = MintingData::new(None, 0);
    assert_eq!(d.mint(false, 0, s("m")), Err(Error::Unauthorized));
    assert_eq!(d.last_token_id, 0);
    assert!(d.nft_metadata.is_empty());
    // the role check comes before the supply check
    let mut full = MintingData::new(Some(0), 0);
    assert_eq!(full.mint(false, 0, s("m")), Err(Error::Unauthorized));
}

#[test]
fn removing_supply_cap_allows_mints() {
    let mut d = MintingData::new(Some(2), 0);
    assert_eq!(d.mint(true, 0, s("1")), Ok(Id::U64(1)));
    assert_eq!(d.mint(true, 0, s("2")), Ok(Id::U64(2)));
    assert_eq!(d.mint(true, 0, s("3")), Err(Error::SupplyCapExceeded));
    assert_eq!(d.set_max_supply(true, None), Ok(()));
    assert_eq!(d.mint(true, 0, s("3")), Ok(Id::U64(3)));
    assert_eq!(d.mint(true, 0, s("4")), Ok(Id::U64(4)));
}

#[test]
fn token_uri_of_unowned_token() {
    let mut d = MintingData::new(None, 0);
    assert_eq!(d.token_uri(7, false), Err(Error::TokenNotFound));
    assert_eq!(d.mint(true, 0, s("m")), Ok(Id::U64(1)));
    assert_eq!(d.token_uri(1, false), Err(Error::TokenNotFound));
}

#[test]
fn supply_never_exceeds_cap() {
    let mut d = MintingData::new(Some(3), 0);
    let mut ok: u64 = 0;
    for _ in 0..10 {
        if d.mint(true, 0, s("m")).is_ok() {
            ok += 1;
        }
        assert!(d.last_token_id <= 3);
    }
    assert_eq!(ok, 3);
}

#[test]
fn lowering_cap_below_count_blocks_further_mints() {
    let mut d = MintingData::new(None, 0);
    assert!(d.mint(true, 0, s("1")).is_ok());
    assert!(d.mint(true, 0, s("2")).is_ok());
    assert_eq!(d.set_max_supply(true, Some(1)), Ok(()));
    assert_eq!(d.mint(true, 0, s("3")), Err(Error::SupplyCapExceeded));
    // tokens already minted keep their metadata
    assert_eq!(d.token_uri(2, true), Ok(s("2")));
}

#[test]
fn per_account_limit_after_mint() {
    let mut d = MintingData::new(None, 3);
    assert_eq!(d.mint(true, 2, s("m")), Ok(Id::U64(1)));
    assert_eq!(d.mint(true, 3, s("m")), Err(Error::AccountLimitExceeded));
    assert_eq!(d.mint(true, 4, s("m")), Err(Error::AccountLimitExceeded));
    // supply is checked before the account limit
    let mut full = MintingData::new(Some(0), 1);
    assert_eq!(full.mint(true, 5, s("m")), Err(Error::SupplyCapExceeded));
}

#[test]
fn zero_limit_means_unlimited() {
    let mut d = MintingData::new(None, 0);
    assert_eq!(d.mint(true, u32::MAX, s("m")), Ok(Id::U64(1)));
}

#[test]
fn reads_return_last_set_values() {
    let mut d = MintingData::new(Some(1), 1);
    assert_eq!(d.set_max_supply(true, Some(10)), Ok(()));
    assert_eq!(d.set_limit_per_account(true, 4), Ok(()));
    assert!(d.mint(true, 0, s("m")).is_ok());
    assert_eq!(d.max_supply(), Some(10));
    assert_eq!(d.limit_per_account(), 4);
    assert_eq!(d.set_limit_per_account(true, 0), Ok(()));
    assert_eq!(d.limit_per_account(), 0);
}

#[test]
fn setters_require_admin() {
    let mut d = MintingData::new(Some(1), 1);
    assert_eq!(d.set_max_supply(false, None), Err(Error::Unauthorized));
    assert_eq!(d.set_limit_per_account(false, 9), Err(Error::Unauthorized));
    assert_eq!(d.max_supply(), Some(1));
    assert_eq!(d.limit_per_account(), 1);
}

#[test]
fn minted_metadata_is_returned() {
    let mut d = MintingData::new(None, 0);
    assert_eq!(d.mint(true, 0, s("ipfs://first")), Ok(Id::U64(1)));
    assert_eq!(d.mint(true, 0, s("ipfs://second")), Ok(Id::U64(2)));
    assert_eq!(d.token_uri(1, true), Ok(s("ipfs://first")));
    assert_eq!(d.token_uri(2, true), Ok(s("ipfs://second")));
}

#[test]
fn changed_metadata_is_returned() {
    let mut d = MintingData::new(None, 0);
    assert_eq!(d.mint(true, 0, s("old")), Ok(Id::U64(1)));
    assert_eq!(d.change_metadata(true, Id::U64(1), s("new")), Ok(()));
    assert_eq!(d.token_uri(1, true), Ok(s("new")));
    assert_eq!(d.last_token_id, 1);
}

#[test]
fn non_admin_change_metadata_is_refused() {
    let mut d = MintingData::new(None, 0);
    assert_eq!(d.mint(true, 0, s("old")), Ok(Id::U64(1)));
    assert_eq!(d.change_metadata(false, Id::U64(1), s("new")), Err(Error::Unauthorized));
    assert_eq!(d.change_metadata(false, Id::U64(9), s("new")), Err(Error::Unauthorized));
    assert_eq!(d.token_uri(1, true), Ok(s("old")));
}

#[test]
fn owned_token_without_metadata_has_empty_uri() {
    let d = MintingData::new(None, 0);
    assert_eq!(d.token_uri(3, true), Ok(String::new()));
}

#[test]
fn check_mint_decides_without_changing_state() {
    let d = MintingData::new(Some(1), 0);
    assert_eq!(d.check_mint(true, 0), Ok(Id::U64(1)));
    assert_eq!(d.check_mint(false, 0), Err(Error::Unauthorized));
    assert_eq!(d.last_token_id, 0);
}

#[test]
fn exhausted_identity_space_refuses_mint() {
    let mut d = MintingData::new(None, 0);
    d.last_token_id = u64::MAX;
    assert_eq!(d.mint(true, 0, s("m")), Err(Error::IdentitiesExhausted));
    assert_eq!(d.check_mint(true, 0), Err(Error::IdentitiesExhausted));
    // a configured cap and the recipient's limit are reported first
    assert_eq!(d.set_max_supply(true, Some(u64::MAX)), Ok(()));
    assert_eq!(d.mint(true, 0, s("m")), Err(Error::SupplyCapExceeded));
    assert_eq!(d.set_max_supply(true, None), Ok(()));
    assert_eq!(d.set_limit_per_account(true, 1), Ok(()));
    assert_eq!(d.mint(true, 1, s("m")), Err(Error::AccountLimitExceeded));
    assert_eq!(d.set_limit_per_account(true, 0), Ok(()));
    d.last_token_id = u64::MAX - 1;
    assert_eq!(d.mint(true, 0, s("m")), Ok(Id::U64(u64::MAX)));
}

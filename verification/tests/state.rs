use terraswap_pool::asset::AssetInfo;
use terraswap_pool::error::ContractError;
use terraswap_pool::state::{load_asset_info, load_lp_addr, store_lp, LpEntry, PoolStorage, State};

fn native(denom: &str) -> AssetInfo {
    AssetInfo::NativeToken {
        denom: denom.to_string(),
    }
}

fn token(contract_addr: &str) -> AssetInfo {
    AssetInfo::Token {
        contract_addr: contract_addr.to_string(),
    }
}

#[test]
fn a_new_storage_holds_nothing() {
    let store = PoolStorage::new();
    assert_eq!(store.state(), None);
    assert_eq!(store.tmp_new_token_pool(), None);
    assert!(store.lps().is_empty());
    assert_eq!(
        load_lp_addr(&store, native("uusd")),
        Err(ContractError::NotFound)
    );
    assert_eq!(
        load_asset_info(&store, "lp0000".to_string()),
        Err(ContractError::NotFound)
    );
}

#[test]
fn a_stored_pair_is_found_from_both_sides() {
    let mut store = PoolStorage::new();
    store_lp(&mut store, native("uusd"), "lp0000".to_string()).unwrap();
    store_lp(&mut store, token("terra1token"), "lp0001".to_string()).unwrap();

    assert_eq!(
        load_lp_addr(&store, native("uusd")),
        Ok("lp0000".to_string())
    );
    assert_eq!(
        load_asset_info(&store, "lp0000".to_string()),
        Ok(native("uusd"))
    );
    assert_eq!(
        load_lp_addr(&store, token("terra1token")),
        Ok("lp0001".to_string())
    );
    assert_eq!(
        load_asset_info(&store, "lp0001".to_string()),
        Ok(token("terra1token"))
    );
    assert_eq!(
        load_lp_addr(&store, native("ukrw")),
        Err(ContractError::NotFound)
    );
    assert_eq!(
        load_asset_info(&store, "lp0002".to_string()),
        Err(ContractError::NotFound)
    );
}

#[test]
fn a_share_token_is_bound_once() {
    let mut store = PoolStorage::new();
    store_lp(&mut store, native("uusd"), "lp0000".to_string()).unwrap();
    let before = store.clone();

    assert_eq!(
        store_lp(&mut store, native("ukrw"), "lp0000".to_string()),
        Err(ContractError::AlreadyExsit("lp_token".to_string()))
    );
    assert_eq!(store, before);
    assert_eq!(
        load_lp_addr(&store, native("ukrw")),
        Err(ContractError::NotFound)
    );
}

#[test]
fn an_asset_is_bound_once() {
    let mut store = PoolStorage::new();
    store_lp(&mut store, native("uusd"), "lp0000".to_string()).unwrap();
    let before = store.clone();

    assert_eq!(
        store_lp(&mut store, native("uusd"), "lp0001".to_string()),
        Err(ContractError::AlreadyExsit("asset_info".to_string()))
    );
    assert_eq!(store, before);
    assert_eq!(
        load_asset_info(&store, "lp0001".to_string()),
        Err(ContractError::NotFound)
    );
}

#[test]
fn a_pair_bound_twice_is_refused_for_its_share_token() {
    let mut store = PoolStorage::new();
    store_lp(&mut store, native("uusd"), "lp0000".to_string()).unwrap();
    assert_eq!(
        store_lp(&mut store, native("uusd"), "lp0000".to_string()),
        Err(ContractError::AlreadyExsit("lp_token".to_string()))
    );
}

#[test]
fn a_token_and_a_denom_of_the_same_text_are_two_assets() {
    let mut store = PoolStorage::new();
    store_lp(&mut store, native("same"), "lp0000".to_string()).unwrap();
    store_lp(&mut store, token("same"), "lp0001".to_string()).unwrap();
    assert_eq!(load_lp_addr(&store, native("same")), Ok("lp0000".to_string()));
    assert_eq!(load_lp_addr(&store, token("same")), Ok("lp0001".to_string()));
}

#[test]
fn the_pools_are_listed_each_of_them_once() {
    let mut store = PoolStorage::new();
    store_lp(&mut store, native("uusd"), "lp0000".to_string()).unwrap();
    store_lp(&mut store, token("terra1token"), "lp0001".to_string()).unwrap();
    store_lp(&mut store, native("uusd"), "lp0002".to_string()).unwrap_err();
    let listed = store.lps();
    assert_eq!(listed.len(), 2);
    assert!(listed.contains(&LpEntry {
        asset_info: native("uusd"),
        lp_address: "lp0000".to_string()
    }));
    assert!(listed.contains(&LpEntry {
        asset_info: token("terra1token"),
        lp_address: "lp0001".to_string()
    }));
}

#[test]
fn the_configuration_and_the_marker_are_set_and_cleared() {
    let mut store = PoolStorage::new();
    store.set_state(State {
        owner: "owner0000".to_string(),
        token_code_id: 7,
    });
    store.set_tmp_new_token_pool(native("uusd"));
    assert_eq!(
        store.state(),
        Some(&State {
            owner: "owner0000".to_string(),
            token_code_id: 7
        })
    );
    assert_eq!(store.tmp_new_token_pool(), Some(&native("uusd")));

    store.set_tmp_new_token_pool(token("terra1token"));
    assert_eq!(store.tmp_new_token_pool(), Some(&token("terra1token")));

    store.clear_tmp_new_token_pool();
    assert_eq!(store.tmp_new_token_pool(), None);
    store.check_invariant();
}

#[test]
fn a_clone_holds_what_its_source_holds() {
    let mut store = PoolStorage::new();
    store.set_state(State {
        owner: "owner0000".to_string(),
        token_code_id: 7,
    });
    store_lp(&mut store, native("uusd"), "lp0000".to_string()).unwrap();
    store.set_tmp_new_token_pool(native("ukrw"));
    let copy = store.clone();
    assert_eq!(copy, store);
    assert_eq!(load_lp_addr(&copy, native("uusd")), Ok("lp0000".to_string()));
}

#[test]
fn assets_compare_by_kind_and_text() {
    assert!(native("uusd").equal(&native("uusd")));
    assert!(!native("uusd").equal(&native("ukrw")));
    assert!(!native("uusd").equal(&token("uusd")));
    assert!(token("terra1token").equal(&token("terra1token")));
    assert!(native("uusd").is_native_token());
    assert!(!token("uusd").is_native_token());
    assert_eq!(token("terra1token").clone(), token("terra1token"));
}

use cosmwasm_std::testing::MOCK_CONTRACT_ADDR;
use cosmwasm_std::to_binary;
use protobuf::well_known_types::Any;
use protobuf::Message;
use terraswap_pool::asset::AssetInfo;
use terraswap_pool::contract::{execute, instantiate, query, query_lp_info, reply};
use terraswap_pool::msg::{
    ConfigResponse, ExecuteMsg, InstantiateMsg, LpInfoResponse, QueryMsg, QueryResponse, Reply,
    MSG_REPLY_ID_NEW_TOKEN_POOL,
};
use terraswap_pool::results::{attr, CosmosMsg, Response, SubMsg, WasmMsg};
use terraswap_pool::state::PoolStorage;

static OWNER: &str = "owner0000";
static TOKEN_CODE_ID: u64 = 1;

// An instantiate response carries its address in field 1 and its data in
// field 2, as `Any` carries its type URL and value.
fn instantiate_response(contract_address: &str) -> Vec<u8> {
    let mut res = Any::new();
    res.set_type_url(contract_address.to_string());
    res.write_to_bytes().unwrap()
}

fn init(store: &mut PoolStorage) {
    let msg = InstantiateMsg {
        token_code_id: TOKEN_CODE_ID,
    };
    instantiate(store, OWNER.to_string(), msg).unwrap();
}

fn init_with_pending_pool(store: &mut PoolStorage) {
    init(store);
    let msg = ExecuteMsg::CreatePool {
        asset_info: AssetInfo::NativeToken {
            denom: "uusd".to_string(),
        },
        symbol: "UST".to_string(),
    };
    execute(
        store,
        MOCK_CONTRACT_ADDR.to_string(),
        OWNER.to_string(),
        msg,
    )
    .unwrap();
}

#[test]
fn proper_initialization() {
    let mut store = PoolStorage::new();

    let msg = InstantiateMsg { token_code_id: 1 };

    let res = instantiate(&mut store, "creator".to_string(), msg).unwrap();
    assert_eq!(0, res.messages.len());

    let res = query(&store, QueryMsg::GetConfig {}).unwrap();
    let value: ConfigResponse = match res {
        QueryResponse::Config(value) => value,
        QueryResponse::LpInfo(_) => panic!("a config query was answered with a pool"),
    };
    assert_eq!(1, value.token_code_id);
    assert_eq!("creator".to_string(), value.owner);
}

#[test]
fn normal_create_pool() {
    let mut store = PoolStorage::new();
    init(&mut store);

    let msg = ExecuteMsg::CreatePool {
        asset_info: AssetInfo::NativeToken {
            denom: "uusd".to_string(),
        },
        symbol: "UST".to_string(),
    };
    let res = execute(
        &mut store,
        MOCK_CONTRACT_ADDR.to_string(),
        OWNER.to_string(),
        msg,
    )
    .unwrap();
    assert_eq!(
        res,
        Response::new().add_submessage(SubMsg::reply_on_success(
            CosmosMsg::Wasm(WasmMsg::Instantiate {
                admin: None,
                code_id: TOKEN_CODE_ID,
                msg: to_binary(&terraswap::token::InstantiateMsg {
                    name: "terraswap pool liqudity token".to_string(),
                    symbol: "lpUST".to_string(),
                    decimals: 6u8,
                    initial_balances: vec![],
                    mint: Some(cw20::MinterResponse {
                        minter: MOCK_CONTRACT_ADDR.to_string(),
                        cap: None,
                    }),
                })
                .unwrap()
                .0,
                funds: vec![],
                label: "".to_string(),
            }),
            MSG_REPLY_ID_NEW_TOKEN_POOL,
        ))
    );
}

#[test]
fn unknown_owner_create_pool_will_err() {
    let mut store = PoolStorage::new();
    init(&mut store);

    let msg = ExecuteMsg::CreatePool {
        asset_info: AssetInfo::NativeToken {
            denom: "uusd".to_string(),
        },
        symbol: "UST".to_string(),
    };
    execute(
        &mut store,
        MOCK_CONTRACT_ADDR.to_string(),
        "unknown0000".to_string(),
        msg,
    )
    .unwrap_err();
}

#[test]
fn normal_reply_new_pool_token() {
    let mut store = PoolStorage::new();
    init_with_pending_pool(&mut store);

    let res = reply(
        &mut store,
        Reply {
            id: MSG_REPLY_ID_NEW_TOKEN_POOL,
            data: Some(instantiate_response(MOCK_CONTRACT_ADDR)),
        },
    )
    .unwrap();

    assert_eq!(
        res.attributes[0],
        attr("lp_token".to_string(), MOCK_CONTRACT_ADDR.to_string())
    );

    let res = query_lp_info(
        &store,
        AssetInfo::NativeToken {
            denom: "uusd".to_string(),
        },
    )
    .unwrap();

    assert_eq!(
        res,
        LpInfoResponse {
            lp_address: MOCK_CONTRACT_ADDR.to_string()
        }
    )
}

#[test]
fn fail_reply_new_pool_token_with_unknown_reply_response() {
    let mut store = PoolStorage::new();
    init_with_pending_pool(&mut store);

    // The JSON text of a config query, which is no instantiate response.
    let data = b"{\"get_config\":{}}".to_vec();

    reply(
        &mut store,
        Reply {
            id: MSG_REPLY_ID_NEW_TOKEN_POOL,
            data: Some(data),
        },
    )
    .unwrap_err();
}

#[test]
fn unknown_reply_id_will_error() {
    let mut store = PoolStorage::new();
    init_with_pending_pool(&mut store);

    reply(
        &mut store,
        Reply {
            id: 99u64,
            data: Some(instantiate_response(MOCK_CONTRACT_ADDR)),
        },
    )
    .unwrap_err();
}

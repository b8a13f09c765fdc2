use crate::asset::AssetInfo;
use crate::asset::AssetInfoView;
use crate::error::ContractError;
use crate::error::ErrorView;
use crate::lp::new_pool_token;
use crate::lp::new_pool_token_spec;
use crate::lp::reply_new_pool_token;
use crate::lp::reply_new_pool_token_spec;
use crate::msg::ConfigResponse;
use crate::msg::ConfigResponseView;
use crate::msg::ExecuteMsg;
use crate::msg::InstantiateMsg;
use crate::msg::LpInfoResponse;
use crate::msg::LpInfoResponseView;
use crate::msg::QueryMsg;
use crate::msg::QueryResponse;
use crate::msg::QueryResponseView;
use crate::msg::Reply;
use crate::msg::MSG_REPLY_ID_NEW_TOKEN_POOL;
use crate::response::parse_response;
use crate::response::MsgInstantiateContractResponse;
use crate::results::AttributeView;
use crate::results::Response;
use crate::results::ResponseView;
use crate::state::load_lp_addr;
use crate::state::PoolStorage;
use crate::state::State;
use crate::state::StateView;
use crate::state::StorageView;
use crate::text::decimal;
use crate::text::u64_to_string;
use vstd::prelude::*;

verus! {

/// What initialising the pool does to the state `s` and hands back: `sender`
/// becomes the owner, whatever the configuration was before, and the
/// response reports the method, the owner and the token code.
pub open spec fn instantiate_spec(s: StorageView, sender: Seq<char>, token_code_id: u64) -> (
    StorageView,
    ResponseView,
) {
    (
        StorageView { state: Some(StateView { owner: sender, token_code_id }), ..s },
        ResponseView {
            messages: Seq::empty(),
            attributes: seq![
                AttributeView { key: "method"@, value: "instantiate"@ },
                AttributeView { key: "owner"@, value: sender },
                AttributeView { key: "token_code_id"@, value: decimal(token_code_id as nat) },
            ],
        },
    )
}

/// Initialises the pool: `sender` becomes its owner.
pub fn instantiate(store: &mut PoolStorage, sender: String, msg: InstantiateMsg) -> (r: Result<
    Response,
    ContractError,
>)
    ensures
        final(store)@.wf(),
        r matches Ok(response) && (final(store)@, response@) == instantiate_spec(
            old(store)@,
            sender@,
            msg.token_code_id,
        ),
{
    store.set_state(State { token_code_id: msg.token_code_id, owner: sender.clone() });
    let response = Response::new().add_attribute(
        "method".to_owned(),
        "instantiate".to_owned(),
    ).add_attribute("owner".to_owned(), sender).add_attribute(
        "token_code_id".to_owned(),
        u64_to_string(msg.token_code_id),
    );
    assert(response@.attributes =~= instantiate_spec(
        old(store)@,
        sender@,
        msg.token_code_id,
    ).1.attributes);
    Ok(response)
}

/// What a request to create a pool does to the state `s` and hands back: the
/// request to instantiate the share token, as the response's only message.
pub open spec fn try_create_pool_spec(
    s: StorageView,
    contract_address: Seq<char>,
    sender: Seq<char>,
    asset: AssetInfoView,
    symbol: Seq<char>,
) -> (StorageView, Result<ResponseView, ErrorView>) {
    let (after, outcome) = new_pool_token_spec(s, contract_address, sender, asset, symbol);
    match outcome {
        Ok(request) => (
            after,
            Ok(ResponseView { messages: seq![request], attributes: Seq::empty() }),
        ),
        Err(e) => (after, Err(e)),
    }
}

/// Creates the pool of `asset_info` on behalf of `sender`, who must be the
/// owner. `contract_address` is the pool's own address.
pub fn try_create_pool(
    store: &mut PoolStorage,
    contract_address: String,
    sender: String,
    asset_info: AssetInfo,
    symbol: String,
) -> (r: Result<Response, ContractError>)
    ensures
        final(store)@.wf(),
        old(store)@.state matches Some(state) && state.owner != sender@ ==> *final(store) == *old(
            store,
        ) && (r matches Err(e) && e@ == ErrorView::Unauthorized),
        final(store)@ == try_create_pool_spec(
            old(store)@,
            contract_address@,
            sender@,
            asset_info@,
            symbol@,
        ).0,
        match r {
            Ok(response) => Ok::<ResponseView, ErrorView>(response@) == try_create_pool_spec(
                old(store)@,
                contract_address@,
                sender@,
                asset_info@,
                symbol@,
            ).1,
            Err(e) => Err::<ResponseView, ErrorView>(e@) == try_create_pool_spec(
                old(store)@,
                contract_address@,
                sender@,
                asset_info@,
                symbol@,
            ).1 && *final(store) == *old(store),
        },
{
    match store.state() {
        None => return Err(ContractError::ConfigurationError),
        Some(state) => {
            if sender != state.owner {
                return Err(ContractError::Unauthorized {  });
            }
        },
    }
    let sub_msg = match new_pool_token(store, contract_address, sender, asset_info, symbol) {
        Ok(sub_msg) => sub_msg,
        Err(e) => return Err(e),
    };
    let response = Response::new().add_submessage(sub_msg);
    assert(response@.messages =~= seq![sub_msg@]);
    Ok(response)
}

/// What `msg` does to the state `s` and hands back.
pub open spec fn execute_spec(
    s: StorageView,
    contract_address: Seq<char>,
    sender: Seq<char>,
    asset: AssetInfoView,
    symbol: Seq<char>,
) -> (StorageView, Result<ResponseView, ErrorView>) {
    try_create_pool_spec(s, contract_address, sender, asset, symbol)
}

/// Carries out `msg` on behalf of `sender`. `contract_address` is the pool's
/// own address.
pub fn execute(store: &mut PoolStorage, contract_address: String, sender: String, msg: ExecuteMsg) -> (r:
    Result<Response, ContractError>)
    ensures
        final(store)@.wf(),
        old(store)@.state matches Some(state) && state.owner != sender@ ==> *final(store) == *old(
            store,
        ) && (r matches Err(e) && e@ == ErrorView::Unauthorized),
        msg matches ExecuteMsg::CreatePool { asset_info, symbol } && final(store)@
            == execute_spec(old(store)@, contract_address@, sender@, asset_info@, symbol@).0
            && match r {
            Ok(response) => Ok::<ResponseView, ErrorView>(response@) == execute_spec(
                old(store)@,
                contract_address@,
                sender@,
                asset_info@,
                symbol@,
            ).1,
            Err(e) => Err::<ResponseView, ErrorView>(e@) == execute_spec(
                old(store)@,
                contract_address@,
                sender@,
                asset_info@,
                symbol@,
            ).1 && *final(store) == *old(store),
        },
{
    match msg {
        ExecuteMsg::CreatePool { asset_info, symbol } => try_create_pool(
            store,
            contract_address,
            sender,
            asset_info,
            symbol,
        ),
    }
}

/// The configuration, if the pool has been initialised.
pub fn query_config(store: &PoolStorage) -> (r: Result<ConfigResponse, ContractError>)
    ensures
        match r {
            Ok(response) => store@.state == Some(
                StateView { owner: response@.owner, token_code_id: response@.token_code_id },
            ),
            Err(e) => store@.state is None && e@ == ErrorView::ConfigurationError,
        },
{
    match store.state() {
        None => Err(ContractError::ConfigurationError),
        Some(state) => Ok(
            ConfigResponse { token_code_id: state.token_code_id, owner: state.owner.clone() },
        ),
    }
}

/// The share token of the pool of `asset_info`.
pub fn query_lp_info(store: &PoolStorage, asset_info: AssetInfo) -> (r: Result<
    LpInfoResponse,
    ContractError,
>)
    ensures
        match r {
            Ok(response) => store@.lps_asset_info.contains_key(asset_info@)
                && response@.lp_address == store@.lps_asset_info[asset_info@],
            Err(e) => !store@.lps_asset_info.contains_key(asset_info@) && e@
                == ErrorView::NotFound,
        },
{
    match load_lp_addr(store, asset_info) {
        Ok(lp_address) => Ok(LpInfoResponse { lp_address }),
        Err(e) => Err(e),
    }
}

/// The answer that the state `s` gives to a query.
pub open spec fn query_spec(s: StorageView, msg: QueryMsg) -> Result<QueryResponseView, ErrorView> {
    match msg {
        QueryMsg::GetConfig {  } => match s.state {
            None => Err(ErrorView::ConfigurationError),
            Some(state) => Ok(
                QueryResponseView::Config(
                    ConfigResponseView { token_code_id: state.token_code_id, owner: state.owner },
                ),
            ),
        },
        QueryMsg::GetLpInfo { asset_info } => if s.lps_asset_info.contains_key(asset_info@) {
            Ok(
                QueryResponseView::LpInfo(
                    LpInfoResponseView { lp_address: s.lps_asset_info[asset_info@] },
                ),
            )
        } else {
            Err(ErrorView::NotFound)
        },
    }
}

/// Answers a query. The state is only read.
pub fn query(store: &PoolStorage, msg: QueryMsg) -> (r: Result<QueryResponse, ContractError>)
    ensures
        match r {
            Ok(response) => Ok::<QueryResponseView, ErrorView>(response@) == query_spec(
                store@,
                msg,
            ),
            Err(e) => Err::<QueryResponseView, ErrorView>(e@) == query_spec(store@, msg),
        },
{
    match msg {
        QueryMsg::GetConfig {  } => match query_config(store) {
            Ok(response) => Ok(QueryResponse::Config(response)),
            Err(e) => Err(e),
        },
        QueryMsg::GetLpInfo { asset_info } => match query_lp_info(store, asset_info) {
            Ok(response) => Ok(QueryResponse::LpInfo(response)),
            Err(e) => Err(e),
        },
    }
}

/// What a confirmation under the tag `id` with the payload `data` does to the
/// state `s` and hands back.
///
/// A tag other than the pool-creation tag is refused before anything else is
/// looked at. Then the payload is decoded, and only a payload that decodes
/// reaches the pending marker and the registry: a confirmation without a
/// payload, or with one that is no instantiate response, finds the marker
/// and the registry as they were and leaves them so.
pub open spec fn reply_spec(s: StorageView, id: u64, data: Option<Seq<u8>>) -> (
    StorageView,
    Result<ResponseView, ErrorView>,
) {
    if id != MSG_REPLY_ID_NEW_TOKEN_POOL {
        (s, Err(ErrorView::UnknownReplyId(id)))
    } else {
        match data {
            None => (s, Err(ErrorView::ParseError)),
            Some(bytes) => match parse_response(bytes) {
                None => (s, Err(ErrorView::ParseError)),
                Some(response) => {
                    let (after, outcome) = reply_new_pool_token_spec(s, response.contract_address);
                    match outcome {
                        Ok(attribute) => (
                            after,
                            Ok(
                                ResponseView {
                                    messages: Seq::empty(),
                                    attributes: seq![attribute],
                                },
                            ),
                        ),
                        Err(e) => (after, Err(e)),
                    }
                },
            },
        }
    }
}

/// The payload of a confirmation as the model sees it.
pub open spec fn reply_data(msg: Reply) -> Option<Seq<u8>> {
    match msg.data {
        Some(data) => Some(data@),
        None => None,
    }
}

/// Takes the confirmation of a request that the pool sent out.
pub fn reply(store: &mut PoolStorage, msg: Reply) -> (r: Result<Response, ContractError>)
    ensures
        final(store)@.wf(),
        msg.id != MSG_REPLY_ID_NEW_TOKEN_POOL ==> *final(store) == *old(store) && (
        r matches Err(e) && e@ == ErrorView::UnknownReplyId(msg.id)),
        msg.id == MSG_REPLY_ID_NEW_TOKEN_POOL && (msg.data matches Some(data) ==> parse_response(
            data@,
        ) is None) ==> *final(store) == *old(store) && (r matches Err(e) && e@
            == ErrorView::ParseError),
        final(store)@ == reply_spec(old(store)@, msg.id, reply_data(msg)).0,
        match r {
            Ok(response) => Ok::<ResponseView, ErrorView>(response@) == reply_spec(
                old(store)@,
                msg.id,
                reply_data(msg),
            ).1,
            Err(e) => Err::<ResponseView, ErrorView>(e@) == reply_spec(
                old(store)@,
                msg.id,
                reply_data(msg),
            ).1 && *final(store) == *old(store),
        },
{
    store.check_invariant();
    if msg.id != MSG_REPLY_ID_NEW_TOKEN_POOL {
        return Err(ContractError::UnknownReplyId(msg.id));
    }
    let data = match msg.data {
        None => return Err(ContractError::ParseError),
        Some(data) => data,
    };
    let res = match MsgInstantiateContractResponse::parse_from_bytes(data.as_slice()) {
        Ok(res) => res,
        Err(e) => return Err(e),
    };
    let attr = match reply_new_pool_token(store, res.contract_address) {
        Ok(attr) => attr,
        Err(e) => return Err(e),
    };
    let response = Response::new().add_attribute(attr.key, attr.value);
    assert(response@.attributes =~= seq![attr@]);
    Ok(response)
}

} // verus!

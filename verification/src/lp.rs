use crate::asset::Asset;
use crate::asset::AssetInfo;
use crate::asset::AssetInfoView;
use crate::error::ContractError;
use crate::error::ErrorView;
use crate::msg::MSG_REPLY_ID_NEW_TOKEN_POOL;
use crate::results::attr;
use crate::results::views;
use crate::results::Attribute;
use crate::results::AttributeView;
use crate::results::BankMsg;
use crate::results::BankMsgView;
use crate::results::Coin;
use crate::results::CoinView;
use crate::results::CosmosMsg;
use crate::results::CosmosMsgView;
use crate::results::ReplyOn;
use crate::results::SubMsg;
use crate::results::SubMsgView;
use crate::results::WasmMsg;
use crate::results::WasmMsgView;
use crate::share::burn_payout;
use crate::share::compute_burn_payout;
use crate::share::compute_mint;
use crate::share::mint_amount;
use crate::state::load_asset_info;
use crate::state::load_lp_addr;
use crate::state::store_lp;
use crate::state::PoolStorage;
use crate::state::StorageView;
use crate::token::cw20_execute_json;
use crate::token::encode_cw20_execute;
use crate::token::encode_token_instantiate;
use crate::token::token_instantiate_json;
use crate::token::Cw20ExecuteMsg;
use crate::token::Cw20ExecuteMsgView;
use crate::token::MinterResponse;
use crate::token::MinterResponseView;
use crate::token::TokenInstantiateMsg;
use crate::token::TokenInstantiateMsgView;
use cosmwasm_std::StdError;
use vstd::prelude::*;
use vstd::string::StringExecFns;

verus! {

/// An encoder's outcome as the model sees it: the bytes, or nothing.
pub open spec fn encoded_view(encoded: Result<Vec<u8>, StdError>) -> Option<Seq<u8>> {
    match encoded {
        Ok(bytes) => Some(bytes@),
        Err(_) => None,
    }
}

/// A call on the contract at `contract_addr` with `body` as its message and
/// no funds attached.
pub open spec fn execute_msg(contract_addr: Seq<char>, body: Seq<u8>) -> CosmosMsgView {
    CosmosMsgView::Wasm(
        WasmMsgView::Execute { contract_addr, msg: body, funds: Seq::empty() },
    )
}

/// Wraps an encoded message body into a call on `contract_addr`, or hands up
/// the encoder's error.
pub fn wasm_execute(contract_addr: String, encoded: Result<Vec<u8>, StdError>) -> (r: Result<
    CosmosMsg,
    ContractError,
>)
    ensures
        match encoded {
            Ok(bytes) => r matches Ok(msg) && msg@ == execute_msg(contract_addr@, bytes@),
            Err(error) => r == Err::<CosmosMsg, ContractError>(ContractError::Std(error)),
        },
{
    match encoded {
        Ok(msg) => {
            let funds: Vec<Coin> = Vec::new();
            assert(views(funds@) =~= Seq::empty());
            Ok(CosmosMsg::Wasm(WasmMsg::Execute { contract_addr, msg, funds }))
        },
        Err(error) => Err(ContractError::Std(error)),
    }
}

/// The message that sets up the share token of a pool: a fixed name, the
/// base asset's symbol behind the prefix `lp`, six decimals, nobody holding
/// anything, and the pool as the only minter, without a cap.
pub open spec fn pool_token_init(pool_address: Seq<char>, symbol: Seq<char>) -> TokenInstantiateMsgView {
    TokenInstantiateMsgView {
        name: "terraswap pool liqudity token"@,
        symbol: "lp"@ + symbol,
        decimals: 6,
        initial_balances: Seq::empty(),
        mint: Some(MinterResponseView { minter: pool_address, cap: None }),
    }
}

/// Builds the message that sets up the share token of a pool.
pub fn pool_token_instantiate_msg(pool_address: String, symbol: String) -> (r: TokenInstantiateMsg)
    ensures
        r@ == pool_token_init(pool_address@, symbol@),
{
    let mut prefixed = "lp".to_owned();
    prefixed.append(symbol.as_str());
    let initial_balances = Vec::new();
    let r = TokenInstantiateMsg {
        name: "terraswap pool liqudity token".to_owned(),
        symbol: prefixed,
        decimals: 6,
        initial_balances,
        mint: Some(MinterResponse { minter: pool_address, cap: None }),
    };
    assert(r@.initial_balances =~= Seq::empty());
    r
}

/// The request to instantiate a share token from the code `code_id` with the
/// message `body`: no admin, no funds, an empty label, and its success
/// reported back under the pool-creation tag.
pub open spec fn pool_token_request(code_id: u64, body: Seq<u8>) -> SubMsgView {
    SubMsgView {
        id: MSG_REPLY_ID_NEW_TOKEN_POOL,
        msg: CosmosMsgView::Wasm(
            WasmMsgView::Instantiate {
                admin: None,
                code_id,
                msg: body,
                funds: Seq::empty(),
                label: Seq::empty(),
            },
        ),
        gas_limit: None,
        reply_on: ReplyOn::Success,
    }
}

/// What a request to create the pool of `asset` does to the state `s` and
/// hands back, given the outcome `body` of encoding the share token's
/// instantiate message.
///
/// The checks come in this order: the pool must be configured, `sender` must
/// be its owner, `asset` must not have a pool yet, and the message must have
/// been encoded. Only then is `asset` marked as awaiting confirmation, in
/// place of any earlier marker.
pub open spec fn new_pool_token_with(
    s: StorageView,
    sender: Seq<char>,
    asset: AssetInfoView,
    body: Option<Seq<u8>>,
) -> (StorageView, Result<SubMsgView, ErrorView>) {
    match s.state {
        None => (s, Err(ErrorView::ConfigurationError)),
        Some(state) => if state.owner != sender {
            (s, Err(ErrorView::Unauthorized))
        } else if s.lps_asset_info.contains_key(asset) {
            (s, Err(ErrorView::AlreadyExsit(s.lps_asset_info[asset])))
        } else {
            match body {
                None => (s, Err(ErrorView::Std)),
                Some(body) => (
                    StorageView { tmp_new_token_pool: Some(asset), ..s },
                    Ok(pool_token_request(state.token_code_id, body)),
                ),
            }
        },
    }
}

/// What a request to create the pool of `asset` does to the state `s` and
/// hands back.
pub open spec fn new_pool_token_spec(
    s: StorageView,
    pool_address: Seq<char>,
    sender: Seq<char>,
    asset: AssetInfoView,
    symbol: Seq<char>,
) -> (StorageView, Result<SubMsgView, ErrorView>) {
    new_pool_token_with(
        s,
        sender,
        asset,
        token_instantiate_json(pool_token_init(pool_address, symbol)),
    )
}

/// Decides a request to create the pool of `asset_info`, given the outcome of
/// encoding the share token's instantiate message.
pub fn new_pool_token_encoded(
    store: &mut PoolStorage,
    sender: String,
    asset_info: AssetInfo,
    encoded: Result<Vec<u8>, StdError>,
) -> (r: Result<SubMsg, ContractError>)
    ensures
        final(store)@.wf(),
        final(store)@ == new_pool_token_with(
            old(store)@,
            sender@,
            asset_info@,
            encoded_view(encoded),
        ).0,
        match r {
            Ok(request) => Ok::<SubMsgView, ErrorView>(request@) == new_pool_token_with(
                old(store)@,
                sender@,
                asset_info@,
                encoded_view(encoded),
            ).1,
            Err(e) => Err::<SubMsgView, ErrorView>(e@) == new_pool_token_with(
                old(store)@,
                sender@,
                asset_info@,
                encoded_view(encoded),
            ).1 && *final(store) == *old(store) && (e@ == ErrorView::Std ==> (encoded matches Err(
                error,
            ) && e == ContractError::Std(error))),
        },
{
    let token_code_id = match store.state() {
        None => {
            return Err(ContractError::ConfigurationError);
        },
        Some(state) => {
            if state.owner != sender {
                return Err(ContractError::Unauthorized {  });
            }
            state.token_code_id
        },
    };
    match load_lp_addr(store, asset_info.clone()) {
        Ok(lp_address) => return Err(ContractError::AlreadyExsit(lp_address)),
        Err(_) => {},
    }
    let msg = match encoded {
        Ok(msg) => msg,
        Err(error) => return Err(ContractError::Std(error)),
    };
    store.set_tmp_new_token_pool(asset_info);
    let funds: Vec<Coin> = Vec::new();
    assert(views(funds@) =~= Seq::empty());
    Ok(
        SubMsg::reply_on_success(
            CosmosMsg::Wasm(
                WasmMsg::Instantiate {
                    admin: None,
                    code_id: token_code_id,
                    msg,
                    funds,
                    label: String::new(),
                },
            ),
            MSG_REPLY_ID_NEW_TOKEN_POOL,
        ),
    )
}

/// Requests the creation of the pool of `asset_info`: checks that `sender`
/// owns the pool and that the asset has no pool yet, marks the asset as
/// awaiting confirmation, and hands back the request to instantiate its share
/// token, whose minter is `pool_address`.
pub fn new_pool_token(
    store: &mut PoolStorage,
    pool_address: String,
    sender: String,
    asset_info: AssetInfo,
    symbol: String,
) -> (r: Result<SubMsg, ContractError>)
    ensures
        final(store)@.wf(),
        old(store)@.state matches Some(state) && state.owner != sender@ ==> *final(store) == *old(
            store,
        ) && (r matches Err(e) && e@ == ErrorView::Unauthorized),
        final(store)@ == new_pool_token_spec(
            old(store)@,
            pool_address@,
            sender@,
            asset_info@,
            symbol@,
        ).0,
        match r {
            Ok(request) => Ok::<SubMsgView, ErrorView>(request@) == new_pool_token_spec(
                old(store)@,
                pool_address@,
                sender@,
                asset_info@,
                symbol@,
            ).1,
            Err(e) => Err::<SubMsgView, ErrorView>(e@) == new_pool_token_spec(
                old(store)@,
                pool_address@,
                sender@,
                asset_info@,
                symbol@,
            ).1 && *final(store) == *old(store),
        },
{
    let msg = pool_token_instantiate_msg(pool_address, symbol);
    let encoded = encode_token_instantiate(&msg);
    new_pool_token_encoded(store, sender, asset_info, encoded)
}

/// What the confirmation that the share token `lp_address` exists does to the
/// state `s` and hands back.
///
/// The asset awaiting confirmation is bound to `lp_address` and the marker is
/// cleared, both or neither: with no marker, or with the share token or the
/// asset already bound, the state stays as it is.
pub open spec fn reply_new_pool_token_spec(s: StorageView, lp_address: Seq<char>) -> (
    StorageView,
    Result<AttributeView, ErrorView>,
) {
    match s.tmp_new_token_pool {
        None => (s, Err(ErrorView::ConfigurationError)),
        Some(asset) => if s.lps_lp_addr.contains_key(lp_address) {
            (s, Err(ErrorView::AlreadyExsit("lp_token"@)))
        } else if s.lps_asset_info.contains_key(asset) {
            (s, Err(ErrorView::AlreadyExsit("asset_info"@)))
        } else {
            (
                StorageView { tmp_new_token_pool: None, ..s.bind(asset, lp_address) },
                Ok(AttributeView { key: "lp_token"@, value: lp_address }),
            )
        },
    }
}

/// Confirms the creation that is pending: binds the freshly instantiated
/// share token `lp_address` to the asset that was marked, and clears the
/// marker.
pub fn reply_new_pool_token(store: &mut PoolStorage, lp_address: String) -> (r: Result<
    Attribute,
    ContractError,
>)
    ensures
        final(store)@.wf(),
        final(store)@ == reply_new_pool_token_spec(old(store)@, lp_address@).0,
        match r {
            Ok(attribute) => Ok::<AttributeView, ErrorView>(attribute@)
                == reply_new_pool_token_spec(old(store)@, lp_address@).1,
            Err(e) => Err::<AttributeView, ErrorView>(e@) == reply_new_pool_token_spec(
                old(store)@,
                lp_address@,
            ).1 && *final(store) == *old(store),
        },
{
    let asset_info = match store.tmp_new_token_pool() {
        None => return Err(ContractError::ConfigurationError),
        Some(asset_info) => asset_info.clone(),
    };
    match store_lp(store, asset_info, lp_address.clone()) {
        Ok(()) => {},
        Err(e) => return Err(e),
    }
    store.clear_tmp_new_token_pool();
    Ok(attr("lp_token".to_owned(), lp_address))
}

/// The request to mint share tokens for a deposit of `amount` of `asset` by
/// `sender`, in a pool that holds `total_asset` after the deposit and has
/// `total_lp` shares outstanding: which share token to call, and with what.
pub open spec fn mint_call_spec(
    s: StorageView,
    sender: Seq<char>,
    asset: AssetInfoView,
    amount: u128,
    total_asset: u128,
    total_lp: u128,
) -> Result<(Seq<char>, Cw20ExecuteMsgView), ErrorView> {
    if !s.lps_asset_info.contains_key(asset) {
        Err(ErrorView::NotFound)
    } else {
        match mint_amount(total_asset as nat, amount as nat, total_lp as nat) {
            None => Err(ErrorView::ComputationError),
            Some(minted) => Ok(
                (
                    s.lps_asset_info[asset],
                    Cw20ExecuteMsgView::Mint { recipient: sender, amount: minted as u128 },
                ),
            ),
        }
    }
}

/// Works out the mint call for a deposit that has reached the pool.
pub fn mint_call(
    store: &PoolStorage,
    sender: String,
    asset: Asset,
    total_asset: u128,
    total_lp: u128,
) -> (r: Result<(String, Cw20ExecuteMsg), ContractError>)
    ensures
        match r {
            Ok(call) => Ok::<(Seq<char>, Cw20ExecuteMsgView), ErrorView>((call.0@, call.1@))
                == mint_call_spec(
                store@,
                sender@,
                asset.info@,
                asset.amount,
                total_asset,
                total_lp,
            ),
            Err(e) => Err::<(Seq<char>, Cw20ExecuteMsgView), ErrorView>(e@) == mint_call_spec(
                store@,
                sender@,
                asset.info@,
                asset.amount,
                total_asset,
                total_lp,
            ),
        },
{
    let lp_token = match load_lp_addr(store, asset.info) {
        Ok(lp_token) => lp_token,
        Err(e) => return Err(e),
    };
    let amount = match compute_mint(total_asset, asset.amount, total_lp) {
        Ok(amount) => amount,
        Err(e) => return Err(e),
    };
    Ok((lp_token, Cw20ExecuteMsg::Mint { recipient: sender, amount }))
}

/// What a deposit hands back: the call that mints the depositor's shares.
pub open spec fn mint_pool_token_spec(
    s: StorageView,
    sender: Seq<char>,
    asset: AssetInfoView,
    amount: u128,
    total_asset: u128,
    total_lp: u128,
) -> Result<CosmosMsgView, ErrorView> {
    match mint_call_spec(s, sender, asset, amount, total_asset, total_lp) {
        Err(e) => Err(e),
        Ok(call) => match cw20_execute_json(call.1) {
            None => Err(ErrorView::Std),
            Some(body) => Ok(execute_msg(call.0, body)),
        },
    }
}

/// Mints share tokens to `sender` for the deposit `asset`, which has already
/// reached the pool. `total_asset` is the pool's balance of the asset after
/// the deposit and `total_lp` the share supply before the mint, both as the
/// chain reports them.
pub fn mint_pool_token(
    store: &PoolStorage,
    sender: String,
    asset: Asset,
    total_asset: u128,
    total_lp: u128,
) -> (r: Result<CosmosMsg, ContractError>)
    ensures
        match r {
            Ok(msg) => Ok::<CosmosMsgView, ErrorView>(msg@) == mint_pool_token_spec(
                store@,
                sender@,
                asset.info@,
                asset.amount,
                total_asset,
                total_lp,
            ),
            Err(e) => Err::<CosmosMsgView, ErrorView>(e@) == mint_pool_token_spec(
                store@,
                sender@,
                asset.info@,
                asset.amount,
                total_asset,
                total_lp,
            ),
        },
{
    let call = match mint_call(store, sender, asset, total_asset, total_lp) {
        Ok(call) => call,
        Err(e) => return Err(e),
    };
    let encoded = encode_cw20_execute(&call.1);
    wasm_execute(call.0, encoded)
}

/// The request that pays `amount` of `asset` out of the pool to `recipient`,
/// given the outcome `body` of encoding the transfer: a transfer call on the
/// token's contract, or a bank send of the native denom.
pub open spec fn payout_msg_with(
    asset: AssetInfoView,
    recipient: Seq<char>,
    amount: u128,
    body: Option<Seq<u8>>,
) -> Result<CosmosMsgView, ErrorView> {
    match asset {
        AssetInfoView::Token { contract_addr } => match body {
            None => Err(ErrorView::Std),
            Some(body) => Ok(execute_msg(contract_addr, body)),
        },
        AssetInfoView::NativeToken { denom } => Ok(
            CosmosMsgView::Bank(
                BankMsgView::Send { to_address: recipient, amount: seq![CoinView { denom, amount }] },
            ),
        ),
    }
}

/// Builds the request that pays `amount` of `asset_info` out of the pool to
/// `recipient`, given the outcome of encoding the transfer.
pub fn payout_msg_encoded(
    asset_info: AssetInfo,
    recipient: String,
    amount: u128,
    encoded: Result<Vec<u8>, StdError>,
) -> (r: Result<CosmosMsg, ContractError>)
    ensures
        match r {
            Ok(msg) => Ok::<CosmosMsgView, ErrorView>(msg@) == payout_msg_with(
                asset_info@,
                recipient@,
                amount,
                encoded_view(encoded),
            ),
            Err(e) => Err::<CosmosMsgView, ErrorView>(e@) == payout_msg_with(
                asset_info@,
                recipient@,
                amount,
                encoded_view(encoded),
            ) && (encoded matches Err(error) && e == ContractError::Std(error)),
        },
{
    match asset_info {
        AssetInfo::Token { contract_addr } => wasm_execute(contract_addr, encoded),
        AssetInfo::NativeToken { denom } => {
            let coins = vec![Coin { denom, amount }];
            assert(views(coins@) =~= seq![CoinView { denom: denom@, amount }]);
            Ok(CosmosMsg::Bank(BankMsg::Send { to_address: recipient, amount: coins }))
        },
    }
}

/// The requests of a redemption that pays `payout` of `asset` to `sender` and
/// burns `amount` shares of `lp_token`, given the outcomes of encoding the
/// transfer and the burn: first the request that pays the withdrawer, then
/// the call that burns the redeemed shares.
pub open spec fn burn_msgs_with(
    asset: AssetInfoView,
    sender: Seq<char>,
    payout: u128,
    lp_token: Seq<char>,
    transfer: Option<Seq<u8>>,
    burn: Option<Seq<u8>>,
) -> Result<Seq<CosmosMsgView>, ErrorView> {
    match payout_msg_with(asset, sender, payout, transfer) {
        Err(e) => Err(e),
        Ok(send) => match burn {
            None => Err(ErrorView::Std),
            Some(body) => Ok(seq![send, execute_msg(lp_token, body)]),
        },
    }
}

/// Puts the two requests of a redemption together, given the outcomes of
/// encoding the transfer and the burn. The transfer's encoding is looked at
/// only where the asset is a token.
pub fn burn_msgs_encoded(
    asset_info: AssetInfo,
    sender: String,
    payout: u128,
    lp_token: String,
    transfer: Result<Vec<u8>, StdError>,
    burn: Result<Vec<u8>, StdError>,
) -> (r: Result<Vec<CosmosMsg>, ContractError>)
    ensures
        match r {
            Ok(msgs) => Ok::<Seq<CosmosMsgView>, ErrorView>(views(msgs@)) == burn_msgs_with(
                asset_info@,
                sender@,
                payout,
                lp_token@,
                encoded_view(transfer),
                encoded_view(burn),
            ),
            Err(e) => Err::<Seq<CosmosMsgView>, ErrorView>(e@) == burn_msgs_with(
                asset_info@,
                sender@,
                payout,
                lp_token@,
                encoded_view(transfer),
                encoded_view(burn),
            ) && ((transfer matches Err(error) && e == ContractError::Std(error)) || (
            burn matches Err(error) && e == ContractError::Std(error))),
        },
{
    let send_msg = match payout_msg_encoded(asset_info, sender, payout, transfer) {
        Ok(send_msg) => send_msg,
        Err(e) => return Err(e),
    };
    let burn_msg = match wasm_execute(lp_token, burn) {
        Ok(burn_msg) => burn_msg,
        Err(e) => return Err(e),
    };
    let msgs = vec![send_msg, burn_msg];
    assert(views(msgs@) =~= seq![send_msg@, burn_msg@]);
    Ok(msgs)
}

/// What a redemption hands back: the request that pays the withdrawer, then
/// the call that burns the redeemed shares.
pub open spec fn burn_pool_token_spec(
    s: StorageView,
    sender: Seq<char>,
    lp_token: Seq<char>,
    amount: u128,
    total_asset: u128,
    total_lp: u128,
) -> Result<Seq<CosmosMsgView>, ErrorView> {
    if !s.lps_lp_addr.contains_key(lp_token) {
        Err(ErrorView::NotFound)
    } else {
        match burn_payout(total_asset as nat, total_lp as nat, amount as nat) {
            None => Err(ErrorView::ComputationError),
            Some(payout) => burn_msgs_with(
                s.lps_lp_addr[lp_token],
                sender,
                payout as u128,
                lp_token,
                cw20_execute_json(
                    Cw20ExecuteMsgView::Transfer { recipient: sender, amount: payout as u128 },
                ),
                cw20_execute_json(Cw20ExecuteMsgView::Burn { amount }),
            ),
        }
    }
}

/// Redeems `amount` shares of the share token `lp_token` for `sender`.
/// `total_asset` is the pool's balance of the base asset and `total_lp` the
/// share supply, both as the chain reports them. The two requests handed back
/// belong to one unit of work: if either fails, neither takes effect.
pub fn burn_pool_token(
    store: &PoolStorage,
    sender: String,
    lp_token: String,
    amount: u128,
    total_asset: u128,
    total_lp: u128,
) -> (r: Result<Vec<CosmosMsg>, ContractError>)
    ensures
        match r {
            Ok(msgs) => Ok::<Seq<CosmosMsgView>, ErrorView>(views(msgs@)) == burn_pool_token_spec(
                store@,
                sender@,
                lp_token@,
                amount,
                total_asset,
                total_lp,
            ),
            Err(e) => Err::<Seq<CosmosMsgView>, ErrorView>(e@) == burn_pool_token_spec(
                store@,
                sender@,
                lp_token@,
                amount,
                total_asset,
                total_lp,
            ),
        },
{
    let asset_info = match load_asset_info(store, lp_token.clone()) {
        Ok(asset_info) => asset_info,
        Err(e) => return Err(e),
    };
    let unbond_amount = match compute_burn_payout(total_asset, total_lp, amount) {
        Ok(unbond_amount) => unbond_amount,
        Err(e) => return Err(e),
    };
    let transfer = Cw20ExecuteMsg::Transfer { recipient: sender.clone(), amount: unbond_amount };
    let burn = Cw20ExecuteMsg::Burn { amount };
    burn_msgs_encoded(
        asset_info,
        sender,
        unbond_amount,
        lp_token,
        encode_cw20_execute(&transfer),
        encode_cw20_execute(&burn),
    )
}

} // verus!

use crate::asset::AssetInfoView;
use crate::contract::execute_spec;
use crate::contract::reply_spec;
use crate::error::ErrorView;
use crate::msg::MSG_REPLY_ID_NEW_TOKEN_POOL;
use crate::response::parse_response;
use crate::results::ResponseView;
use crate::share::burn_payout;
use crate::share::mint_amount;
use crate::state::StorageView;
use vstd::prelude::*;

verus! {

/// Binding a pair whose asset and share token are both unbound keeps the
/// registry a bijection.
pub proof fn lemma_bind_keeps_bijection(s: StorageView, asset: AssetInfoView, lp: Seq<char>)
    requires
        s.wf(),
        !s.lps_asset_info.contains_key(asset),
        !s.lps_lp_addr.contains_key(lp),
    ensures
        s.bind(asset, lp).wf(),
{
    let after = s.bind(asset, lp);
    assert forall|a: AssetInfoView| #[trigger]
        after.lps_asset_info.contains_key(a) implies after.lps_lp_addr.contains_key(
        after.lps_asset_info[a],
    ) && after.lps_lp_addr[after.lps_asset_info[a]] == a by {
        if a != asset {
            assert(s.lps_asset_info.contains_key(a));
        }
    }
    assert forall|l: Seq<char>| #[trigger]
        after.lps_lp_addr.contains_key(l) implies after.lps_asset_info.contains_key(
        after.lps_lp_addr[l],
    ) && after.lps_asset_info[after.lps_lp_addr[l]] == l by {
        if l != lp {
            assert(s.lps_lp_addr.contains_key(l));
        }
    }
}

/// Requests and confirmations keep the registry a bijection, whatever they
/// are given and whether they succeed or not.
pub proof fn lemma_steps_keep_bijection(
    s: StorageView,
    contract_address: Seq<char>,
    sender: Seq<char>,
    asset: AssetInfoView,
    symbol: Seq<char>,
    id: u64,
    data: Option<Seq<u8>>,
)
    requires
        s.wf(),
    ensures
        execute_spec(s, contract_address, sender, asset, symbol).0.wf(),
        reply_spec(s, id, data).0.wf(),
{
    if id == MSG_REPLY_ID_NEW_TOKEN_POOL && data is Some && parse_response(data->0) is Some
        && s.tmp_new_token_pool is Some {
        let lp = parse_response(data->0)->0.contract_address;
        let pending = s.tmp_new_token_pool->0;
        if !s.lps_lp_addr.contains_key(lp) && !s.lps_asset_info.contains_key(pending) {
            lemma_bind_keeps_bijection(s, pending, lp);
        }
    }
}

/// The registry only grows: whatever a request or a confirmation is given, a
/// pair that was bound stays bound as it was. Neither of them touches the
/// configuration.
pub proof fn lemma_steps_keep_what_is_bound(
    s: StorageView,
    contract_address: Seq<char>,
    sender: Seq<char>,
    asset: AssetInfoView,
    symbol: Seq<char>,
    id: u64,
    data: Option<Seq<u8>>,
    bound: AssetInfoView,
)
    requires
        s.wf(),
        s.lps_asset_info.contains_key(bound),
    ensures
        ({
            let requested = execute_spec(s, contract_address, sender, asset, symbol).0;
            let confirmed = reply_spec(s, id, data).0;
            let lp = s.lps_asset_info[bound];
            &&& requested.lps_asset_info == s.lps_asset_info
            &&& requested.lps_lp_addr == s.lps_lp_addr
            &&& requested.state == s.state
            &&& confirmed.lps_asset_info.contains_key(bound)
            &&& confirmed.lps_asset_info[bound] == lp
            &&& confirmed.lps_lp_addr.contains_key(lp)
            &&& confirmed.lps_lp_addr[lp] == bound
            &&& confirmed.state == s.state
        }),
{
}

/// Once the creation of a pool has been requested and its confirmation has
/// landed, the registry gives the confirmed share token for the asset and the
/// asset for the share token, and the marker is gone.
pub proof fn lemma_confirmed_pool_is_registered(
    s: StorageView,
    contract_address: Seq<char>,
    sender: Seq<char>,
    asset: AssetInfoView,
    symbol: Seq<char>,
    data: Seq<u8>,
)
    requires
        execute_spec(s, contract_address, sender, asset, symbol).1 is Ok,
        reply_spec(
            execute_spec(s, contract_address, sender, asset, symbol).0,
            MSG_REPLY_ID_NEW_TOKEN_POOL,
            Some(data),
        ).1 is Ok,
    ensures
        parse_response(data) is Some,
        ({
            let requested = execute_spec(s, contract_address, sender, asset, symbol).0;
            let confirmed = reply_spec(requested, MSG_REPLY_ID_NEW_TOKEN_POOL, Some(data)).0;
            let lp = parse_response(data)->0.contract_address;
            &&& confirmed.lps_asset_info.contains_key(asset)
            &&& confirmed.lps_asset_info[asset] == lp
            &&& confirmed.lps_lp_addr.contains_key(lp)
            &&& confirmed.lps_lp_addr[lp] == asset
            &&& confirmed.tmp_new_token_pool is None
            &&& confirmed.state == s.state
        }),
{
}

/// Once the creation of a pool has been requested and its confirmation has
/// landed, the same caller's next request for the same asset is refused as
/// already existing, under any symbol, and changes nothing.
pub proof fn lemma_second_create_already_exists(
    s: StorageView,
    contract_address: Seq<char>,
    sender: Seq<char>,
    asset: AssetInfoView,
    symbol: Seq<char>,
    data: Seq<u8>,
    again: Seq<char>,
)
    requires
        execute_spec(s, contract_address, sender, asset, symbol).1 is Ok,
        reply_spec(
            execute_spec(s, contract_address, sender, asset, symbol).0,
            MSG_REPLY_ID_NEW_TOKEN_POOL,
            Some(data),
        ).1 is Ok,
    ensures
        parse_response(data) is Some,
        ({
            let requested = execute_spec(s, contract_address, sender, asset, symbol).0;
            let confirmed = reply_spec(requested, MSG_REPLY_ID_NEW_TOKEN_POOL, Some(data)).0;
            let lp = parse_response(data)->0.contract_address;
            execute_spec(confirmed, contract_address, sender, asset, again) == (
                confirmed,
                Err::<ResponseView, ErrorView>(ErrorView::AlreadyExsit(lp)),
            )
        }),
{
    lemma_confirmed_pool_is_registered(s, contract_address, sender, asset, symbol, data);
}

/// The first deposit into a pool is minted one share per unit.
pub proof fn lemma_first_deposit_mints_one_to_one(deposited: nat)
    ensures
        mint_amount(deposited, deposited, 0) == Some(deposited),
{
}

/// A deposit into a pool with shares outstanding mints the prior balance
/// divided by the whole number of units that one share was worth, whatever
/// the size of the deposit, as long as one share was worth at least one unit.
pub proof fn lemma_later_deposit_mints_by_rate(prior: nat, supply: nat, deposit: nat)
    requires
        supply > 0,
        prior / supply > 0,
    ensures
        mint_amount(prior + deposit, deposit, supply) == Some(prior / (prior / supply)),
{
}

/// The payout of a burn is linear in the burned amount: burning `k` times as
/// many shares pays out `k` times as much.
pub proof fn lemma_burn_payout_is_linear(total: nat, supply: nat, burned: nat, k: nat)
    requires
        burn_payout(total, supply, k * burned) is Some,
        k > 0,
    ensures
        burn_payout(total, supply, burned) is Some,
        burn_payout(total, supply, k * burned)->0 == k * burn_payout(total, supply, burned)->0,
{
    let rate = total / supply;
    assert(k * burned * rate == k * (burned * rate)) by (nonlinear_arith);
    assert(burned * rate <= k * (burned * rate)) by (nonlinear_arith)
        requires
            k > 0,
    ;
}

} // verus!

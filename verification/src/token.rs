use crate::results::views;
use cosmwasm_std::StdError;
use vstd::prelude::*;

verus! {

/// An initial holder of a share token and what it starts with.
#[derive(Debug, PartialEq, Eq)]
pub struct Cw20Coin {
    pub address: String,
    pub amount: u128,
}

/// A `Cw20Coin` with its address as a character sequence.
pub struct Cw20CoinView {
    pub address: Seq<char>,
    pub amount: u128,
}

impl View for Cw20Coin {
    type V = Cw20CoinView;

    open spec fn view(&self) -> Cw20CoinView {
        Cw20CoinView { address: self.address@, amount: self.amount }
    }
}

/// Who may mint a share token, and up to which total supply.
#[derive(Debug, PartialEq, Eq)]
pub struct MinterResponse {
    pub minter: String,
    pub cap: Option<u128>,
}

/// A `MinterResponse` with its minter as a character sequence.
pub struct MinterResponseView {
    pub minter: Seq<char>,
    pub cap: Option<u128>,
}

impl View for MinterResponse {
    type V = MinterResponseView;

    open spec fn view(&self) -> MinterResponseView {
        MinterResponseView { minter: self.minter@, cap: self.cap }
    }
}

/// The message that sets up a new share token.
#[derive(Debug, PartialEq, Eq)]
pub struct TokenInstantiateMsg {
    pub name: String,
    pub symbol: String,
    pub decimals: u8,
    pub initial_balances: Vec<Cw20Coin>,
    pub mint: Option<MinterResponse>,
}

/// A `TokenInstantiateMsg` with its texts as character sequences and its
/// parts by their views.
pub struct TokenInstantiateMsgView {
    pub name: Seq<char>,
    pub symbol: Seq<char>,
    pub decimals: u8,
    pub initial_balances: Seq<Cw20CoinView>,
    pub mint: Option<MinterResponseView>,
}

impl View for TokenInstantiateMsg {
    type V = TokenInstantiateMsgView;

    open spec fn view(&self) -> TokenInstantiateMsgView {
        TokenInstantiateMsgView {
            name: self.name@,
            symbol: self.symbol@,
            decimals: self.decimals,
            initial_balances: views(self.initial_balances@),
            mint: match self.mint {
                Some(mint) => Some(mint@),
                None => None,
            },
        }
    }
}

/// The calls that the pool makes on a share token or on a token it holds.
#[derive(Debug, PartialEq, Eq)]
pub enum Cw20ExecuteMsg {
    /// Move `amount` from the caller to `recipient`.
    Transfer { recipient: String, amount: u128 },
    /// Destroy `amount` of the caller's balance.
    Burn { amount: u128 },
    /// Create `amount` for `recipient`; only the minter may.
    Mint { recipient: String, amount: u128 },
}

/// A `Cw20ExecuteMsg` with its recipient as a character sequence.
pub enum Cw20ExecuteMsgView {
    Transfer { recipient: Seq<char>, amount: u128 },
    Burn { amount: u128 },
    Mint { recipient: Seq<char>, amount: u128 },
}

impl View for Cw20ExecuteMsg {
    type V = Cw20ExecuteMsgView;

    open spec fn view(&self) -> Cw20ExecuteMsgView {
        match self {
            Cw20ExecuteMsg::Transfer { recipient, amount } => Cw20ExecuteMsgView::Transfer {
                recipient: recipient@,
                amount: *amount,
            },
            Cw20ExecuteMsg::Burn { amount } => Cw20ExecuteMsgView::Burn { amount: *amount },
            Cw20ExecuteMsg::Mint { recipient, amount } => Cw20ExecuteMsgView::Mint {
                recipient: recipient@,
                amount: *amount,
            },
        }
    }
}

/// What `cosmwasm_std::to_binary` makes of the `terraswap::token::InstantiateMsg`
/// with these fields: its JSON text as bytes, or `None` where the encoder
/// reports an error.
pub uninterp spec fn token_instantiate_json(msg: TokenInstantiateMsgView) -> Option<Seq<u8>>;

/// What `cosmwasm_std::to_binary` makes of the `cw20::Cw20ExecuteMsg` with this
/// variant and these fields: its JSON text as bytes, or `None` where the
/// encoder reports an error.
pub uninterp spec fn cw20_execute_json(msg: Cw20ExecuteMsgView) -> Option<Seq<u8>>;

/// Calls `cosmwasm_std::to_binary` on the `terraswap::token::InstantiateMsg`
/// that has the fields of `msg`. Trusted: the encoder is a function of the
/// message alone, so its outcome is `token_instantiate_json` of the message.
#[verifier::external_body]
pub(crate) fn encode_token_instantiate(msg: &TokenInstantiateMsg) -> (r: Result<Vec<u8>, StdError>)
    ensures
        match r {
            Ok(bytes) => token_instantiate_json(msg@) == Some(bytes@),
            Err(_) => token_instantiate_json(msg@) is None,
        },
{
    let outside = terraswap::token::InstantiateMsg {
        name: msg.name.clone(),
        symbol: msg.symbol.clone(),
        decimals: msg.decimals,
        initial_balances: msg.initial_balances.iter().map(|c| cw20::Cw20Coin {
            address: c.address.clone(),
            amount: cosmwasm_std::Uint128::new(c.amount),
        }).collect(),
        mint: msg.mint.as_ref().map(|m| cw20::MinterResponse {
            minter: m.minter.clone(),
            cap: m.cap.map(cosmwasm_std::Uint128::new),
        }),
    };
    cosmwasm_std::to_binary(&outside).map(|b| b.0)
}

/// Calls `cosmwasm_std::to_binary` on the `cw20::Cw20ExecuteMsg` that has the
/// variant and fields of `msg`. Trusted: the encoder is a function of the
/// message alone, so its outcome is `cw20_execute_json` of the message.
#[verifier::external_body]
pub(crate) fn encode_cw20_execute(msg: &Cw20ExecuteMsg) -> (r: Result<Vec<u8>, StdError>)
    ensures
        match r {
            Ok(bytes) => cw20_execute_json(msg@) == Some(bytes@),
            Err(_) => cw20_execute_json(msg@) is None,
        },
{
    let outside = match msg {
        Cw20ExecuteMsg::Transfer { recipient, amount } => cw20::Cw20ExecuteMsg::Transfer {
            recipient: recipient.clone(),
            amount: cosmwasm_std::Uint128::new(*amount),
        },
        Cw20ExecuteMsg::Burn { amount } => cw20::Cw20ExecuteMsg::Burn {
            amount: cosmwasm_std::Uint128::new(*amount),
        },
        Cw20ExecuteMsg::Mint { recipient, amount } => cw20::Cw20ExecuteMsg::Mint {
            recipient: recipient.clone(),
            amount: cosmwasm_std::Uint128::new(*amount),
        },
    };
    cosmwasm_std::to_binary(&outside).map(|b| b.0)
}

} // verus!

use crate::asset::AssetInfo;
use vstd::prelude::*;

verus! {

/// The tag under which the creation of a share token is confirmed.
pub const MSG_REPLY_ID_NEW_TOKEN_POOL: u64 = 1;

/// Sets the pool up: the caller becomes the owner.
#[derive(Debug, PartialEq, Eq, Clone, Copy)]
pub struct InstantiateMsg {
    pub token_code_id: u64,
}

/// What a caller may ask the pool to do.
#[derive(Debug, PartialEq, Eq)]
pub enum ExecuteMsg {
    CreatePool { asset_info: AssetInfo, symbol: String },
}

/// What a caller may ask the pool about.
#[derive(Debug, PartialEq, Eq)]
pub enum QueryMsg {
    GetConfig {  },
    GetLpInfo { asset_info: AssetInfo },
}

/// The answer to `QueryMsg::GetConfig`.
#[derive(Debug, PartialEq, Eq)]
pub struct ConfigResponse {
    pub token_code_id: u64,
    pub owner: String,
}

/// A `ConfigResponse` with its owner as a character sequence.
pub struct ConfigResponseView {
    pub token_code_id: u64,
    pub owner: Seq<char>,
}

impl View for ConfigResponse {
    type V = ConfigResponseView;

    open spec fn view(&self) -> ConfigResponseView {
        ConfigResponseView { token_code_id: self.token_code_id, owner: self.owner@ }
    }
}

/// The answer to `QueryMsg::GetLpInfo`.
#[derive(Debug, PartialEq, Eq)]
pub struct LpInfoResponse {
    pub lp_address: String,
}

/// An `LpInfoResponse` with its address as a character sequence.
pub struct LpInfoResponseView {
    pub lp_address: Seq<char>,
}

impl View for LpInfoResponse {
    type V = LpInfoResponseView;

    open spec fn view(&self) -> LpInfoResponseView {
        LpInfoResponseView { lp_address: self.lp_address@ }
    }
}

/// The answer to a query, before it is put on the wire.
#[derive(Debug, PartialEq, Eq)]
pub enum QueryResponse {
    Config(ConfigResponse),
    LpInfo(LpInfoResponse),
}

/// A `QueryResponse` by the view of the answer it holds.
pub enum QueryResponseView {
    Config(ConfigResponseView),
    LpInfo(LpInfoResponseView),
}

impl View for QueryResponse {
    type V = QueryResponseView;

    open spec fn view(&self) -> QueryResponseView {
        match self {
            QueryResponse::Config(response) => QueryResponseView::Config(response@),
            QueryResponse::LpInfo(response) => QueryResponseView::LpInfo(response@),
        }
    }
}

/// The outcome of a request, reported back under the tag it was sent with.
/// `data` is what the request's handler returned, if it returned anything.
#[derive(Debug, PartialEq, Eq)]
pub struct Reply {
    pub id: u64,
    pub data: Option<Vec<u8>>,
}

} // verus!

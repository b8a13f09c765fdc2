use vstd::prelude::*;

verus! {

/// The identity of a pool's base asset: a token contract or a native denom.
#[derive(Debug, PartialEq, Eq)]
pub enum AssetInfo {
    Token { contract_addr: String },
    NativeToken { denom: String },
}

/// An `AssetInfo` with its texts as character sequences. Two assets are the
/// same asset exactly when their views are equal.
pub enum AssetInfoView {
    Token { contract_addr: Seq<char> },
    NativeToken { denom: Seq<char> },
}

impl View for AssetInfo {
    type V = AssetInfoView;

    open spec fn view(&self) -> AssetInfoView {
        match self {
            AssetInfo::Token { contract_addr } => AssetInfoView::Token {
                contract_addr: contract_addr@,
            },
            AssetInfo::NativeToken { denom } => AssetInfoView::NativeToken { denom: denom@ },
        }
    }
}

impl Clone for AssetInfo {
    fn clone(&self) -> (r: Self)
        ensures
            r@ == self@,
    {
        match self {
            AssetInfo::Token { contract_addr } => AssetInfo::Token {
                contract_addr: contract_addr.clone(),
            },
            AssetInfo::NativeToken { denom } => AssetInfo::NativeToken { denom: denom.clone() },
        }
    }
}

impl AssetInfo {
    /// Whether the asset is a native denom.
    pub fn is_native_token(&self) -> (r: bool)
        ensures
            r == (self@ is NativeToken),
    {
        match self {
            AssetInfo::NativeToken { .. } => true,
            AssetInfo::Token { .. } => false,
        }
    }

    /// Whether two identities name the same asset.
    pub fn equal(&self, asset: &AssetInfo) -> (r: bool)
        ensures
            r == (self@ == asset@),
    {
        match self {
            AssetInfo::Token { contract_addr } => match asset {
                AssetInfo::Token { contract_addr: other } => *contract_addr == *other,
                AssetInfo::NativeToken { .. } => false,
            },
            AssetInfo::NativeToken { denom } => match asset {
                AssetInfo::Token { .. } => false,
                AssetInfo::NativeToken { denom: other } => *denom == *other,
            },
        }
    }
}

/// An amount of a base asset.
#[derive(Debug, PartialEq, Eq)]
pub struct Asset {
    pub info: AssetInfo,
    pub amount: u128,
}

} // verus!

use cosmwasm_std::StdError;
use vstd::prelude::*;

verus! {

/// `cosmwasm_std::StdError`, carried through without being looked into.
#[verifier::external_type_specification]
#[verifier::external_body]
pub struct ExStdError(cosmwasm_std::StdError);

/// Why an operation was refused. A refused operation leaves the durable
/// state exactly as it found it.
#[derive(Debug, PartialEq)]
pub enum ContractError {
    /// A message body could not be encoded; the encoder's own error.
    Std(StdError),
    /// The caller is not the configured owner.
    Unauthorized {},
    /// The registry already holds the asset or the share token. The text is
    /// the registered share token where a pool is requested twice, and the
    /// name of the colliding side where a pair is bound.
    AlreadyExsit(String),
    /// A confirmation arrived under a tag that no request was sent with.
    UnknownReplyId(u64),
    /// The confirmation's payload is not an instantiate response.
    ParseError,
    /// The registry has no entry under the key that was looked up.
    NotFound,
    /// Share accounting would divide by zero or leave the 128-bit range.
    ComputationError,
    /// The durable state lacks what the operation needs: the configuration,
    /// or the marker of the request that is being confirmed.
    ConfigurationError,
}

/// What a `ContractError` says, with texts as character sequences and the
/// encoder's error reduced to the fact that there was one.
pub enum ErrorView {
    Std,
    Unauthorized,
    AlreadyExsit(Seq<char>),
    UnknownReplyId(u64),
    ParseError,
    NotFound,
    ComputationError,
    ConfigurationError,
}

impl View for ContractError {
    type V = ErrorView;

    open spec fn view(&self) -> ErrorView {
        match self {
            ContractError::Std(_) => ErrorView::Std,
            ContractError::Unauthorized {  } => ErrorView::Unauthorized,
            ContractError::AlreadyExsit(text) => ErrorView::AlreadyExsit(text@),
            ContractError::UnknownReplyId(id) => ErrorView::UnknownReplyId(*id),
            ContractError::ParseError => ErrorView::ParseError,
            ContractError::NotFound => ErrorView::NotFound,
            ContractError::ComputationError => ErrorView::ComputationError,
            ContractError::ConfigurationError => ErrorView::ConfigurationError,
        }
    }
}

} // verus!

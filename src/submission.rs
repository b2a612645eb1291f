use vstd::prelude::*;

use crate::call::GuildCall;

verus! {

/// Why a guild operation failed.
#[derive(Clone, Debug, PartialEq, Eq)]
pub enum GuildError {
    /// The sender's address could not be read as an sr25519 public key.
    InvalidAddress,
    /// The DAO has no guild at the index asked for.
    GuildNotFound { index: u32, count: usize },
    /// The chain client failed to get the extrinsic included; the text is
    /// the client's description of the failure.
    SubmitFailed(String),
}

/// How a write reaches the chain.
#[derive(Clone, Debug, PartialEq, Eq)]
pub enum Route<G> {
    /// Through the DAO's sudo or governance path, with its context.
    Governance(G),
    /// As an extrinsic signed by the sender and watched until it succeeds.
    Signed,
}

/// The route of a write: governance when a governance context is given,
/// else direct signing.
pub open spec fn route_of<G>(ext: Option<G>) -> Route<G> {
    match ext {
        Some(g) => Route::Governance(g),
        None => Route::Signed,
    }
}

pub fn choose_route<G>(ext: Option<G>) -> (r: Route<G>)
    ensures
        r == route_of(ext),
{
    match ext {
        Some(g) => Route::Governance(g),
        None => Route::Signed,
    }
}

/// A write ready to be performed by the host: the call, who sends it, in
/// which DAO, through which connection and along which route.
#[derive(Clone, Debug, PartialEq, Eq)]
pub struct Submission<G> {
    pub client_index: usize,
    pub from: String,
    pub dao_id: u64,
    pub call: GuildCall,
    pub route: Route<G>,
}

/// What a write returns, given what the chain client reported: `Err` holds
/// the client's description of the failure.
pub open spec fn submission_result_spec(outcome: Result<(), String>) -> Result<(), GuildError> {
    match outcome {
        Ok(()) => Ok(()),
        Err(e) => Err(GuildError::SubmitFailed(e)),
    }
}

pub fn submission_result(outcome: Result<(), String>) -> (r: Result<(), GuildError>)
    ensures
        r == submission_result_spec(outcome),
{
    match outcome {
        Ok(()) => Ok(()),
        Err(e) => Err(GuildError::SubmitFailed(e)),
    }
}

} // verus!

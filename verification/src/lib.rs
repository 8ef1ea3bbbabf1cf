//! A bonding-curve token exchange: a factory registers trading pairs, each
//! pair prices its token from the circulating supply, settles buys and sells
//! against a custody vault, and runs a small lifecycle for paid requests.
//!
//! The library decides and computes; it never moves funds itself. Every
//! operation takes the state it works on, checks it, updates it, and hands
//! back the ordered list of fund movements that the caller has to carry out
//! as one atomic unit.

pub mod address;
pub mod curve;
pub mod effects;
pub mod error;
pub mod factory;
pub mod fees;
pub mod pair;
pub mod requests;
pub mod swap;

pub use address::Address;
pub use curve::{exact_sol_to_tokens, exact_tokens_to_sol, CurveModel};
pub use effects::{Authority, Effect};
pub use error::FactoryError;
pub use factory::{initialize_factory, Factory, InitializeFactory};
pub use fees::{claim_fees, fee_amount, ClaimFees};
pub use pair::{
    create_pair, CreatePair, CreatePairParams, Pair, PairCreated, PairCreation, Request,
    RequestConfig, RequestStatus,
};
pub use requests::{
    accept_and_settle_request, accept_request, reject_request, submit_request,
    AcceptAndSettleRequest, AcceptRequest, Acceptance, RejectRequest, RequestAccepted,
    RequestSubmitted, Submission, SubmitRequest,
};
pub use swap::{quote, swap, Settlement, Swap, SwapExecuted};

//! The life of a paid request: submitted against an offer of the catalog
//! and paid into escrow, then accepted, accepted and settled, or rejected
//! by the creator of the pair. A request leaves the pending state once.

use vstd::prelude::*;
use crate::address::Address;
use crate::effects::{Authority, Effect};
use crate::error::FactoryError;
use crate::pair::{
    byte_len, fits, request_wf, Pair, Request, RequestStatus, MAX_AD_TEXT_LEN,
    MAX_PENDING_REQUESTS,
};
use crate::swap::{pair_authority, quote, quote_of};

verus! {

/// What a submission works on: the pair, its address, the requester and the
/// requester's token account, the token account that holds escrowed
/// payments under the pair's authority, and the time.
#[derive(Clone, Debug, PartialEq, Eq)]
pub struct SubmitRequest {
    pub pair: Pair,
    pub pair_key: Address,
    pub user: Address,
    pub user_token_account: Address,
    pub escrow_token_account: Address,
    pub timestamp: i64,
}

/// The notice that a request was submitted.
#[derive(Clone, Debug, PartialEq, Eq)]
pub struct RequestSubmitted {
    pub pair_key: Address,
    pub user: Address,
    pub request_index: u8,
    pub ad_text: String,
    pub timestamp: i64,
}

/// What a submission hands back: the fund movements to carry out and the
/// notice to publish.
#[derive(Clone, Debug, PartialEq, Eq)]
pub struct Submission {
    pub effects: Vec<Effect>,
    pub event: RequestSubmitted,
}

/// What an acceptance works on: the pair, the caller, the escrow account
/// and the time.
#[derive(Clone, Debug, PartialEq, Eq)]
pub struct AcceptRequest {
    pub pair: Pair,
    pub creator: Address,
    pub escrow_token_account: Address,
    pub timestamp: i64,
}

/// The notice that a request was accepted.
#[derive(Clone, Copy, Debug, PartialEq, Eq)]
pub struct RequestAccepted {
    pub creator: Address,
    pub request_index: u8,
    pub user: Address,
    pub timestamp: i64,
}

/// What an acceptance hands back: the fund movements to carry out and the
/// notice to publish.
#[derive(Clone, Debug, PartialEq, Eq)]
pub struct Acceptance {
    pub effects: Vec<Effect>,
    pub event: RequestAccepted,
}

/// What an acceptance with settlement works on: the pair and its address,
/// the caller, the escrow account, the bump of the vault and what the vault
/// holds.
#[derive(Clone, Debug, PartialEq, Eq)]
pub struct AcceptAndSettleRequest {
    pub pair: Pair,
    pub pair_key: Address,
    pub creator: Address,
    pub escrow_token_account: Address,
    pub vault_bump: u8,
    pub vault_balance: u64,
}

/// What a rejection works on: the pair, the caller, the escrow account and
/// the token account that the payment goes back to.
#[derive(Clone, Debug, PartialEq, Eq)]
pub struct RejectRequest {
    pub pair: Pair,
    pub creator: Address,
    pub escrow_token_account: Address,
    pub user_token_account: Address,
}

/// Why a submission is refused, if it is: no such offer, a text that is
/// too long, or a full list of requests, in this order.
pub open spec fn submit_error(pair: Pair, request_index: u8, ad_text: Seq<char>) -> Option<
    FactoryError,
> {
    if request_index >= pair.requests@.len() {
        Some(FactoryError::InvalidRequestIndex)
    } else if byte_len(ad_text) > MAX_AD_TEXT_LEN {
        Some(FactoryError::AdTextTooLong)
    } else if pair.pending_requests@.len() >= MAX_PENDING_REQUESTS {
        Some(FactoryError::RequestCapacityExceeded)
    } else {
        None
    }
}

/// The price of the offer that a request was made against.
pub open spec fn price_of(pair: Pair, request: Request) -> u64 {
    pair.requests@[request.request_index as int].price
}

/// Submits a request against the offer at `request_index` of the catalog:
/// the price of the offer moves from the requester into escrow and a
/// pending request is appended to the pair. A refused submission leaves the
/// pair as it was and asks for no fund movement.
pub fn submit_request(ctx: &mut SubmitRequest, request_index: u8, ad_text: String) -> (r: Result<
    Submission,
    FactoryError,
>)
    requires
        old(ctx).pair.wf(),
    ensures
        match r {
            Ok(done) => {
                let pair = old(ctx).pair;
                let request = Request {
                    user: old(ctx).user,
                    request_index: request_index,
                    ad_text: ad_text,
                    timestamp: old(ctx).timestamp,
                    status: RequestStatus::Pending,
                };
                &&& submit_error(pair, request_index, ad_text@) is None
                &&& final(ctx).pair.pending_requests@ == pair.pending_requests@.push(request)
                &&& final(ctx).pair == (Pair {
                    pending_requests: final(ctx).pair.pending_requests,
                    ..pair
                })
                &&& *final(ctx) == (SubmitRequest { pair: final(ctx).pair, ..*old(ctx) })
                &&& final(ctx).pair.wf()
                &&& done.effects@ == seq![
                    Effect::Transfer {
                        amount: pair.requests@[request_index as int].price,
                        from: old(ctx).user_token_account,
                        to: old(ctx).escrow_token_account,
                        authority: Authority::Holder { account: old(ctx).user },
                    },
                ]
                &&& done.event == (RequestSubmitted {
                    pair_key: old(ctx).pair_key,
                    user: old(ctx).user,
                    request_index: request_index,
                    ad_text: ad_text,
                    timestamp: old(ctx).timestamp,
                })
            },
            Err(e) => {
                &&& submit_error(old(ctx).pair, request_index, ad_text@) == Some(e)
                &&& *final(ctx) == *old(ctx)
            },
        },
{
    if request_index as usize >= ctx.pair.requests.len() {
        return Err(FactoryError::InvalidRequestIndex);
    }
    if !fits(&ad_text, MAX_AD_TEXT_LEN) {
        return Err(FactoryError::AdTextTooLong);
    }
    if ctx.pair.pending_requests.len() >= MAX_PENDING_REQUESTS {
        return Err(FactoryError::RequestCapacityExceeded);
    }
    let required_tokens: u64 = ctx.pair.requests[request_index as usize].price;
    let event = RequestSubmitted {
        pair_key: ctx.pair_key,
        user: ctx.user,
        request_index: request_index,
        ad_text: ad_text.clone(),
        timestamp: ctx.timestamp,
    };
    let request = Request {
        user: ctx.user,
        request_index: request_index,
        ad_text: ad_text,
        timestamp: ctx.timestamp,
        status: RequestStatus::Pending,
    };
    assert(request_wf(request, ctx.pair.requests@.len()));
    ctx.pair.pending_requests.push(request);
    let mut effects: Vec<Effect> = Vec::new();
    effects.push(
        Effect::Transfer {
            amount: required_tokens,
            from: ctx.user_token_account,
            to: ctx.escrow_token_account,
            authority: Authority::Holder { account: ctx.user },
        },
    );
    Ok(Submission { effects, event })
}

/// Why a decision on the request at `position` is refused, if it is: a
/// caller who is not the creator, no request at that position, or a request
/// that has already left the pending state, in this order.
pub open spec fn decision_error(pair: Pair, caller: Address, position: u8) -> Option<
    FactoryError,
> {
    if caller@ != pair.creator@ {
        Some(FactoryError::UnauthorizedCaller)
    } else if position >= pair.pending_requests@.len() {
        Some(FactoryError::RequestNotFound)
    } else if pair.pending_requests@[position as int].status != RequestStatus::Pending {
        Some(FactoryError::RequestAlreadyProcessed)
    } else {
        None
    }
}

/// The requests of a pair after the one at `position` took on `status`.
pub open spec fn with_status(requests: Seq<Request>, position: int, status: RequestStatus) -> Seq<
    Request,
> {
    requests.update(position, Request { status: status, ..requests[position] })
}

/// Checks that the caller may decide on the request at `position` and that
/// the request is still pending.
fn check_decision(pair: &Pair, caller: &Address, position: u8) -> (r: Option<FactoryError>)
    ensures
        r == decision_error(*pair, *caller, position),
{
    if !caller.same_as(&pair.creator) {
        return Some(FactoryError::UnauthorizedCaller);
    }
    if position as usize >= pair.pending_requests.len() {
        return Some(FactoryError::RequestNotFound);
    }
    match pair.pending_requests[position as usize].status {
        RequestStatus::Pending => None,
        _ => Some(FactoryError::RequestAlreadyProcessed),
    }
}

/// Gives the request at `position` a new status and leaves every other
/// request, and everything else about this one, as it was.
fn set_status(requests: &mut Vec<Request>, position: usize, status: RequestStatus)
    requires
        position < old(requests)@.len(),
    ensures
        final(requests)@ == with_status(old(requests)@, position as int, status),
{
    let mut request = requests.remove(position);
    request.status = status;
    requests.insert(position, request);
    assert(requests@ =~= with_status(old(requests)@, position as int, status));
}

/// Once a request has left the pending state, every further decision on it
/// is refused: with a lifecycle error for the creator, with an
/// authorisation error for anyone else.
pub proof fn lemma_decided_request_stays_decided(
    before: Pair,
    after: Pair,
    caller: Address,
    position: u8,
    status: RequestStatus,
)
    requires
        position < before.pending_requests@.len(),
        status != RequestStatus::Pending,
        after.creator == before.creator,
        after.pending_requests@ == with_status(before.pending_requests@, position as int, status),
    ensures
        decision_error(after, caller, position) == Some(
            if caller@ == before.creator@ {
                FactoryError::RequestAlreadyProcessed
            } else {
                FactoryError::UnauthorizedCaller
            },
        ),
{
}

/// Accepts the pending request at `request_index` of the pair's requests:
/// the escrowed payment is released to the creator's token account and the
/// request is marked accepted. Only the creator of the pair may accept. A
/// refused acceptance leaves the pair as it was and asks for no fund
/// movement.
pub fn accept_request(ctx: &mut AcceptRequest, request_index: u8) -> (r: Result<
    Acceptance,
    FactoryError,
>)
    requires
        old(ctx).pair.wf(),
    ensures
        match r {
            Ok(done) => {
                let pair = old(ctx).pair;
                let request = pair.pending_requests@[request_index as int];
                &&& decision_error(pair, old(ctx).creator, request_index) is None
                &&& final(ctx).pair.pending_requests@ == with_status(
                    pair.pending_requests@,
                    request_index as int,
                    RequestStatus::Accepted,
                )
                &&& final(ctx).pair == (Pair {
                    pending_requests: final(ctx).pair.pending_requests,
                    ..pair
                })
                &&& *final(ctx) == (AcceptRequest { pair: final(ctx).pair, ..*old(ctx) })
                &&& final(ctx).pair.wf()
                &&& done.effects@ == seq![
                    Effect::Transfer {
                        amount: price_of(pair, request),
                        from: old(ctx).escrow_token_account,
                        to: pair.creator_token_account,
                        authority: pair_authority(pair),
                    },
                ]
                &&& done.event == (RequestAccepted {
                    creator: old(ctx).creator,
                    request_index: request.request_index,
                    user: request.user,
                    timestamp: old(ctx).timestamp,
                })
            },
            Err(e) => {
                &&& decision_error(old(ctx).pair, old(ctx).creator, request_index) == Some(e)
                &&& *final(ctx) == *old(ctx)
            },
        },
{
    match check_decision(&ctx.pair, &ctx.creator, request_index) {
        Some(e) => {
            return Err(e);
        },
        None => {},
    }
    let position: usize = request_index as usize;
    assert(request_wf(ctx.pair.pending_requests@[position as int], ctx.pair.requests@.len()));
    let offer: u8 = ctx.pair.pending_requests[position].request_index;
    let user: Address = ctx.pair.pending_requests[position].user;
    let price: u64 = ctx.pair.requests[offer as usize].price;
    set_status(&mut ctx.pair.pending_requests, position, RequestStatus::Accepted);
    let mut effects: Vec<Effect> = Vec::new();
    effects.push(
        Effect::Transfer {
            amount: price,
            from: ctx.escrow_token_account,
            to: ctx.pair.creator_token_account,
            authority: Authority::Pair {
                creator: ctx.pair.creator,
                creation_number: ctx.pair.creation_number,
                bump: ctx.pair.bump,
            },
        },
    );
    let event = RequestAccepted {
        creator: ctx.creator,
        request_index: offer,
        user: user,
        timestamp: ctx.timestamp,
    };
    Ok(Acceptance { effects, event })
}

/// Rejects the pending request at `request_index` of the pair's requests:
/// the escrowed payment goes back to the requester's token account and the
/// request is marked rejected. Only the creator of the pair may reject. A
/// refused rejection leaves the pair as it was and asks for no fund
/// movement.
pub fn reject_request(ctx: &mut RejectRequest, request_index: u8) -> (r: Result<
    Vec<Effect>,
    FactoryError,
>)
    requires
        old(ctx).pair.wf(),
    ensures
        match r {
            Ok(effects) => {
                let pair = old(ctx).pair;
                let request = pair.pending_requests@[request_index as int];
                &&& decision_error(pair, old(ctx).creator, request_index) is None
                &&& final(ctx).pair.pending_requests@ == with_status(
                    pair.pending_requests@,
                    request_index as int,
                    RequestStatus::Rejected,
                )
                &&& final(ctx).pair == (Pair {
                    pending_requests: final(ctx).pair.pending_requests,
                    ..pair
                })
                &&& *final(ctx) == (RejectRequest { pair: final(ctx).pair, ..*old(ctx) })
                &&& final(ctx).pair.wf()
                &&& effects@ == seq![
                    Effect::Transfer {
                        amount: price_of(pair, request),
                        from: old(ctx).escrow_token_account,
                        to: old(ctx).user_token_account,
                        authority: pair_authority(pair),
                    },
                ]
            },
            Err(e) => {
                &&& decision_error(old(ctx).pair, old(ctx).creator, request_index) == Some(e)
                &&& *final(ctx) == *old(ctx)
            },
        },
{
    match check_decision(&ctx.pair, &ctx.creator, request_index) {
        Some(e) => {
            return Err(e);
        },
        None => {},
    }
    let position: usize = request_index as usize;
    assert(request_wf(ctx.pair.pending_requests@[position as int], ctx.pair.requests@.len()));
    let offer: u8 = ctx.pair.pending_requests[position].request_index;
    let price: u64 = ctx.pair.requests[offer as usize].price;
    set_status(&mut ctx.pair.pending_requests, position, RequestStatus::Rejected);
    let mut effects: Vec<Effect> = Vec::new();
    effects.push(
        Effect::Transfer {
            amount: price,
            from: ctx.escrow_token_account,
            to: ctx.user_token_account,
            authority: Authority::Pair {
                creator: ctx.pair.creator,
                creation_number: ctx.pair.creation_number,
                bump: ctx.pair.bump,
            },
        },
    );
    Ok(effects)
}

/// Why an acceptance with settlement is refused, if it is: first as any
/// decision is, then because the escrowed tokens exceed the supply, because
/// the pair cannot quote their sale, or because the vault cannot pay it.
pub open spec fn settle_error(ctx: AcceptAndSettleRequest, position: u8) -> Option<FactoryError> {
    let pair = ctx.pair;
    let price = price_of(pair, pair.pending_requests@[position as int]);
    if decision_error(pair, ctx.creator, position) is Some {
        decision_error(pair, ctx.creator, position)
    } else if price > pair.s0 {
        Some(FactoryError::InsufficientTokens)
    } else if quote_of(pair, price, false) is Err {
        Some(quote_of(pair, price, false)->Err_0)
    } else if quote_of(pair, price, false)->Ok_0 > ctx.vault_balance {
        Some(FactoryError::InsufficientLiquidity)
    } else {
        None
    }
}

/// Accepts the pending request at `request_index` of the pair's requests
/// and settles it in base asset: the escrowed tokens are burned, the supply
/// falls by as much, and what their sale yields at the current supply is
/// released from the vault to the creator. The request is marked completed.
/// Only the creator of the pair may do this. A refusal leaves the pair as
/// it was and asks for no fund movement.
pub fn accept_and_settle_request(ctx: &mut AcceptAndSettleRequest, request_index: u8) -> (r:
    Result<Vec<Effect>, FactoryError>)
    requires
        old(ctx).pair.wf(),
    ensures
        match r {
            Ok(effects) => {
                let pair = old(ctx).pair;
                let price = price_of(pair, pair.pending_requests@[request_index as int]);
                &&& settle_error(*old(ctx), request_index) is None
                &&& final(ctx).pair.pending_requests@ == with_status(
                    pair.pending_requests@,
                    request_index as int,
                    RequestStatus::Completed,
                )
                &&& final(ctx).pair == (Pair {
                    pending_requests: final(ctx).pair.pending_requests,
                    s0: (pair.s0 - price) as u64,
                    ..pair
                })
                &&& *final(ctx) == (AcceptAndSettleRequest { pair: final(ctx).pair, ..*old(ctx) })
                &&& final(ctx).pair.wf()
                &&& effects@ == seq![
                    Effect::Burn {
                        mint: pair.attention_token_mint,
                        amount: price,
                        from: old(ctx).escrow_token_account,
                        authority: pair_authority(pair),
                    },
                    Effect::MoveBaseAsset {
                        amount: quote_of(pair, price, false)->Ok_0,
                        from: pair.vault,
                        to: pair.creator,
                        authority: Authority::Vault {
                            pair: old(ctx).pair_key,
                            bump: old(ctx).vault_bump,
                        },
                    },
                ]
            },
            Err(e) => {
                &&& settle_error(*old(ctx), request_index) == Some(e)
                &&& *final(ctx) == *old(ctx)
            },
        },
{
    match check_decision(&ctx.pair, &ctx.creator, request_index) {
        Some(e) => {
            return Err(e);
        },
        None => {},
    }
    let position: usize = request_index as usize;
    assert(request_wf(ctx.pair.pending_requests@[position as int], ctx.pair.requests@.len()));
    let offer: u8 = ctx.pair.pending_requests[position].request_index;
    let price: u64 = ctx.pair.requests[offer as usize].price;
    if price > ctx.pair.s0 {
        return Err(FactoryError::InsufficientTokens);
    }
    let payout: u64 = match quote(&ctx.pair, price, false) {
        Ok(v) => v,
        Err(e) => {
            return Err(e);
        },
    };
    if payout > ctx.vault_balance {
        return Err(FactoryError::InsufficientLiquidity);
    }
    set_status(&mut ctx.pair.pending_requests, position, RequestStatus::Completed);
    ctx.pair.s0 = ctx.pair.s0 - price;
    let mut effects: Vec<Effect> = Vec::new();
    effects.push(
        Effect::Burn {
            mint: ctx.pair.attention_token_mint,
            amount: price,
            from: ctx.escrow_token_account,
            authority: Authority::Pair {
                creator: ctx.pair.creator,
                creation_number: ctx.pair.creation_number,
                bump: ctx.pair.bump,
            },
        },
    );
    effects.push(
        Effect::MoveBaseAsset {
            amount: payout,
            from: ctx.pair.vault,
            to: ctx.pair.creator,
            authority: Authority::Vault { pair: ctx.pair_key, bump: ctx.vault_bump },
        },
    );
    Ok(effects)
}

} // verus!

//! The registry of pairs.

use vstd::prelude::*;
use crate::address::Address;
use crate::error::FactoryError;

verus! {

/// The whole, in basis points: a rate of `FEE_DENOMINATOR` is 100%.
pub const FEE_DENOMINATOR: u64 = 10000;

/// The registry: who configures it, who is entitled to the protocol fee,
/// the protocol fee rate in basis points and the number of pairs created.
#[derive(Clone, Copy, Debug, PartialEq, Eq)]
pub struct Factory {
    pub authority: Address,
    pub fee_recipient: Address,
    pub protocol_fee: u64,
    pub pairs_count: u64,
}

impl Factory {
    /// The protocol fee rate is at most 100%.
    pub open spec fn wf(&self) -> bool {
        self.protocol_fee <= FEE_DENOMINATOR
    }

    /// Whether the record is well formed.
    pub fn is_well_formed(&self) -> (ok: bool)
        ensures
            ok == self.wf(),
    {
        self.protocol_fee <= FEE_DENOMINATOR
    }
}

impl Default for Factory {
    fn default() -> (f: Factory)
        ensures
            f.authority == Address::default_spec(),
            f.fee_recipient == Address::default_spec(),
            f.protocol_fee == 0,
            f.pairs_count == 0,
            f.wf(),
    {
        Factory {
            authority: Address::zero(),
            fee_recipient: Address::zero(),
            protocol_fee: 0,
            pairs_count: 0,
        }
    }
}

/// What the initialisation of a factory works on: the record to fill and
/// the two identities to record in it.
#[derive(Clone, Copy, Debug, PartialEq, Eq)]
pub struct InitializeFactory {
    pub factory: Factory,
    pub fee_recipient: Address,
    pub authority: Address,
}

/// Sets up the registry with no pairs. A protocol fee rate above 100% is
/// refused and leaves the record untouched.
pub fn initialize_factory(ctx: &mut InitializeFactory, protocol_fee: u64) -> (r: Result<
    (),
    FactoryError,
>)
    ensures
        match r {
            Ok(_) => {
                &&& protocol_fee <= FEE_DENOMINATOR
                &&& final(ctx).factory == (Factory {
                    authority: old(ctx).authority,
                    fee_recipient: old(ctx).fee_recipient,
                    protocol_fee: protocol_fee,
                    pairs_count: 0,
                })
                &&& final(ctx).factory.wf()
                &&& final(ctx).authority == old(ctx).authority
                &&& final(ctx).fee_recipient == old(ctx).fee_recipient
            },
            Err(e) => {
                &&& protocol_fee > FEE_DENOMINATOR
                &&& e == FactoryError::InvalidProtocolFee
                &&& *final(ctx) == *old(ctx)
            },
        },
{
    if protocol_fee > FEE_DENOMINATOR {
        return Err(FactoryError::InvalidProtocolFee);
    }
    ctx.factory.authority = ctx.authority;
    ctx.factory.fee_recipient = ctx.fee_recipient;
    ctx.factory.protocol_fee = protocol_fee;
    ctx.factory.pairs_count = 0;
    Ok(())
}

} // verus!

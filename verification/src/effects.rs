//! The fund movements that an operation asks its caller to carry out.
//!
//! The library holds no funds. An operation that succeeds returns the list of
//! movements that belong to it, in the order in which they are to be applied;
//! the caller applies all of them, or none.

use vstd::prelude::*;
use crate::address::Address;

verus! {

/// The decimals of every token that a pair mints.
pub const TOKEN_DECIMALS: u8 = 9;

/// Who authorises a movement.
#[derive(Clone, Copy, Debug, PartialEq, Eq)]
pub enum Authority {
    /// The holder of the funds signs for itself.
    Holder { account: Address },
    /// The pair signs, as the identity derived from its creator, its
    /// creation number and its bump.
    Pair { creator: Address, creation_number: u64, bump: u8 },
    /// The vault of a pair signs, as the identity derived from the pair's
    /// address and the vault's bump.
    Vault { pair: Address, bump: u8 },
}

/// The bytes `pair`.
pub open spec fn pair_tag() -> Seq<u8> {
    seq![112u8, 97u8, 105u8, 114u8]
}

/// The bytes `vault`.
pub open spec fn vault_tag() -> Seq<u8> {
    seq![118u8, 97u8, 117u8, 108u8, 116u8]
}

/// The seeds from which the identity of a pair is derived: the tag `pair`,
/// the creator, the creation number in little-endian order, the bump.
pub open spec fn pair_seeds(creator: Address, creation_number: u64, bump: u8) -> Seq<Seq<u8>> {
    seq![pair_tag(), creator@, vstd::bytes::spec_u64_to_le_bytes(creation_number), seq![bump]]
}

/// The seeds from which the identity of a vault is derived: the tag `vault`,
/// the address of the pair, the bump.
pub open spec fn vault_seeds(pair: Address, bump: u8) -> Seq<Seq<u8>> {
    seq![vault_tag(), pair@, seq![bump]]
}

/// The byte strings that a list of buffers holds, in order.
pub open spec fn seeds_of(buffers: Seq<Vec<u8>>) -> Seq<Seq<u8>> {
    Seq::new(buffers.len(), |i: int| buffers[i]@)
}

impl Authority {
    /// The seeds that prove a derived identity; none for a holder, who
    /// signs in person.
    pub open spec fn seeds(self) -> Seq<Seq<u8>> {
        match self {
            Authority::Holder { account } => Seq::empty(),
            Authority::Pair { creator, creation_number, bump } => pair_seeds(
                creator,
                creation_number,
                bump,
            ),
            Authority::Vault { pair, bump } => vault_seeds(pair, bump),
        }
    }

    /// The seeds that prove a derived identity, for the party that checks
    /// the signature.
    pub fn signer_seeds(&self) -> (out: Vec<Vec<u8>>)
        ensures
            seeds_of(out@) == self.seeds(),
    {
        let mut out: Vec<Vec<u8>> = Vec::new();
        match self {
            Authority::Holder { account } => {
                assert(seeds_of(out@) =~= self.seeds());
            },
            Authority::Pair { creator, creation_number, bump } => {
                let tag: Vec<u8> = vec![112u8, 97u8, 105u8, 114u8];
                assert(tag@ =~= pair_tag());
                let key: Vec<u8> = creator.to_bytes();
                let number: Vec<u8> = vstd::bytes::u64_to_le_bytes(*creation_number);
                let last: Vec<u8> = vec![*bump];
                assert(last@ =~= seq![*bump]);
                out.push(tag);
                out.push(key);
                out.push(number);
                out.push(last);
                assert(seeds_of(out@) =~= self.seeds());
            },
            Authority::Vault { pair, bump } => {
                let tag: Vec<u8> = vec![118u8, 97u8, 117u8, 108u8, 116u8];
                assert(tag@ =~= vault_tag());
                let key: Vec<u8> = pair.to_bytes();
                let last: Vec<u8> = vec![*bump];
                assert(last@ =~= seq![*bump]);
                out.push(tag);
                out.push(key);
                out.push(last);
                assert(seeds_of(out@) =~= self.seeds());
            },
        }
        out
    }
}

/// One fund movement.
#[derive(Clone, Copy, Debug, PartialEq, Eq)]
pub enum Effect {
    /// Create the mint of a pair's token.
    CreateMint { mint: Address, decimals: u8, mint_authority: Address, freeze_authority: Address },
    /// Move base asset from one account to another.
    MoveBaseAsset { amount: u64, from: Address, to: Address, authority: Authority },
    /// Mint new tokens into a token account.
    Mint { mint: Address, amount: u64, to: Address, authority: Authority },
    /// Burn tokens out of a token account.
    Burn { mint: Address, amount: u64, from: Address, authority: Authority },
    /// Move tokens from one token account to another.
    Transfer { amount: u64, from: Address, to: Address, authority: Authority },
}

} // verus!

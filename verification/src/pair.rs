//! A trading pair: one mintable token priced against one vault of base
//! asset, with its catalog of offers and the requests made against them.

use vstd::prelude::*;
use vstd::utf8::encode_utf8;
use crate::address::Address;
use crate::curve::{curve_is_valid, curve_valid, CurveModel};
use crate::effects::{Effect, TOKEN_DECIMALS};
use crate::error::FactoryError;
use crate::factory::{Factory, FEE_DENOMINATOR};

verus! {

/// The longest name of a pair, in bytes.
pub const MAX_NAME_LEN: usize = 32;

/// The longest ticker of a pair, in bytes.
pub const MAX_TICKER_LEN: usize = 10;

/// The longest description, of a pair or of a catalog entry, in bytes.
pub const MAX_DESCRIPTION_LEN: usize = 200;

/// The longest reference to a token image, in bytes.
pub const MAX_TOKEN_IMAGE_LEN: usize = 200;

/// The longest link of a pair, in bytes.
pub const MAX_LINK_LEN: usize = 100;

/// The longest text of a request, in bytes.
pub const MAX_AD_TEXT_LEN: usize = 280;

/// The most entries that the catalog of a pair holds.
pub const MAX_REQUEST_CONFIGS: usize = 3;

/// The most requests that a pair records.
pub const MAX_PENDING_REQUESTS: usize = 10;

/// The price floor that pairs are usually created with.
pub const DEFAULT_PRICE_FLOOR: u64 = 40000;

/// The price ceiling that pairs are usually created with.
pub const DEFAULT_PRICE_CEILING: u64 = 100000000;

/// The supply cap that pairs are usually created with.
pub const DEFAULT_SUPPLY_CAP: u64 = 1000000000000000;

/// The length of a text in bytes, as it is stored.
pub open spec fn byte_len(text: Seq<char>) -> nat {
    encode_utf8(text).len()
}

/// Whether a text is at most `max` bytes long.
pub fn fits(text: &String, max: usize) -> (ok: bool)
    ensures
        ok == (byte_len(text@) <= max),
{
    text.as_str().as_bytes().len() <= max
}

/// Where a request stands in its life.
#[derive(Clone, Copy, Debug, PartialEq, Eq, Structural)]
pub enum RequestStatus {
    /// Submitted and paid into escrow, not yet decided.
    Pending,
    /// Accepted by the creator, who received the escrowed tokens.
    Accepted,
    /// Turned down by the creator; the escrowed tokens went back.
    Rejected,
    /// Cancelled and paid back.
    Refunded,
    /// Accepted and settled in base asset.
    Completed,
}

impl Default for RequestStatus {
    fn default() -> (s: RequestStatus)
        ensures
            s == RequestStatus::Pending,
    {
        RequestStatus::Pending
    }
}

/// One offer of the catalog: what a request of this kind costs, in tokens,
/// and what it is.
#[derive(Clone, Debug, PartialEq, Eq)]
pub struct RequestConfig {
    pub price: u64,
    pub description: String,
}

impl RequestConfig {
    /// An offer has a price and a description of bounded length.
    pub open spec fn wf(&self) -> bool {
        self.price > 0 && byte_len(self.description@) <= MAX_DESCRIPTION_LEN
    }
}

/// A request made against an offer of the catalog.
#[derive(Clone, Debug, PartialEq, Eq)]
pub struct Request {
    pub user: Address,
    pub request_index: u8,
    pub ad_text: String,
    pub timestamp: i64,
    pub status: RequestStatus,
}

/// A trading pair.
#[derive(Clone, Debug, PartialEq, Eq)]
pub struct Pair {
    pub bump: u8,
    pub creator: Address,
    pub attention_token_mint: Address,
    pub creator_token_account: Address,
    pub base_price: u64,
    pub protocol_fee: u64,
    pub creator_fee: u64,
    pub creation_number: u64,
    pub vault: Address,
    pub name: String,
    pub ticker: String,
    pub description: String,
    pub token_image: String,
    pub twitter: String,
    pub telegram: String,
    pub website: String,
    pub requests: Vec<RequestConfig>,
    pub pending_requests: Vec<Request>,
    pub s0: u64,
    pub pmin: u64,
    pub pmax: u64,
    pub smax: u64,
    pub curve_model: CurveModel,
    pub reserve_a: u64,
    pub reserve_b: u64,
    pub unclaimed_fees: u64,
}

/// Every offer of a catalog is well formed.
pub open spec fn catalog_wf(catalog: Seq<RequestConfig>) -> bool {
    forall|i: int| 0 <= i < catalog.len() ==> (#[trigger] catalog[i]).wf()
}

/// A request names an offer of the catalog and carries a text of bounded
/// length.
pub open spec fn request_wf(request: Request, catalog_len: nat) -> bool {
    request.request_index < catalog_len && byte_len(request.ad_text@) <= MAX_AD_TEXT_LEN
}

/// Every request of a list is well formed.
pub open spec fn requests_wf(requests: Seq<Request>, catalog_len: nat) -> bool {
    forall|i: int| 0 <= i < requests.len() ==> request_wf(#[trigger] requests[i], catalog_len)
}

/// The metadata of a pair is within its bounds.
pub open spec fn metadata_fits(
    name: Seq<char>,
    ticker: Seq<char>,
    description: Seq<char>,
    token_image: Seq<char>,
    twitter: Seq<char>,
    telegram: Seq<char>,
    website: Seq<char>,
) -> bool {
    &&& byte_len(name) <= MAX_NAME_LEN
    &&& byte_len(ticker) <= MAX_TICKER_LEN
    &&& byte_len(description) <= MAX_DESCRIPTION_LEN
    &&& byte_len(token_image) <= MAX_TOKEN_IMAGE_LEN
    &&& byte_len(twitter) <= MAX_LINK_LEN
    &&& byte_len(telegram) <= MAX_LINK_LEN
    &&& byte_len(website) <= MAX_LINK_LEN
}

impl Pair {
    /// What holds of a pair at all times: its prices are positive and in
    /// order, its supply is within the cap, its two fee rates together are
    /// at most 100%, its metadata is within bounds, its catalog and its
    /// requests are well formed and within capacity.
    pub open spec fn wf(&self) -> bool {
        &&& self.base_price > 0
        &&& curve_valid(self.pmin, self.pmax, self.smax)
        &&& self.s0 <= self.smax
        &&& self.protocol_fee + self.creator_fee <= FEE_DENOMINATOR
        &&& metadata_fits(
            self.name@,
            self.ticker@,
            self.description@,
            self.token_image@,
            self.twitter@,
            self.telegram@,
            self.website@,
        )
        &&& self.requests@.len() <= MAX_REQUEST_CONFIGS
        &&& catalog_wf(self.requests@)
        &&& self.pending_requests@.len() <= MAX_PENDING_REQUESTS
        &&& requests_wf(self.pending_requests@, self.requests@.len())
    }
}

/// What the creator of a pair chooses: the metadata, the pricing model and
/// its parameters, the creator's fee rate in basis points and the catalog.
#[derive(Clone, Debug, PartialEq, Eq)]
pub struct CreatePairParams {
    pub name: String,
    pub ticker: String,
    pub description: String,
    pub token_image: String,
    pub twitter: String,
    pub telegram: String,
    pub website: String,
    pub base_price: u64,
    pub requests: Vec<RequestConfig>,
    pub curve_model: CurveModel,
    pub pmin: u64,
    pub pmax: u64,
    pub smax: u64,
    pub creator_fee: u64,
    pub reserve_a: u64,
    pub reserve_b: u64,
}

/// What the creation of a pair works on: the registry, the record to fill,
/// the address and bump of that record, and the accounts bound to the pair.
#[derive(Clone, Debug, PartialEq, Eq)]
pub struct CreatePair {
    pub factory: Factory,
    pub pair: Pair,
    pub pair_key: Address,
    pub bump: u8,
    pub creator: Address,
    pub attention_token_mint: Address,
    pub creator_token_account: Address,
    pub vault: Address,
}

/// The notice that a pair was created.
#[derive(Clone, Copy, Debug, PartialEq, Eq)]
pub struct PairCreated {
    pub pair_id: u64,
    pub pair_key: Address,
    pub creator: Address,
    pub base_price: u64,
}

/// What a successful creation hands back: the fund movements to carry out
/// and the notice to publish.
#[derive(Clone, Debug, PartialEq, Eq)]
pub struct PairCreation {
    pub effects: Vec<Effect>,
    pub event: PairCreated,
}

/// The first fault of a catalog, going through its entries in order: an
/// entry without a price, or one whose description is too long.
pub open spec fn catalog_error(catalog: Seq<RequestConfig>) -> Option<FactoryError>
    decreases catalog.len(),
{
    if catalog.len() == 0 {
        None
    } else if catalog[0].price == 0 {
        Some(FactoryError::InvalidRequestPrice)
    } else if byte_len(catalog[0].description@) > MAX_DESCRIPTION_LEN {
        Some(FactoryError::InvalidStringLength)
    } else {
        catalog_error(catalog.drop_first())
    }
}

/// Why the creation of a pair is refused, if it is. The checks come in this
/// order: prices, fee rates, metadata, the size of the catalog, its
/// entries, the pair counter.
pub open spec fn create_pair_error(factory: Factory, params: CreatePairParams) -> Option<
    FactoryError,
> {
    if params.base_price == 0 || !curve_valid(params.pmin, params.pmax, params.smax) {
        Some(FactoryError::InvalidBasePrice)
    } else if factory.protocol_fee + params.creator_fee > FEE_DENOMINATOR {
        Some(FactoryError::InvalidProtocolFee)
    } else if !metadata_fits(
        params.name@,
        params.ticker@,
        params.description@,
        params.token_image@,
        params.twitter@,
        params.telegram@,
        params.website@,
    ) {
        Some(FactoryError::InvalidStringLength)
    } else if params.requests@.len() > MAX_REQUEST_CONFIGS {
        Some(FactoryError::RequestCapacityExceeded)
    } else if catalog_error(params.requests@) is Some {
        catalog_error(params.requests@)
    } else if factory.pairs_count == u64::MAX {
        Some(FactoryError::ArithmeticOverflow)
    } else {
        None
    }
}

/// Whether `pair` is the record of a pair right after its creation: what
/// the creator chose and the accounts bound to it, the protocol fee rate
/// and the next creation number of the registry, no supply, no requests
/// and no fees accrued.
pub open spec fn is_created_pair(pair: Pair, ctx: CreatePair, params: CreatePairParams) -> bool {
    &&& pair.bump == ctx.bump
    &&& pair.creator == ctx.creator
    &&& pair.attention_token_mint == ctx.attention_token_mint
    &&& pair.creator_token_account == ctx.creator_token_account
    &&& pair.base_price == params.base_price
    &&& pair.protocol_fee == ctx.factory.protocol_fee
    &&& pair.creator_fee == params.creator_fee
    &&& pair.creation_number == ctx.factory.pairs_count
    &&& pair.vault == ctx.vault
    &&& pair.name == params.name
    &&& pair.ticker == params.ticker
    &&& pair.description == params.description
    &&& pair.token_image == params.token_image
    &&& pair.twitter == params.twitter
    &&& pair.telegram == params.telegram
    &&& pair.website == params.website
    &&& pair.requests == params.requests
    &&& pair.pending_requests@ == Seq::<Request>::empty()
    &&& pair.s0 == 0
    &&& pair.pmin == params.pmin
    &&& pair.pmax == params.pmax
    &&& pair.smax == params.smax
    &&& pair.curve_model == params.curve_model
    &&& pair.reserve_a == params.reserve_a
    &&& pair.reserve_b == params.reserve_b
    &&& pair.unclaimed_fees == 0
}

/// A catalog without a fault holds well-formed entries only.
pub proof fn lemma_faultless_catalog_wf(catalog: Seq<RequestConfig>)
    requires
        catalog_error(catalog) is None,
    ensures
        catalog_wf(catalog),
    decreases catalog.len(),
{
    if catalog.len() > 0 {
        let rest = catalog.drop_first();
        lemma_faultless_catalog_wf(rest);
        assert forall|i: int| 0 <= i < catalog.len() implies (#[trigger] catalog[i]).wf() by {
            if i > 0 {
                assert(catalog[i] == rest[i - 1]);
            }
        }
    }
}

/// Goes through a catalog in order and reports its first fault.
fn check_catalog(catalog: &Vec<RequestConfig>) -> (r: Option<FactoryError>)
    ensures
        r == catalog_error(catalog@),
{
    let mut i: usize = 0;
    assert(catalog@.skip(0) =~= catalog@);
    while i < catalog.len()
        invariant
            i <= catalog.len(),
            catalog_error(catalog@) == catalog_error(catalog@.skip(i as int)),
        decreases catalog.len() - i,
    {
        let ghost rest = catalog@.skip(i as int);
        assert(rest[0] == catalog@[i as int]);
        assert(rest.drop_first() =~= catalog@.skip(i + 1));
        if catalog[i].price == 0 {
            return Some(FactoryError::InvalidRequestPrice);
        }
        if !fits(&catalog[i].description, MAX_DESCRIPTION_LEN) {
            return Some(FactoryError::InvalidStringLength);
        }
        i += 1;
    }
    None
}

/// Creates a pair: checks what the creator chose, fills the record, takes
/// the next creation number from the registry and asks for the mint of the
/// pair's token, with the pair as its only authority. A refused creation
/// leaves the registry and the record as they were and asks for nothing.
pub fn create_pair(ctx: &mut CreatePair, params: CreatePairParams) -> (r: Result<
    PairCreation,
    FactoryError,
>)
    ensures
        match r {
            Ok(done) => {
                &&& create_pair_error(old(ctx).factory, params) is None
                &&& is_created_pair(final(ctx).pair, *old(ctx), params)
                &&& final(ctx).pair.wf()
                &&& final(ctx).factory == (Factory {
                    pairs_count: (old(ctx).factory.pairs_count + 1) as u64,
                    ..old(ctx).factory
                })
                &&& final(ctx).pair_key == old(ctx).pair_key
                &&& final(ctx).bump == old(ctx).bump
                &&& final(ctx).creator == old(ctx).creator
                &&& final(ctx).attention_token_mint == old(ctx).attention_token_mint
                &&& final(ctx).creator_token_account == old(ctx).creator_token_account
                &&& final(ctx).vault == old(ctx).vault
                &&& done.effects@ == seq![
                    Effect::CreateMint {
                        mint: old(ctx).attention_token_mint,
                        decimals: TOKEN_DECIMALS,
                        mint_authority: old(ctx).pair_key,
                        freeze_authority: old(ctx).pair_key,
                    },
                ]
                &&& done.event == (PairCreated {
                    pair_id: (old(ctx).factory.pairs_count + 1) as u64,
                    pair_key: old(ctx).pair_key,
                    creator: old(ctx).creator,
                    base_price: params.base_price,
                })
            },
            Err(e) => {
                &&& create_pair_error(old(ctx).factory, params) == Some(e)
                &&& *final(ctx) == *old(ctx)
            },
        },
{
    if params.base_price == 0 || params.pmin == 0 || params.pmin > params.pmax || params.smax
        == 0 {
        return Err(FactoryError::InvalidBasePrice);
    }
    if ctx.factory.protocol_fee as u128 + params.creator_fee as u128 > FEE_DENOMINATOR as u128 {
        return Err(FactoryError::InvalidProtocolFee);
    }
    if !(fits(&params.name, MAX_NAME_LEN) && fits(&params.ticker, MAX_TICKER_LEN) && fits(
        &params.description,
        MAX_DESCRIPTION_LEN,
    ) && fits(&params.token_image, MAX_TOKEN_IMAGE_LEN) && fits(&params.twitter, MAX_LINK_LEN)
        && fits(&params.telegram, MAX_LINK_LEN) && fits(&params.website, MAX_LINK_LEN)) {
        return Err(FactoryError::InvalidStringLength);
    }
    if params.requests.len() > MAX_REQUEST_CONFIGS {
        return Err(FactoryError::RequestCapacityExceeded);
    }
    match check_catalog(&params.requests) {
        Some(e) => {
            return Err(e);
        },
        None => {},
    }
    if ctx.factory.pairs_count == u64::MAX {
        return Err(FactoryError::ArithmeticOverflow);
    }
    proof {
        lemma_faultless_catalog_wf(params.requests@);
    }
    let creation_number: u64 = ctx.factory.pairs_count;
    let base_price: u64 = params.base_price;
    let pair = Pair {
        bump: ctx.bump,
        creator: ctx.creator,
        attention_token_mint: ctx.attention_token_mint,
        creator_token_account: ctx.creator_token_account,
        base_price: params.base_price,
        protocol_fee: ctx.factory.protocol_fee,
        creator_fee: params.creator_fee,
        creation_number: creation_number,
        vault: ctx.vault,
        name: params.name,
        ticker: params.ticker,
        description: params.description,
        token_image: params.token_image,
        twitter: params.twitter,
        telegram: params.telegram,
        website: params.website,
        requests: params.requests,
        pending_requests: Vec::new(),
        s0: 0,
        pmin: params.pmin,
        pmax: params.pmax,
        smax: params.smax,
        curve_model: params.curve_model,
        reserve_a: params.reserve_a,
        reserve_b: params.reserve_b,
        unclaimed_fees: 0,
    };
    ctx.pair = pair;
    ctx.factory.pairs_count = creation_number + 1;
    let mut effects: Vec<Effect> = Vec::new();
    effects.push(
        Effect::CreateMint {
            mint: ctx.attention_token_mint,
            decimals: TOKEN_DECIMALS,
            mint_authority: ctx.pair_key,
            freeze_authority: ctx.pair_key,
        },
    );
    let event = PairCreated {
        pair_id: creation_number + 1,
        pair_key: ctx.pair_key,
        creator: ctx.creator,
        base_price: base_price,
    };
    Ok(PairCreation { effects, event })
}

impl Default for RequestConfig {
    fn default() -> (c: RequestConfig)
        ensures
            c.price == 0,
            c.description@ == Seq::<char>::empty(),
    {
        RequestConfig { price: 0, description: String::new() }
    }
}

impl Default for Request {
    fn default() -> (r: Request)
        ensures
            r.user == Address::default_spec(),
            r.request_index == 0,
            r.ad_text@ == Seq::<char>::empty(),
            r.timestamp == 0,
            r.status == RequestStatus::Pending,
    {
        Request {
            user: Address::zero(),
            request_index: 0,
            ad_text: String::new(),
            timestamp: 0,
            status: RequestStatus::Pending,
        }
    }
}

impl Default for Pair {
    /// An empty record, as it stands before a pair is created in it. It is
    /// not yet a well-formed pair: it has no prices.
    fn default() -> (p: Pair)
        ensures
            p.base_price == 0,
            p.s0 == 0,
            p.pmin == 0,
            p.pmax == 0,
            p.smax == 0,
            p.protocol_fee == 0,
            p.creator_fee == 0,
            p.unclaimed_fees == 0,
            p.creation_number == 0,
            p.curve_model == CurveModel::BoundedQuadratic,
            p.requests@ == Seq::<RequestConfig>::empty(),
            p.pending_requests@ == Seq::<Request>::empty(),
    {
        Pair {
            bump: 0,
            creator: Address::zero(),
            attention_token_mint: Address::zero(),
            creator_token_account: Address::zero(),
            base_price: 0,
            protocol_fee: 0,
            creator_fee: 0,
            creation_number: 0,
            vault: Address::zero(),
            name: String::new(),
            ticker: String::new(),
            description: String::new(),
            token_image: String::new(),
            twitter: String::new(),
            telegram: String::new(),
            website: String::new(),
            requests: Vec::new(),
            pending_requests: Vec::new(),
            s0: 0,
            pmin: 0,
            pmax: 0,
            smax: 0,
            curve_model: CurveModel::BoundedQuadratic,
            reserve_a: 0,
            reserve_b: 0,
            unclaimed_fees: 0,
        }
    }
}

impl Default for CreatePairParams {
    /// No metadata, an empty catalog, no creator fee, and the usual price
    /// line. The base price is left at zero for the creator to choose.
    fn default() -> (p: CreatePairParams)
        ensures
            p.base_price == 0,
            p.creator_fee == 0,
            p.curve_model == CurveModel::BoundedQuadratic,
            p.pmin == DEFAULT_PRICE_FLOOR,
            p.pmax == DEFAULT_PRICE_CEILING,
            p.smax == DEFAULT_SUPPLY_CAP,
            p.reserve_a == 0,
            p.reserve_b == 0,
            p.requests@ == Seq::<RequestConfig>::empty(),
            p.name@ == Seq::<char>::empty(),
            p.ticker@ == Seq::<char>::empty(),
            p.description@ == Seq::<char>::empty(),
            p.token_image@ == Seq::<char>::empty(),
            p.twitter@ == Seq::<char>::empty(),
            p.telegram@ == Seq::<char>::empty(),
            p.website@ == Seq::<char>::empty(),
    {
        CreatePairParams {
            name: String::new(),
            ticker: String::new(),
            description: String::new(),
            token_image: String::new(),
            twitter: String::new(),
            telegram: String::new(),
            website: String::new(),
            base_price: 0,
            requests: Vec::new(),
            curve_model: CurveModel::BoundedQuadratic,
            pmin: DEFAULT_PRICE_FLOOR,
            pmax: DEFAULT_PRICE_CEILING,
            smax: DEFAULT_SUPPLY_CAP,
            creator_fee: 0,
            reserve_a: 0,
            reserve_b: 0,
        }
    }
}

/// Whether every request of a list names an offer of a catalog of
/// `catalog_len` entries and carries a text of bounded length.
fn check_requests(requests: &Vec<Request>, catalog_len: usize) -> (ok: bool)
    ensures
        ok == requests_wf(requests@, catalog_len as nat),
{
    let mut i: usize = 0;
    while i < requests.len()
        invariant
            i <= requests.len(),
            forall|j: int| 0 <= j < i ==> request_wf(#[trigger] requests@[j], catalog_len as nat),
        decreases requests.len() - i,
    {
        if requests[i].request_index as usize >= catalog_len || !fits(
            &requests[i].ad_text,
            MAX_AD_TEXT_LEN,
        ) {
            assert(!request_wf(requests@[i as int], catalog_len as nat));
            return false;
        }
        i += 1;
    }
    true
}

impl Pair {
    /// Whether the record is a well-formed pair.
    pub fn is_well_formed(&self) -> (ok: bool)
        ensures
            ok == self.wf(),
    {
        if self.base_price == 0 || !curve_is_valid(self.pmin, self.pmax, self.smax) || self.s0
            > self.smax {
            return false;
        }
        if self.protocol_fee as u128 + self.creator_fee as u128 > FEE_DENOMINATOR as u128 {
            return false;
        }
        if !(fits(&self.name, MAX_NAME_LEN) && fits(&self.ticker, MAX_TICKER_LEN) && fits(
            &self.description,
            MAX_DESCRIPTION_LEN,
        ) && fits(&self.token_image, MAX_TOKEN_IMAGE_LEN) && fits(&self.twitter, MAX_LINK_LEN)
            && fits(&self.telegram, MAX_LINK_LEN) && fits(&self.website, MAX_LINK_LEN)) {
            return false;
        }
        if self.requests.len() > MAX_REQUEST_CONFIGS || self.pending_requests.len()
            > MAX_PENDING_REQUESTS {
            return false;
        }
        match check_catalog(&self.requests) {
            Some(_) => {
                proof {
                    lemma_faulty_catalog_not_wf(self.requests@);
                }
                return false;
            },
            None => {
                proof {
                    lemma_faultless_catalog_wf(self.requests@);
                }
            },
        }
        check_requests(&self.pending_requests, self.requests.len())
    }
}

/// A catalog with a fault holds an entry that is not well formed.
pub proof fn lemma_faulty_catalog_not_wf(catalog: Seq<RequestConfig>)
    requires
        catalog_error(catalog) is Some,
    ensures
        !catalog_wf(catalog),
    decreases catalog.len(),
{
    if catalog.len() > 0 {
        if catalog[0].wf() {
            let rest = catalog.drop_first();
            lemma_faulty_catalog_not_wf(rest);
            let i = choose|i: int| 0 <= i < rest.len() && !(#[trigger] rest[i]).wf();
            assert(catalog[i + 1] == rest[i]);
        }
    }
}

} // verus!

//! The marketplace contract: sellers list items, buyers place offers, and
//! each listing holds at most a configured number of active offers.
//!
//! Every operation either succeeds and changes the state as its transition
//! states, or fails with an error and changes nothing.
use vstd::prelude::*;

use crate::address::{is_zero_address, spec_is_zero_address};

verus! {

/// Default maximum number of active offers per listing, used when
/// `initialize` is given 0.
pub const MAX_OFFERS_PER_LISTING: u32 = 10;

/// All revert conditions for the marketplace contract.
#[derive(Clone, Copy, Debug, PartialEq, Eq, Structural)]
pub enum ContractError {
    /// Contract has already been initialized
    AlreadyInitialized,
    /// Contract has not been initialized
    NotInitialized,
    /// Caller is not the listing's seller
    NotAdmin,
    /// Admin address is not set
    AdminNotSet,
    /// Listing with the given ID does not exist
    ListingNotFound,
    /// Listing is not active (already closed or cancelled)
    ListingNotActive,
    /// Offer with the given ID does not exist
    OfferNotFound,
    /// Offer is not in a state that allows this operation
    OfferNotActive,
    /// The listing has reached its maximum number of active offers
    OfferLimitReached,
    /// Offer price must be greater than zero
    InvalidPrice,
    /// Offer ID counter overflowed
    OfferCountOverflow,
    /// Listing ID counter overflowed
    ListingCountOverflow,
    /// The offer limit must be at least 1
    InvalidOfferLimit,
    /// Caller is not the offer maker
    NotOfferMaker,
    /// Address parameter is invalid
    InvalidAddress,
}

/// Lifecycle state of a listing.
#[derive(Clone, Copy, Debug, PartialEq, Eq, Structural)]
pub enum ListingState {
    /// Accepting offers.
    Active,
    /// Closed by the seller (no new offers accepted).
    Closed,
    /// Cancelled by admin.
    Cancelled,
}

/// Lifecycle state of an offer. Only active offers count toward a listing's
/// limit.
#[derive(Clone, Copy, Debug, PartialEq, Eq, Structural)]
pub enum OfferState {
    /// Open and awaiting a response.
    Active,
    /// Accepted by the seller.
    Accepted,
    /// Rejected by the seller.
    Rejected,
    /// Withdrawn by the maker.
    Withdrawn,
}

/// A marketplace listing created by a seller.
#[derive(Clone, Debug)]
pub struct Listing {
    pub id: u64,
    pub seller: String,
    pub state: ListingState,
}

/// A buyer's offer on a listing.
#[derive(Clone, Debug)]
pub struct Offer {
    pub id: u64,
    pub listing_id: u64,
    pub maker: String,
    pub price: i128,
    pub state: OfferState,
}

impl Listing {
    /// A field-by-field copy.
    pub fn copy(&self) -> (r: Self)
        ensures
            r == *self,
    {
        Listing { id: self.id, seller: self.seller.clone(), state: self.state }
    }
}

impl Offer {
    /// A field-by-field copy.
    pub fn copy(&self) -> (r: Self)
        ensures
            r == *self,
    {
        Offer {
            id: self.id,
            listing_id: self.listing_id,
            maker: self.maker.clone(),
            price: self.price,
            state: self.state,
        }
    }
}

/// What the marketplace holds.
#[verifier::ext_equal]
pub struct MarketView {
    pub admin: Option<String>,
    pub max_offers_per_listing: u32,
    /// Listings in id order; the listing with id `i + 1` stands at `i`.
    pub listings: Seq<Listing>,
    /// Offers in id order; the offer with id `i + 1` stands at `i`.
    pub offers: Seq<Offer>,
    /// The stored active-offer counter of each listing, in listing order.
    pub active_counts: Seq<u32>,
}

/// The marketplace contract's storage.
#[derive(Debug)]
pub struct MarketplaceContract {
    admin: Option<String>,
    max_offers_per_listing: u32,
    listings: Vec<Listing>,
    offers: Vec<Offer>,
    active_counts: Vec<u32>,
}

impl View for MarketplaceContract {
    type V = MarketView;

    closed spec fn view(&self) -> MarketView {
        MarketView {
            admin: self.admin,
            max_offers_per_listing: self.max_offers_per_listing,
            listings: self.listings@,
            offers: self.offers@,
            active_counts: self.active_counts@,
        }
    }
}

// ---------------------------------------------------------------------------
// The model
// ---------------------------------------------------------------------------

/// The number of active offers on listing `listing_id` among `offers`.
pub open spec fn active_offers(offers: Seq<Offer>, listing_id: u64) -> nat
    decreases offers.len(),
{
    if offers.len() == 0 {
        0
    } else {
        active_offers(offers.drop_last(), listing_id) + if offers.last().listing_id == listing_id
            && offers.last().state == OfferState::Active {
            1nat
        } else {
            0nat
        }
    }
}

/// Each listing's counter is its number of active offers, which the limit bounds.
#[verifier::opaque]
pub open spec fn counts_match(v: MarketView) -> bool {
    forall|i: int|
        0 <= i < v.listings.len() ==> #[trigger] v.active_counts[i] == active_offers(
            v.offers,
            (i + 1) as u64,
        ) && v.active_counts[i] <= v.max_offers_per_listing
}

impl MarketView {
    /// The storage invariant: listings and offers stand at their id, every
    /// offer is on an existing listing, no listing exists before
    /// initialisation, and each listing's counter is its number of active
    /// offers, at most the limit.
    pub open spec fn wf(self) -> bool {
        &&& forall|i: int| 0 <= i < self.listings.len() ==> #[trigger] self.listings[i].id == i + 1
        &&& forall|i: int| 0 <= i < self.offers.len() ==> #[trigger] self.offers[i].id == i + 1
        &&& self.listings.len() <= u64::MAX
        &&& self.offers.len() <= u64::MAX
        &&& self.active_counts.len() == self.listings.len()
        &&& forall|i: int|
            0 <= i < self.offers.len() ==> 1 <= #[trigger] self.offers[i].listing_id
                <= self.listings.len()
        &&& self.admin is None ==> self.listings.len() == 0
        &&& counts_match(self)
    }

    /// The listing with id `id`, if it exists.
    pub open spec fn listing(self, id: u64) -> Option<Listing> {
        if 1 <= id <= self.listings.len() {
            Some(self.listings[id - 1])
        } else {
            None
        }
    }

    /// The offer with id `id`, if it exists.
    pub open spec fn offer(self, id: u64) -> Option<Offer> {
        if 1 <= id <= self.offers.len() {
            Some(self.offers[id - 1])
        } else {
            None
        }
    }

    /// The active-offer counter of listing `id`; 0 for an unknown listing.
    pub open spec fn active_count(self, id: u64) -> u32 {
        if 1 <= id <= self.active_counts.len() {
            self.active_counts[id - 1]
        } else {
            0
        }
    }

    /// The view with offer `id` moved to `state` and its listing's counter
    /// lowered by one (not below zero).
    pub open spec fn settle(self, id: u64, state: OfferState) -> MarketView {
        let o = self.offers[id - 1];
        let c = self.active_counts[o.listing_id - 1];
        MarketView {
            offers: self.offers.update(id - 1, Offer { state, ..o }),
            active_counts: self.active_counts.update(
                o.listing_id - 1,
                if c > 0 {
                    (c - 1) as u32
                } else {
                    0
                },
            ),
            ..self
        }
    }
}

/// The outcome of `initialize`.
pub open spec fn initialize_spec(v: MarketView, admin: String, max_offers_per_listing: u32) -> Result<
    MarketView,
    ContractError,
> {
    if spec_is_zero_address(admin@) {
        Err(ContractError::InvalidAddress)
    } else if v.admin is Some {
        Err(ContractError::AlreadyInitialized)
    } else {
        Ok(
            MarketView {
                admin: Some(admin),
                max_offers_per_listing: if max_offers_per_listing == 0 {
                    MAX_OFFERS_PER_LISTING
                } else {
                    max_offers_per_listing
                },
                ..v
            },
        )
    }
}

/// The outcome of `create_listing`.
pub open spec fn create_listing_spec(v: MarketView, seller: String) -> Result<
    (MarketView, u64),
    ContractError,
> {
    if v.admin is None {
        Err(ContractError::NotInitialized)
    } else if spec_is_zero_address(seller@) {
        Err(ContractError::InvalidAddress)
    } else if v.listings.len() + 1 > u64::MAX {
        Err(ContractError::ListingCountOverflow)
    } else {
        let id = (v.listings.len() + 1) as u64;
        Ok(
            (
                MarketView {
                    listings: v.listings.push(Listing { id, seller, state: ListingState::Active }),
                    active_counts: v.active_counts.push(0),
                    ..v
                },
                id,
            ),
        )
    }
}

/// The outcome of `close_listing`: only the listing's seller may close an
/// active listing.
pub open spec fn close_listing_spec(v: MarketView, seller: String, listing_id: u64) -> Result<
    MarketView,
    ContractError,
> {
    if v.listing(listing_id) is None {
        Err(ContractError::ListingNotFound)
    } else if v.listing(listing_id).unwrap().state != ListingState::Active {
        Err(ContractError::ListingNotActive)
    } else if v.listing(listing_id).unwrap().seller@ != seller@ {
        Err(ContractError::NotAdmin)
    } else {
        Ok(
            MarketView {
                listings: v.listings.update(
                    listing_id - 1,
                    Listing { state: ListingState::Closed, ..v.listing(listing_id).unwrap() },
                ),
                ..v
            },
        )
    }
}

/// The outcome of `make_offer`.
pub open spec fn make_offer_spec(v: MarketView, maker: String, listing_id: u64, price: i128) -> Result<
    (MarketView, u64),
    ContractError,
> {
    if spec_is_zero_address(maker@) {
        Err(ContractError::InvalidAddress)
    } else if v.listing(listing_id) is None {
        Err(ContractError::ListingNotFound)
    } else if v.listing(listing_id).unwrap().state != ListingState::Active {
        Err(ContractError::ListingNotActive)
    } else if price <= 0 {
        Err(ContractError::InvalidPrice)
    } else if v.active_count(listing_id) >= v.max_offers_per_listing {
        Err(ContractError::OfferLimitReached)
    } else if v.offers.len() + 1 > u64::MAX {
        Err(ContractError::OfferCountOverflow)
    } else {
        let id = (v.offers.len() + 1) as u64;
        Ok(
            (
                MarketView {
                    offers: v.offers.push(
                        Offer { id, listing_id, maker, price, state: OfferState::Active },
                    ),
                    active_counts: v.active_counts.update(
                        listing_id - 1,
                        (v.active_count(listing_id) + 1) as u32,
                    ),
                    ..v
                },
                id,
            ),
        )
    }
}

/// The outcome of `accept_offer` (`state` Accepted) or `reject_offer`
/// (`state` Rejected): only the listing's seller may settle an active offer.
pub open spec fn settle_by_seller_spec(
    v: MarketView,
    seller: String,
    offer_id: u64,
    state: OfferState,
) -> Result<MarketView, ContractError> {
    if v.offer(offer_id) is None {
        Err(ContractError::OfferNotFound)
    } else if v.offer(offer_id).unwrap().state != OfferState::Active {
        Err(ContractError::OfferNotActive)
    } else if v.listing(v.offer(offer_id).unwrap().listing_id) is None {
        Err(ContractError::ListingNotFound)
    } else if v.listing(v.offer(offer_id).unwrap().listing_id).unwrap().seller@ != seller@ {
        Err(ContractError::NotAdmin)
    } else {
        Ok(v.settle(offer_id, state))
    }
}

/// The outcome of `withdraw_offer`: only the maker may withdraw an active offer.
pub open spec fn withdraw_offer_spec(v: MarketView, maker: String, offer_id: u64) -> Result<
    MarketView,
    ContractError,
> {
    if v.offer(offer_id) is None {
        Err(ContractError::OfferNotFound)
    } else if v.offer(offer_id).unwrap().state != OfferState::Active {
        Err(ContractError::OfferNotActive)
    } else if v.offer(offer_id).unwrap().maker@ != maker@ {
        Err(ContractError::NotOfferMaker)
    } else {
        Ok(v.settle(offer_id, OfferState::Withdrawn))
    }
}

/// A call that returned `r` left the contract in `post` exactly as `outcome` says.
pub open spec fn follows<T>(
    outcome: Result<(MarketView, T), ContractError>,
    pre: MarketView,
    post: MarketView,
    r: Result<T, ContractError>,
) -> bool {
    match outcome {
        Ok((v, x)) => r == Ok::<T, ContractError>(x) && post == v,
        Err(e) => r == Err::<T, ContractError>(e) && post == pre,
    }
}

/// An outcome that returns nothing on success, as one that returns `()`.
pub open spec fn unit(outcome: Result<MarketView, ContractError>) -> Result<
    (MarketView, ()),
    ContractError,
> {
    match outcome {
        Ok(v) => Ok((v, ())),
        Err(e) => Err(e),
    }
}

// ---------------------------------------------------------------------------
// Lemmas
// ---------------------------------------------------------------------------

/// A new offer at the end counts only toward its own listing.
proof fn lemma_active_push(offers: Seq<Offer>, o: Offer, id: u64)
    ensures
        active_offers(offers.push(o), id) == active_offers(offers, id) + if o.listing_id == id
            && o.state == OfferState::Active {
            1nat
        } else {
            0nat
        },
{
    assert(offers.push(o).drop_last() =~= offers);
}

/// Changing one offer's state changes its listing's count accordingly.
proof fn lemma_active_update(offers: Seq<Offer>, i: int, o: Offer, id: u64)
    requires
        0 <= i < offers.len(),
        o.listing_id == offers[i].listing_id,
    ensures
        active_offers(offers.update(i, o), id) + (if offers[i].listing_id == id && offers[i].state
            == OfferState::Active {
            1nat
        } else {
            0nat
        }) == active_offers(offers, id) + (if o.listing_id == id && o.state
            == OfferState::Active {
            1nat
        } else {
            0nat
        }),
    decreases offers.len(),
{
    if i == offers.len() - 1 {
        assert(offers.update(i, o).drop_last() =~= offers.drop_last());
    } else {
        lemma_active_update(offers.drop_last(), i, o, id);
        assert(offers.update(i, o).drop_last() =~= offers.drop_last().update(i, o));
    }
}

/// No offer is on a listing none of the offers refers to.
proof fn lemma_active_absent(offers: Seq<Offer>, id: u64)
    requires
        forall|i: int| 0 <= i < offers.len() ==> #[trigger] offers[i].listing_id != id,
    ensures
        active_offers(offers, id) == 0,
    decreases offers.len(),
{
    if offers.len() > 0 {
        lemma_active_absent(offers.drop_last(), id);
    }
}

// ---------------------------------------------------------------------------
// The contract
// ---------------------------------------------------------------------------

impl MarketplaceContract {
    /// A freshly deployed, uninitialised marketplace.
    pub fn new() -> (r: Self)
        ensures
            r@.wf(),
            r@.admin is None,
            r@.max_offers_per_listing == MAX_OFFERS_PER_LISTING,
            r@.listings.len() == 0,
            r@.offers.len() == 0,
    {
        let r = MarketplaceContract {
            admin: None,
            max_offers_per_listing: MAX_OFFERS_PER_LISTING,
            listings: Vec::new(),
            offers: Vec::new(),
            active_counts: Vec::new(),
        };
        proof {
            reveal(counts_match);
        }
        r
    }

    /// The index of listing `id`, if it exists.
    fn listing_index(&self, id: u64) -> (r: Option<usize>)
        requires
            self@.wf(),
        ensures
            match r {
                Some(k) => 1 <= id <= self@.listings.len() && k == id - 1,
                None => self@.listing(id) is None,
            },
    {
        if id >= 1 && id <= self.listings.len() as u64 {
            Some((id - 1) as usize)
        } else {
            None
        }
    }

    /// The index of offer `id`, if it exists.
    fn offer_index(&self, id: u64) -> (r: Option<usize>)
        requires
            self@.wf(),
        ensures
            match r {
                Some(k) => 1 <= id <= self@.offers.len() && k == id - 1,
                None => self@.offer(id) is None,
            },
    {
        if id >= 1 && id <= self.offers.len() as u64 {
            Some((id - 1) as usize)
        } else {
            None
        }
    }

    /// Initialises the marketplace with an admin and a per-listing limit on
    /// active offers (0 selects the default of 10).
    pub fn initialize(&mut self, admin: String, max_offers_per_listing: u32) -> (r: Result<
        (),
        ContractError,
    >)
        requires
            old(self)@.wf(),
        ensures
            final(self)@.wf(),
            follows(
                unit(initialize_spec(old(self)@, admin, max_offers_per_listing)),
                old(self)@,
                final(self)@,
                r,
            ),
    {
        if is_zero_address(&admin) {
            return Err(ContractError::InvalidAddress);
        }
        if self.admin.is_some() {
            return Err(ContractError::AlreadyInitialized);
        }
        let limit = if max_offers_per_listing == 0 {
            MAX_OFFERS_PER_LISTING
        } else {
            max_offers_per_listing
        };
        self.admin = Some(admin);
        self.max_offers_per_listing = limit;
        proof {
            reveal(counts_match);
        }
        Ok(())
    }

    /// Creates a listing for `seller` and returns its id, the next in sequence.
    pub fn create_listing(&mut self, seller: String) -> (r: Result<u64, ContractError>)
        requires
            old(self)@.wf(),
        ensures
            final(self)@.wf(),
            follows(create_listing_spec(old(self)@, seller), old(self)@, final(self)@, r),
    {
        if self.admin.is_none() {
            return Err(ContractError::NotInitialized);
        }
        if is_zero_address(&seller) {
            return Err(ContractError::InvalidAddress);
        }
        let count = self.listings.len() as u64;
        if count == u64::MAX {
            return Err(ContractError::ListingCountOverflow);
        }
        let id = count + 1;
        let ghost v = self@;
        self.listings.push(Listing { id, seller, state: ListingState::Active });
        self.active_counts.push(0);
        proof {
            reveal(counts_match);
            let w = self@;
            lemma_active_absent(v.offers, id);
            assert forall|i: int| 0 <= i < w.listings.len() implies #[trigger] w.active_counts[i]
                == active_offers(w.offers, (i + 1) as u64) && w.active_counts[i]
                <= w.max_offers_per_listing by {
                if i < v.listings.len() {
                    assert(w.active_counts[i] == v.active_counts[i]);
                }
            }
        }
        Ok(id)
    }

    /// The listing's seller closes an active listing; it takes no new offers.
    pub fn close_listing(&mut self, seller: String, listing_id: u64) -> (r: Result<
        (),
        ContractError,
    >)
        requires
            old(self)@.wf(),
        ensures
            final(self)@.wf(),
            follows(unit(close_listing_spec(old(self)@, seller, listing_id)), old(self)@, final(self)@, r),
    {
        let k = match self.listing_index(listing_id) {
            None => {
                return Err(ContractError::ListingNotFound);
            },
            Some(k) => k,
        };
        if self.listings[k].state != ListingState::Active {
            return Err(ContractError::ListingNotActive);
        }
        if self.listings[k].seller != seller {
            return Err(ContractError::NotAdmin);
        }
        let ghost v = self@;
        let mut l = self.listings[k].copy();
        l.state = ListingState::Closed;
        self.listings.set(k, l);
        proof {
            reveal(counts_match);
            let w = self@;
            assert forall|i: int| 0 <= i < w.listings.len() implies #[trigger] w.listings[i].id == i
                + 1 by {
                if i != k {
                    assert(w.listings[i] == v.listings[i]);
                }
            }
        }
        Ok(())
    }

    /// Places an offer of `price` on an active listing below its offer limit,
    /// and returns the offer's id, the next in sequence.
    pub fn make_offer(&mut self, maker: String, listing_id: u64, price: i128) -> (r: Result<
        u64,
        ContractError,
    >)
        requires
            old(self)@.wf(),
        ensures
            final(self)@.wf(),
            follows(make_offer_spec(old(self)@, maker, listing_id, price), old(self)@, final(self)@, r),
    {
        if is_zero_address(&maker) {
            return Err(ContractError::InvalidAddress);
        }
        let k = match self.listing_index(listing_id) {
            None => {
                return Err(ContractError::ListingNotFound);
            },
            Some(k) => k,
        };
        if self.listings[k].state != ListingState::Active {
            return Err(ContractError::ListingNotActive);
        }
        if price <= 0 {
            return Err(ContractError::InvalidPrice);
        }
        let active = self.active_counts[k];
        let limit = self.max_offers_per_listing;
        if active >= limit {
            return Err(ContractError::OfferLimitReached);
        }
        let count = self.offers.len() as u64;
        if count == u64::MAX {
            return Err(ContractError::OfferCountOverflow);
        }
        let id = count + 1;
        let ghost v = self@;
        let offer = Offer { id, listing_id, maker, price, state: OfferState::Active };
        self.offers.push(offer);
        self.active_counts.set(k, active + 1);
        proof {
            reveal(counts_match);
            let w = self@;
            assert(w.active_counts =~= v.active_counts.update(k as int, (active + 1) as u32));
            assert forall|i: int| 0 <= i < w.listings.len() implies #[trigger] w.active_counts[i]
                == active_offers(w.offers, (i + 1) as u64) && w.active_counts[i]
                <= w.max_offers_per_listing by {
                lemma_active_push(v.offers, offer, (i + 1) as u64);
                assert(v.active_counts[i] == active_offers(v.offers, (i + 1) as u64));
            }
        }
        Ok(id)
    }

    /// Moves an active offer at index `k` to `state`, releasing one slot of
    /// its listing.
    fn settle(&mut self, k: usize, state: OfferState)
        requires
            old(self)@.wf(),
            k < old(self)@.offers.len(),
            old(self)@.offers[k as int].state == OfferState::Active,
            state != OfferState::Active,
        ensures
            final(self)@ == old(self)@.settle((k + 1) as u64, state),
            final(self)@.wf(),
    {
        let ghost v = self@;
        let mut o = self.offers[k].copy();
        let n_listings = self.listings.len();
        assert(1 <= v.offers[k as int].listing_id <= n_listings);
        let lk = (o.listing_id - 1) as usize;
        o.state = state;
        let c = self.active_counts[lk];
        let lowered = if c > 0 {
            c - 1
        } else {
            0
        };
        self.offers.set(k, o);
        self.active_counts.set(lk, lowered);
        proof {
            reveal(counts_match);
            let w = self@;
            assert(v.offers[k as int].listing_id == o.listing_id);
            assert(lk == o.listing_id - 1);
            assert(w.offers =~= v.settle((k + 1) as u64, state).offers);
            assert(w.active_counts =~= v.settle((k + 1) as u64, state).active_counts);
            assert(w =~= v.settle((k + 1) as u64, state));
            assert forall|i: int| 0 <= i < w.offers.len() implies #[trigger] w.offers[i].id == i
                + 1 by {
                if i != k {
                    assert(w.offers[i] == v.offers[i]);
                }
            }
            assert forall|i: int|
                0 <= i < w.offers.len() implies 1 <= #[trigger] w.offers[i].listing_id
                <= w.listings.len() by {
                if i != k {
                    assert(w.offers[i] == v.offers[i]);
                }
            }
            assert forall|i: int| 0 <= i < w.listings.len() implies #[trigger] w.active_counts[i]
                == active_offers(w.offers, (i + 1) as u64) && w.active_counts[i]
                <= w.max_offers_per_listing by {
                lemma_active_update(v.offers, k as int, o, (i + 1) as u64);
                assert(v.active_counts[i] == active_offers(v.offers, (i + 1) as u64));
            }
        }
    }

    /// The listing's seller accepts an active offer, releasing one slot.
    pub fn accept_offer(&mut self, seller: String, offer_id: u64) -> (r: Result<
        (),
        ContractError,
    >)
        requires
            old(self)@.wf(),
        ensures
            final(self)@.wf(),
            follows(
                unit(settle_by_seller_spec(old(self)@, seller, offer_id, OfferState::Accepted)),
                old(self)@,
                final(self)@,
                r,
            ),
    {
        self.settle_by_seller(seller, offer_id, OfferState::Accepted)
    }

    /// The listing's seller rejects an active offer, releasing one slot.
    pub fn reject_offer(&mut self, seller: String, offer_id: u64) -> (r: Result<
        (),
        ContractError,
    >)
        requires
            old(self)@.wf(),
        ensures
            final(self)@.wf(),
            follows(
                unit(settle_by_seller_spec(old(self)@, seller, offer_id, OfferState::Rejected)),
                old(self)@,
                final(self)@,
                r,
            ),
    {
        self.settle_by_seller(seller, offer_id, OfferState::Rejected)
    }

    /// Accepts or rejects an active offer on behalf of the listing's seller.
    fn settle_by_seller(&mut self, seller: String, offer_id: u64, state: OfferState) -> (r: Result<
        (),
        ContractError,
    >)
        requires
            old(self)@.wf(),
            state != OfferState::Active,
        ensures
            final(self)@.wf(),
            follows(
                unit(settle_by_seller_spec(old(self)@, seller, offer_id, state)),
                old(self)@,
                final(self)@,
                r,
            ),
    {
        let k = match self.offer_index(offer_id) {
            None => {
                return Err(ContractError::OfferNotFound);
            },
            Some(k) => k,
        };
        if self.offers[k].state != OfferState::Active {
            return Err(ContractError::OfferNotActive);
        }
        let lk = match self.listing_index(self.offers[k].listing_id) {
            None => {
                return Err(ContractError::ListingNotFound);
            },
            Some(lk) => lk,
        };
        if self.listings[lk].seller != seller {
            return Err(ContractError::NotAdmin);
        }
        self.settle(k, state);
        Ok(())
    }

    /// The offer's maker withdraws an active offer, releasing one slot.
    pub fn withdraw_offer(&mut self, maker: String, offer_id: u64) -> (r: Result<
        (),
        ContractError,
    >)
        requires
            old(self)@.wf(),
        ensures
            final(self)@.wf(),
            follows(unit(withdraw_offer_spec(old(self)@, maker, offer_id)), old(self)@, final(self)@, r),
    {
        let k = match self.offer_index(offer_id) {
            None => {
                return Err(ContractError::OfferNotFound);
            },
            Some(k) => k,
        };
        if self.offers[k].state != OfferState::Active {
            return Err(ContractError::OfferNotActive);
        }
        if self.offers[k].maker != maker {
            return Err(ContractError::NotOfferMaker);
        }
        self.settle(k, OfferState::Withdrawn);
        Ok(())
    }

    /// The number of active offers on listing `listing_id` (0 for an unknown listing).
    pub fn active_offer_count(&self, listing_id: u64) -> (r: u32)
        requires
            self@.wf(),
        ensures
            r == self@.active_count(listing_id),
    {
        match self.listing_index(listing_id) {
            Some(k) => self.active_counts[k],
            None => 0,
        }
    }

    /// The configured per-listing limit on active offers.
    pub fn max_offers_per_listing(&self) -> (r: u32)
        ensures
            r == self@.max_offers_per_listing,
    {
        self.max_offers_per_listing
    }

    /// The listing with id `listing_id`.
    pub fn get_listing(&self, listing_id: u64) -> (r: Result<Listing, ContractError>)
        requires
            self@.wf(),
        ensures
            r == (match self@.listing(listing_id) {
                Some(l) => Ok(l),
                None => Err(ContractError::ListingNotFound),
            }),
    {
        match self.listing_index(listing_id) {
            Some(k) => Ok(self.listings[k].copy()),
            None => Err(ContractError::ListingNotFound),
        }
    }

    /// The offer with id `offer_id`.
    pub fn get_offer(&self, offer_id: u64) -> (r: Result<Offer, ContractError>)
        requires
            self@.wf(),
        ensures
            r == (match self@.offer(offer_id) {
                Some(o) => Ok(o),
                None => Err(ContractError::OfferNotFound),
            }),
    {
        match self.offer_index(offer_id) {
            Some(k) => Ok(self.offers[k].copy()),
            None => Err(ContractError::OfferNotFound),
        }
    }
}

// ---------------------------------------------------------------------------
// Laws
// ---------------------------------------------------------------------------

/// An active offer counts toward its listing's number of active offers.
proof fn lemma_active_at(offers: Seq<Offer>, k: int)
    requires
        0 <= k < offers.len(),
        offers[k].state == OfferState::Active,
    ensures
        active_offers(offers, offers[k].listing_id) >= 1,
    decreases offers.len(),
{
    if k < offers.len() - 1 {
        lemma_active_at(offers.drop_last(), k);
    }
}

/// A listing never holds more active offers than the limit: at the limit an
/// offer is refused with `OfferLimitReached`, and each listing's counter is
/// the number of its offers that are active.
pub proof fn law_offer_limit(v: MarketView, maker: String, listing_id: u64, price: i128)
    requires
        v.wf(),
        1 <= listing_id <= v.listings.len(),
    ensures
        v.active_count(listing_id) == active_offers(v.offers, listing_id),
        v.active_count(listing_id) <= v.max_offers_per_listing,
        !spec_is_zero_address(maker@) && v.listing(listing_id).unwrap().state
            == ListingState::Active && price > 0 && v.active_count(listing_id)
            >= v.max_offers_per_listing ==> make_offer_spec(v, maker, listing_id, price) == Err::<
            (MarketView, u64),
            ContractError,
        >(ContractError::OfferLimitReached),
{
    reveal(counts_match);
    assert(v.active_counts[listing_id - 1] == active_offers(v.offers, ((listing_id - 1) + 1) as u64));
}

/// Settling an active offer (accepting, rejecting or withdrawing it) frees
/// exactly one slot of its listing: the listing's active-offer count drops by
/// one and the offer leaves the active state.
pub proof fn law_settle_frees_slot(v: MarketView, offer_id: u64, state: OfferState)
    requires
        v.wf(),
        v.offer(offer_id) matches Some(o) && o.state == OfferState::Active,
        state != OfferState::Active,
    ensures
        ({
            let o = v.offer(offer_id).unwrap();
            let v2 = v.settle(offer_id, state);
            &&& v.active_count(o.listing_id) >= 1
            &&& v2.active_count(o.listing_id) == v.active_count(o.listing_id) - 1
            &&& v2.offer(offer_id) == Some(Offer { state, ..o })
        }),
{
    reveal(counts_match);
    let o = v.offer(offer_id).unwrap();
    let k = offer_id - 1;
    assert(1 <= v.offers[k].listing_id <= v.listings.len());
    lemma_active_at(v.offers, k);
    let li = o.listing_id - 1;
    assert(v.active_counts[li] == active_offers(v.offers, (li + 1) as u64));
}

/// Offer ids are sequential: a placed offer gets the next id and occupies one
/// more slot of its listing.
pub proof fn law_offer_ids_sequential(v: MarketView, maker: String, listing_id: u64, price: i128)
    requires
        v.wf(),
        make_offer_spec(v, maker, listing_id, price) is Ok,
    ensures
        ({
            let (v2, id) = make_offer_spec(v, maker, listing_id, price)->Ok_0;
            &&& id == v.offers.len() + 1
            &&& v2.offer(id) == Some(
                Offer { id, listing_id, maker, price, state: OfferState::Active },
            )
            &&& v2.active_count(listing_id) == v.active_count(listing_id) + 1
        }),
{
}

/// Only a listing's seller can close it: a successful close was asked for by
/// the seller of an active listing, and leaves it closed.
pub proof fn law_only_seller_closes(v: MarketView, caller: String, listing_id: u64)
    requires
        close_listing_spec(v, caller, listing_id) is Ok,
    ensures
        v.listing(listing_id) is Some,
        v.listing(listing_id).unwrap().seller@ == caller@,
        v.listing(listing_id).unwrap().state == ListingState::Active,
        close_listing_spec(v, caller, listing_id)->Ok_0.listing(listing_id).unwrap().state
            == ListingState::Closed,
{
}

/// The settled state is the one the operation names: a successful
/// `accept_offer` leaves the offer `Accepted`, a successful `reject_offer`
/// leaves it `Rejected` and a successful `withdraw_offer` leaves it
/// `Withdrawn`; the offer is otherwise unchanged, and every other offer stays
/// as it was.
pub proof fn law_settled_state_is_named(v: MarketView, caller: String, offer_id: u64, other: u64)
    ensures
        settle_by_seller_spec(v, caller, offer_id, OfferState::Accepted) is Ok ==> {
            let v2 = settle_by_seller_spec(v, caller, offer_id, OfferState::Accepted)->Ok_0;
            &&& v2.offer(offer_id) == Some(
                Offer { state: OfferState::Accepted, ..v.offer(offer_id).unwrap() },
            )
            &&& other != offer_id ==> v2.offer(other) == v.offer(other)
        },
        settle_by_seller_spec(v, caller, offer_id, OfferState::Rejected) is Ok ==> {
            let v2 = settle_by_seller_spec(v, caller, offer_id, OfferState::Rejected)->Ok_0;
            &&& v2.offer(offer_id) == Some(
                Offer { state: OfferState::Rejected, ..v.offer(offer_id).unwrap() },
            )
            &&& other != offer_id ==> v2.offer(other) == v.offer(other)
        },
        withdraw_offer_spec(v, caller, offer_id) is Ok ==> {
            let v2 = withdraw_offer_spec(v, caller, offer_id)->Ok_0;
            &&& v2.offer(offer_id) == Some(
                Offer { state: OfferState::Withdrawn, ..v.offer(offer_id).unwrap() },
            )
            &&& other != offer_id ==> v2.offer(other) == v.offer(other)
        },
{
}

/// Setting up the marketplace and opening listings: initialising stores the
/// admin and the offer limit, 10 where 0 is passed; a new listing gets the
/// next id, belongs to the seller who opened it, is active and holds no
/// active offer.
pub proof fn law_listings_open(v: MarketView, admin: String, max_offers_per_listing: u32, seller: String)
    requires
        v.wf(),
    ensures
        initialize_spec(v, admin, max_offers_per_listing) is Ok ==> {
            let v2 = initialize_spec(v, admin, max_offers_per_listing)->Ok_0;
            &&& v.admin is None
            &&& v2.admin == Some(admin)
            &&& v2.max_offers_per_listing == if max_offers_per_listing == 0 {
                10
            } else {
                max_offers_per_listing
            }
        },
        create_listing_spec(v, seller) is Ok ==> {
            let (v2, id) = create_listing_spec(v, seller)->Ok_0;
            &&& id == v.listings.len() + 1
            &&& v2.listing(id) == Some(Listing { id, seller, state: ListingState::Active })
            &&& v2.active_count(id) == 0
            &&& forall|l: u64| l != id ==> #[trigger] v2.listing(l) == v.listing(l)
        },
{
}

} // verus!

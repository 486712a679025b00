//! The records handed over by the indexing service, the derived collection
//! figures, and the failures of a query.
use vstd::prelude::*;
use vstd::string::StringExecFns;

verus! {

/// A token offered for sale on the marketplace.
#[derive(Debug)]
pub struct Listing {
    pub id: String,
    pub owner: String,
    pub token_id: String,
    pub nft_contract_address: String,
    /// Asking price in the smallest currency unit, as a decimal string.
    pub price: String,
    pub is_active: bool,
    pub block_number: String,
    pub block_timestamp: String,
    pub transaction_hash: String,
}

impl Clone for Listing {
    fn clone(&self) -> (r: Self)
        ensures
            r == *self,
    {
        Listing {
            id: self.id.clone(),
            owner: self.owner.clone(),
            token_id: self.token_id.clone(),
            nft_contract_address: self.nft_contract_address.clone(),
            price: self.price.clone(),
            is_active: self.is_active,
            block_number: self.block_number.clone(),
            block_timestamp: self.block_timestamp.clone(),
            transaction_hash: self.transaction_hash.clone(),
        }
    }
}

/// A completed sale of a token.
#[derive(Debug)]
pub struct Purchase {
    pub id: String,
    pub buyer: String,
    /// The seller, owner of the token at the time of the sale.
    pub owner: String,
    pub token_id: String,
    pub nft_contract_address: String,
    /// Price paid in the smallest currency unit, as a decimal string.
    pub price: String,
    pub block_number: String,
    pub block_timestamp: String,
    pub transaction_hash: String,
}

impl Clone for Purchase {
    fn clone(&self) -> (r: Self)
        ensures
            r == *self,
    {
        Purchase {
            id: self.id.clone(),
            buyer: self.buyer.clone(),
            owner: self.owner.clone(),
            token_id: self.token_id.clone(),
            nft_contract_address: self.nft_contract_address.clone(),
            price: self.price.clone(),
            block_number: self.block_number.clone(),
            block_timestamp: self.block_timestamp.clone(),
            transaction_hash: self.transaction_hash.clone(),
        }
    }
}

/// Floor price and traded volume of one collection (one contract address).
#[derive(Debug)]
pub struct CollectionData {
    pub id: String,
    pub floor_price: i64,
    pub traded_volume: i64,
}

/// The full listing set, as the indexing service returns it.
#[derive(Debug)]
pub struct ListingsData {
    pub lists: Vec<Listing>,
}

/// The full purchase set, as the indexing service returns it.
#[derive(Debug)]
pub struct PurchasesData {
    pub buys: Vec<Purchase>,
}

/// The (empty) variables sent along with the upstream queries.
#[derive(Debug, Clone, Copy, PartialEq, Eq)]
pub struct Vars {}

/// Why a query produced no result.
#[derive(Debug)]
pub enum QueryError {
    /// No listing is active.
    NoActiveListings,
    /// No active listing belongs to this (lowercased) owner.
    NoActiveListingsForOwner(String),
    /// No purchase was made by this (lowercased) buyer.
    NoPurchasesForAddress(String),
    /// No listing with a readable price belongs to this (lowercased) contract.
    NoCollection(String),
    /// A purchase of the collection carries a price that is not an integer.
    InvalidPrice,
    /// The traded volume of the collection does not fit in an `i64`.
    VolumeOverflow,
}

/// What a `QueryError` says, with addresses as character sequences.
pub enum Failure {
    NoActiveListings,
    NoActiveListingsForOwner(Seq<char>),
    NoPurchasesForAddress(Seq<char>),
    NoCollection(Seq<char>),
    InvalidPrice,
    VolumeOverflow,
}

impl View for QueryError {
    type V = Failure;

    open spec fn view(&self) -> Failure {
        match self {
            QueryError::NoActiveListings => Failure::NoActiveListings,
            QueryError::NoActiveListingsForOwner(a) => Failure::NoActiveListingsForOwner(a@),
            QueryError::NoPurchasesForAddress(a) => Failure::NoPurchasesForAddress(a@),
            QueryError::NoCollection(a) => Failure::NoCollection(a@),
            QueryError::InvalidPrice => Failure::InvalidPrice,
            QueryError::VolumeOverflow => Failure::VolumeOverflow,
        }
    }
}

impl Failure {
    /// A lookup that found nothing, as opposed to a fault in the data.
    pub open spec fn is_not_found(self) -> bool {
        !(self is InvalidPrice || self is VolumeOverflow)
    }
}

impl Failure {
    /// The text that describes the failure.
    pub open spec fn message(self) -> Seq<char> {
        match self {
            Failure::NoActiveListings => "No active listings found"@,
            Failure::NoActiveListingsForOwner(a) => "No active listings for owner "@ + a,
            Failure::NoPurchasesForAddress(a) => "No buys for address "@ + a,
            Failure::NoCollection(a) => "No collection with id "@ + a + " found"@,
            Failure::InvalidPrice => "A purchase price is not an integer"@,
            Failure::VolumeOverflow => "The traded volume is out of range"@,
        }
    }
}

impl QueryError {
    /// The text that describes the failure, naming the address looked up.
    pub fn message(&self) -> (r: String)
        ensures
            r@ == self@.message(),
    {
        match self {
            QueryError::NoActiveListings => "No active listings found".to_owned(),
            QueryError::NoActiveListingsForOwner(a) => {
                let mut m = "No active listings for owner ".to_owned();
                m.append(a.as_str());
                m
            },
            QueryError::NoPurchasesForAddress(a) => {
                let mut m = "No buys for address ".to_owned();
                m.append(a.as_str());
                m
            },
            QueryError::NoCollection(a) => {
                let mut m = "No collection with id ".to_owned();
                m.append(a.as_str());
                m.append(" found");
                m
            },
            QueryError::InvalidPrice => "A purchase price is not an integer".to_owned(),
            QueryError::VolumeOverflow => "The traded volume is out of range".to_owned(),
        }
    }

    /// True for a lookup that found nothing; false for a fault in the data.
    pub fn is_not_found(&self) -> (r: bool)
        ensures
            r == self@.is_not_found(),
    {
        match self {
            QueryError::InvalidPrice | QueryError::VolumeOverflow => false,
            _ => true,
        }
    }

    /// The HTTP status that answers this failure: 400 for a lookup that found
    /// nothing, 500 for a fault in the upstream data.
    pub fn status_code(&self) -> (r: u16)
        ensures
            r == (if self@.is_not_found() { 400u16 } else { 500u16 }),
    {
        if self.is_not_found() {
            400
        } else {
            500
        }
    }
}

} // verus!

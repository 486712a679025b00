//! Read queries over NFT marketplace activity: active listings, listings of an
//! owner, purchases of a buyer, and the floor price and traded volume of a
//! collection, computed from the full record sets of an indexing service.

pub mod model;
pub mod text;
pub mod query;
pub mod laws;

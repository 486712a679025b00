//! Properties that hold of the queries on every record set.
use vstd::prelude::*;
use crate::model::{Failure, Listing, ListingsData, Purchase, PurchasesData, QueryError};
use crate::query::{
    bought_by, collection_outcome, floor_outcome, keeps_listing, listing_floor, listings_outcome,
    of_collection, purchase_volume, purchases_outcome, selected_listings, selected_purchases,
    view_listings, view_purchases, volume_outcome,
};
use crate::text::{price_of, same_address};

verus! {

/// Without an owner, every listing returned is active.
pub proof fn lemma_all_listings_are_active(ls: Seq<Listing>)
    ensures
        listings_outcome(ls, None) matches Ok(v) ==> forall|i: int|
            0 <= i < v.len() ==> (#[trigger] v[i]).is_active,
{
    let pred = |l: Listing| keeps_listing(l, None);
    assert forall|i: int| 0 <= i < selected_listings(ls, None).len() implies (#[trigger] selected_listings(
        ls,
        None,
    )[i]).is_active by {
        ls.lemma_filter_pred(pred, i);
    }
}

/// With an owner, every listing returned is active and belongs to that owner,
/// addresses compared in lowercase.
pub proof fn lemma_owner_listings_match(ls: Seq<Listing>, owner: Seq<char>)
    ensures
        listings_outcome(ls, Some(owner)) matches Ok(v) ==> forall|i: int|
            0 <= i < v.len() ==> (#[trigger] v[i]).is_active && same_address(v[i].owner@, owner),
{
    let pred = |l: Listing| keeps_listing(l, Some(owner));
    assert forall|i: int| 0 <= i < selected_listings(ls, Some(owner)).len() implies (#[trigger] selected_listings(
        ls,
        Some(owner),
    )[i]).is_active && same_address(selected_listings(ls, Some(owner))[i].owner@, owner) by {
        ls.lemma_filter_pred(pred, i);
    }
}

/// The listing query fails, and then with a not-found failure, exactly when no
/// listing passes its filter.
pub proof fn lemma_listings_fail_iff_empty(ls: Seq<Listing>, owner: Option<Seq<char>>)
    ensures
        listings_outcome(ls, owner) is Err <==> selected_listings(ls, owner).len() == 0,
        listings_outcome(ls, owner) matches Err(e) ==> e.is_not_found(),
{
}

/// Every purchase returned was made by the buyer asked for, addresses compared
/// in lowercase; the query fails, with a not-found failure, exactly when there
/// is none.
pub proof fn lemma_buyer_purchases_match(ps: Seq<Purchase>, buyer: Seq<char>)
    ensures
        purchases_outcome(ps, buyer) matches Ok(v) ==> forall|i: int|
            0 <= i < v.len() ==> same_address((#[trigger] v[i]).buyer@, buyer),
        purchases_outcome(ps, buyer) is Err <==> selected_purchases(ps, buyer).len() == 0,
        purchases_outcome(ps, buyer) matches Err(e) ==> e.is_not_found(),
{
    let pred = |p: Purchase| bought_by(p, buyer);
    assert forall|i: int| 0 <= i < selected_purchases(ps, buyer).len() implies same_address(
        (#[trigger] selected_purchases(ps, buyer)[i]).buyer@,
        buyer,
    ) by {
        ps.lemma_filter_pred(pred, i);
    }
}

/// A listing of collection `c` whose price field reads as `p`.
pub open spec fn priced_listing(l: Listing, c: Seq<char>, p: i64) -> bool {
    of_collection(l.nft_contract_address@, c) && price_of(l.price@) == Some(p)
}

/// The floor price is the least readable price among the listings of the
/// collection, active or not; there is one exactly when some listing of the
/// collection has a readable price.
pub proof fn lemma_floor_is_least_price(ls: Seq<Listing>, c: Seq<char>)
    ensures
        listing_floor(ls, c) matches Some(v) ==> {
            &&& exists|k: int| 0 <= k < ls.len() && priced_listing(#[trigger] ls[k], c, v)
            &&& forall|k: int, p: i64|
                0 <= k < ls.len() && #[trigger] priced_listing(ls[k], c, p) ==> v <= p
        },
        listing_floor(ls, c) is None <==> forall|k: int, p: i64|
            0 <= k < ls.len() ==> !#[trigger] priced_listing(ls[k], c, p),
    decreases ls.len(),
{
    if ls.len() > 0 {
        let rest = ls.drop_last();
        lemma_floor_is_least_price(rest, c);
        assert forall|k: int| 0 <= k < rest.len() implies #[trigger] rest[k] == ls[k] by {}
        let l = ls.last();
        if listing_floor(ls, c) is None {
            assert forall|k: int, p: i64| 0 <= k < ls.len() implies !(#[trigger] priced_listing(ls[k], c, p)) by {
                if k < rest.len() {
                    assert(rest[k] == ls[k]);
                }
            }
        }
        if !(listing_floor(ls, c) is None) {
            let v = listing_floor(ls, c)->0;
            assert forall|k: int, p: i64|
                0 <= k < ls.len() && #[trigger] priced_listing(ls[k], c, p) implies v <= p by {
                if k < rest.len() {
                    assert(rest[k] == ls[k]);
                    assert(priced_listing(rest[k], c, p));
                } else {
                    assert(ls[k] == l);
                }
            }
        }
        if !(listing_floor(ls, c) is None) && !(listing_floor(rest, c) is None) {
            let m = listing_floor(rest, c)->0;
            let j = choose|j: int| 0 <= j < rest.len() && priced_listing(#[trigger] rest[j], c, m);
            assert(priced_listing(ls[j], c, m));
        }
        if !(listing_floor(ls, c) is None) && listing_floor(rest, c) is None {
            assert(priced_listing(ls[ls.len() - 1], c, price_of(l.price@)->0));
        }
    }
}

/// The collection query fails with a not-found failure exactly when no listing
/// of the collection is found, for record sets in which some listing of the
/// collection has a readable price whenever any listing of it exists.
pub proof fn lemma_collection_not_found_iff_unlisted(
    ls: Seq<Listing>,
    ps: Seq<Purchase>,
    c: Seq<char>,
)
    requires
        (exists|k: int| 0 <= k < ls.len() && of_collection((#[trigger] ls[k]).nft_contract_address@, c))
            ==> exists|k: int, p: i64| 0 <= k < ls.len() && #[trigger] priced_listing(ls[k], c, p),
    ensures
        (collection_outcome(ls, ps, c) matches Err(e) && e.is_not_found()) <==> forall|k: int|
            0 <= k < ls.len() ==> !of_collection((#[trigger] ls[k]).nft_contract_address@, c),
{
    lemma_floor_is_least_price(ls, c);
    if forall|k: int| 0 <= k < ls.len() ==> !of_collection((#[trigger] ls[k]).nft_contract_address@, c) {
        assert forall|k: int, p: i64| 0 <= k < ls.len() implies !(#[trigger] priced_listing(ls[k], c, p)) by {
            assert(!of_collection(ls[k].nft_contract_address@, c));
        }
    }
}

/// A collection without purchases has a traded volume of zero.
pub proof fn lemma_no_purchases_no_volume(ps: Seq<Purchase>, c: Seq<char>)
    requires
        forall|k: int| 0 <= k < ps.len() ==> !of_collection((#[trigger] ps[k]).nft_contract_address@, c),
    ensures
        purchase_volume(ps, c) == Some(0int),
        volume_outcome(ps, c) == Ok::<i64, Failure>(0),
    decreases ps.len(),
{
    if ps.len() > 0 {
        let rest = ps.drop_last();
        assert forall|k: int| 0 <= k < rest.len() implies !of_collection(
            (#[trigger] rest[k]).nft_contract_address@,
            c,
        ) by {
            assert(rest[k] == ps[k]);
        }
        lemma_no_purchases_no_volume(rest, c);
        assert(!of_collection(ps[ps.len() - 1].nft_contract_address@, c));
    }
}

/// The traded volume counts the purchases of the collection alone: adding a
/// purchase of another collection leaves it as it was, and adding one of the
/// collection with a readable price adds that price.
pub proof fn lemma_volume_adds_prices(ps: Seq<Purchase>, p: Purchase, c: Seq<char>)
    ensures
        !of_collection(p.nft_contract_address@, c) ==> purchase_volume(ps.push(p), c)
            == purchase_volume(ps, c),
        of_collection(p.nft_contract_address@, c) ==> (price_of(p.price@) matches Some(x)
            ==> purchase_volume(ps.push(p), c) == (match purchase_volume(ps, c) {
            Some(s) => Some(s + x),
            None => None::<int>,
        })),
{
    assert(ps.push(p).drop_last() =~= ps);
}

/// Two answers of the listing query on the same records and owner are equal.
pub proof fn lemma_listings_are_determined(
    data: ListingsData,
    owner: Option<Seq<char>>,
    r1: Result<Vec<Listing>, QueryError>,
    r2: Result<Vec<Listing>, QueryError>,
)
    requires
        view_listings(r1) == listings_outcome(data.lists@, owner),
        view_listings(r2) == listings_outcome(data.lists@, owner),
    ensures
        view_listings(r1) == view_listings(r2),
{
}

/// Two answers of the purchase query on the same records and buyer are equal.
pub proof fn lemma_purchases_are_determined(
    data: PurchasesData,
    buyer: Seq<char>,
    r1: Result<Vec<Purchase>, QueryError>,
    r2: Result<Vec<Purchase>, QueryError>,
)
    requires
        view_purchases(r1) == purchases_outcome(data.buys@, buyer),
        view_purchases(r2) == purchases_outcome(data.buys@, buyer),
    ensures
        view_purchases(r1) == view_purchases(r2),
{
}

/// Floor price, traded volume and their combination are functions of the
/// record sets and the collection address alone.
pub proof fn lemma_collection_is_determined(
    ls1: Seq<Listing>,
    ls2: Seq<Listing>,
    ps1: Seq<Purchase>,
    ps2: Seq<Purchase>,
    c: Seq<char>,
)
    requires
        ls1 == ls2,
        ps1 == ps2,
    ensures
        floor_outcome(ls1, c) == floor_outcome(ls2, c),
        volume_outcome(ps1, c) == volume_outcome(ps2, c),
        collection_outcome(ls1, ps1, c) == collection_outcome(ls2, ps2, c),
{
}

} // verus!

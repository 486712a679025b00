//! The four read operations, each a function of the record sets that the
//! indexing service returned and of the requested address.
use vstd::prelude::*;
use crate::model::{CollectionData, Failure, Listing, ListingsData, Purchase, PurchasesData, QueryError};
use crate::text::{lower_of, lowercase, parse_price, price_of, same_address};

verus! {

/// An active listing that, if an owner is given, belongs to that owner.
pub open spec fn keeps_listing(l: Listing, owner: Option<Seq<char>>) -> bool {
    l.is_active && match owner {
        Some(o) => same_address(l.owner@, o),
        None => true,
    }
}

/// The listings that `listings` returns, in upstream order.
pub open spec fn selected_listings(ls: Seq<Listing>, owner: Option<Seq<char>>) -> Seq<Listing> {
    ls.filter(|l: Listing| keeps_listing(l, owner))
}

/// What `listings` answers.
pub open spec fn listings_outcome(ls: Seq<Listing>, owner: Option<Seq<char>>) -> Result<
    Seq<Listing>,
    Failure,
> {
    let kept = selected_listings(ls, owner);
    if kept.len() > 0 {
        Ok(kept)
    } else {
        match owner {
            None => Err(Failure::NoActiveListings),
            Some(o) => Err(Failure::NoActiveListingsForOwner(lower_of(o))),
        }
    }
}

/// A purchase made by the given buyer.
pub open spec fn bought_by(p: Purchase, buyer: Seq<char>) -> bool {
    same_address(p.buyer@, buyer)
}

/// The purchases that `purchases` returns, in upstream order.
pub open spec fn selected_purchases(ps: Seq<Purchase>, buyer: Seq<char>) -> Seq<Purchase> {
    ps.filter(|p: Purchase| bought_by(p, buyer))
}

/// What `purchases` answers.
pub open spec fn purchases_outcome(ps: Seq<Purchase>, buyer: Seq<char>) -> Result<
    Seq<Purchase>,
    Failure,
> {
    let kept = selected_purchases(ps, buyer);
    if kept.len() > 0 {
        Ok(kept)
    } else {
        Err(Failure::NoPurchasesForAddress(lower_of(buyer)))
    }
}

pub open spec fn view_listings(r: Result<Vec<Listing>, QueryError>) -> Result<Seq<Listing>, Failure> {
    match r {
        Ok(v) => Ok(v@),
        Err(e) => Err(e@),
    }
}

pub open spec fn view_purchases(r: Result<Vec<Purchase>, QueryError>) -> Result<
    Seq<Purchase>,
    Failure,
> {
    match r {
        Ok(v) => Ok(v@),
        Err(e) => Err(e@),
    }
}

/// The active listings, all of them or those of one owner (compared without
/// regard to case), in upstream order; a not-found failure when none remain.
pub fn listings(data: &ListingsData, by_owner: Option<&str>) -> (r: Result<Vec<Listing>, QueryError>)
    ensures
        view_listings(r) == listings_outcome(
            data.lists@,
            match by_owner {
                Some(o) => Some(o@),
                None => None,
            },
        ),
{
    let ghost owner: Option<Seq<char>> = match by_owner {
        Some(o) => Some(o@),
        None => None,
    };
    let wanted: Option<String> = match by_owner {
        Some(o) => Some(lowercase(o)),
        None => None,
    };
    let ls = &data.lists;
    let mut kept: Vec<Listing> = Vec::new();
    let mut i: usize = 0;
    while i < ls.len()
        invariant
            i <= ls.len(),
            owner == (match by_owner {
                Some(o) => Some(o@),
                None => None,
            }),
            wanted.is_some() == owner.is_some(),
            wanted.is_some() ==> wanted.unwrap()@ == lower_of(owner.unwrap()),
            kept@ == selected_listings(ls@.subrange(0, i as int), owner),
        decreases ls.len() - i,
    {
        let l = &ls[i];
        let keep = if !l.is_active {
            false
        } else {
            match &wanted {
                Some(w) => {
                    let lo = lowercase(l.owner.as_str());
                    lo == *w
                },
                None => true,
            }
        };
        proof {
            reveal(Seq::filter);
            assert(ls@.subrange(0, i + 1).drop_last() =~= ls@.subrange(0, i as int));
        }
        if keep {
            kept.push(l.clone());
        }
        i = i + 1;
    }
    proof {
        assert(ls@.subrange(0, ls@.len() as int) =~= ls@);
    }
    if kept.len() > 0 {
        Ok(kept)
    } else {
        match wanted {
            Some(w) => Err(QueryError::NoActiveListingsForOwner(w)),
            None => Err(QueryError::NoActiveListings),
        }
    }
}

/// The purchases made by `address` (compared without regard to case), in
/// upstream order; a not-found failure when there are none.
pub fn purchases(data: &PurchasesData, address: &str) -> (r: Result<Vec<Purchase>, QueryError>)
    ensures
        view_purchases(r) == purchases_outcome(data.buys@, address@),
{
    let wanted = lowercase(address);
    let ps = &data.buys;
    let mut kept: Vec<Purchase> = Vec::new();
    let mut i: usize = 0;
    while i < ps.len()
        invariant
            i <= ps.len(),
            wanted@ == lower_of(address@),
            kept@ == selected_purchases(ps@.subrange(0, i as int), address@),
        decreases ps.len() - i,
    {
        let p = &ps[i];
        let lo = lowercase(p.buyer.as_str());
        let keep = lo == wanted;
        proof {
            reveal(Seq::filter);
            assert(ps@.subrange(0, i + 1).drop_last() =~= ps@.subrange(0, i as int));
        }
        if keep {
            kept.push(p.clone());
        }
        i = i + 1;
    }
    proof {
        assert(ps@.subrange(0, ps@.len() as int) =~= ps@);
    }
    if kept.len() > 0 {
        Ok(kept)
    } else {
        Err(QueryError::NoPurchasesForAddress(wanted))
    }
}

/// A listing or purchase record of the given collection.
pub open spec fn of_collection(contract: Seq<char>, c: Seq<char>) -> bool {
    same_address(contract, c)
}

/// The least readable price among the listings of collection `c`, active or
/// not; none when no listing of `c` has a readable price.
pub open spec fn listing_floor(ls: Seq<Listing>, c: Seq<char>) -> Option<i64>
    decreases ls.len(),
{
    if ls.len() == 0 {
        None
    } else {
        let rest = listing_floor(ls.drop_last(), c);
        let l = ls.last();
        if of_collection(l.nft_contract_address@, c) && price_of(l.price@) is Some {
            let p = price_of(l.price@)->0;
            match rest {
                Some(m) => Some(if p < m { p } else { m }),
                None => Some(p),
            }
        } else {
            rest
        }
    }
}

/// What `floor_price` answers.
pub open spec fn floor_outcome(ls: Seq<Listing>, c: Seq<char>) -> Result<i64, Failure> {
    match listing_floor(ls, c) {
        Some(v) => Ok(v),
        None => Err(Failure::NoCollection(lower_of(c))),
    }
}

/// The sum of the prices of the purchases of collection `c`; none when one
/// of them has a price that is not an integer within `i64`.
pub open spec fn purchase_volume(ps: Seq<Purchase>, c: Seq<char>) -> Option<int>
    decreases ps.len(),
{
    if ps.len() == 0 {
        Some(0)
    } else {
        match purchase_volume(ps.drop_last(), c) {
            None => None,
            Some(s) => {
                let p = ps.last();
                if of_collection(p.nft_contract_address@, c) {
                    match price_of(p.price@) {
                        Some(x) => Some(s + x),
                        None => None,
                    }
                } else {
                    Some(s)
                }
            },
        }
    }
}

/// What `traded_volume` answers.
pub open spec fn volume_outcome(ps: Seq<Purchase>, c: Seq<char>) -> Result<i64, Failure> {
    match purchase_volume(ps, c) {
        None => Err(Failure::InvalidPrice),
        Some(t) => if i64::MIN <= t <= i64::MAX {
            Ok(t as i64)
        } else {
            Err(Failure::VolumeOverflow)
        },
    }
}

/// What `collection_data` answers: floor price and traded volume, the first
/// failure of the two when either fails.
pub open spec fn collection_outcome(ls: Seq<Listing>, ps: Seq<Purchase>, c: Seq<char>) -> Result<
    (i64, i64),
    Failure,
> {
    match floor_outcome(ls, c) {
        Err(e) => Err(e),
        Ok(f) => match volume_outcome(ps, c) {
            Err(e) => Err(e),
            Ok(v) => Ok((f, v)),
        },
    }
}

pub open spec fn view_amount(r: Result<i64, QueryError>) -> Result<i64, Failure> {
    match r {
        Ok(v) => Ok(v),
        Err(e) => Err(e@),
    }
}

/// The floor price of a collection: the least price among its listings,
/// active or not, whose price field is an integer. A not-found failure when
/// no listing of the collection has such a price.
pub fn floor_price(data: &ListingsData, nft_contract_address: &str) -> (r: Result<i64, QueryError>)
    ensures
        view_amount(r) == floor_outcome(data.lists@, nft_contract_address@),
{
    let ghost c = nft_contract_address@;
    let wanted = lowercase(nft_contract_address);
    let ls = &data.lists;
    let mut lowest: Option<i64> = None;
    let mut i: usize = 0;
    while i < ls.len()
        invariant
            i <= ls.len(),
            c == nft_contract_address@,
            wanted@ == lower_of(c),
            lowest == listing_floor(ls@.subrange(0, i as int), c),
        decreases ls.len() - i,
    {
        let l = &ls[i];
        let lo = lowercase(l.nft_contract_address.as_str());
        proof {
            assert(ls@.subrange(0, i + 1).drop_last() =~= ls@.subrange(0, i as int));
        }
        if lo == wanted {
            match parse_price(l.price.as_str()) {
                Some(p) => {
                    lowest = match lowest {
                        Some(m) => Some(if p < m { p } else { m }),
                        None => Some(p),
                    };
                },
                None => {},
            }
        }
        i = i + 1;
    }
    proof {
        assert(ls@.subrange(0, ls@.len() as int) =~= ls@);
    }
    match lowest {
        Some(v) => Ok(v),
        None => Err(QueryError::NoCollection(wanted)),
    }
}

/// The traded volume of a collection: the sum of the prices of all its
/// purchases, 0 when it has none. A fault when one of those prices is not an
/// integer within `i64`, or when the sum does not fit in `i64`.
pub fn traded_volume(data: &PurchasesData, nft_contract_address: &str) -> (r: Result<i64, QueryError>)
    ensures
        view_amount(r) == volume_outcome(data.buys@, nft_contract_address@),
{
    let ghost c = nft_contract_address@;
    let wanted = lowercase(nft_contract_address);
    let ps = &data.buys;
    let mut total: i128 = 0;
    let mut unreadable = false;
    let mut i: usize = 0;
    while i < ps.len()
        invariant
            i <= ps.len(),
            c == nft_contract_address@,
            wanted@ == lower_of(c),
            unreadable ==> purchase_volume(ps@.subrange(0, i as int), c) is None,
            !unreadable ==> purchase_volume(ps@.subrange(0, i as int), c) == Some(total as int),
            -(i as int) * 0x8000_0000_0000_0000 <= total <= (i as int) * 0x8000_0000_0000_0000,
        decreases ps.len() - i,
    {
        let p = &ps[i];
        let lo = lowercase(p.nft_contract_address.as_str());
        proof {
            assert(ps@.subrange(0, i + 1).drop_last() =~= ps@.subrange(0, i as int));
            assert((i as int) * 0x8000_0000_0000_0000 < 0x7fff_ffff_ffff_ffff_8000_0000_0000_0000)
                by (nonlinear_arith)
                requires
                    i < usize::MAX,
            ;
        }
        if !unreadable && lo == wanted {
            match parse_price(p.price.as_str()) {
                Some(x) => {
                    total = total + x as i128;
                },
                None => {
                    unreadable = true;
                },
            }
        }
        i = i + 1;
    }
    proof {
        assert(ps@.subrange(0, ps@.len() as int) =~= ps@);
    }
    if unreadable {
        Err(QueryError::InvalidPrice)
    } else if total < i64::MIN as i128 || total > i64::MAX as i128 {
        Err(QueryError::VolumeOverflow)
    } else {
        Ok(total as i64)
    }
}

/// Floor price and traded volume of the collection `id`, which the result
/// names in lowercase. When the floor price fails, that failure is returned;
/// otherwise a failure of the traded volume is.
pub fn collection_data(listings: &ListingsData, purchases: &PurchasesData, id: &str) -> (r: Result<
    CollectionData,
    QueryError,
>)
    ensures
        match r {
            Ok(d) => d.id@ == lower_of(id@) && collection_outcome(listings.lists@, purchases.buys@, id@)
                == Ok::<(i64, i64), Failure>((d.floor_price, d.traded_volume)),
            Err(e) => collection_outcome(listings.lists@, purchases.buys@, id@) == Err::<
                (i64, i64),
                Failure,
            >(e@),
        },
{
    let floor = match floor_price(listings, id) {
        Ok(f) => f,
        Err(e) => {
            return Err(e);
        },
    };
    let volume = match traded_volume(purchases, id) {
        Ok(v) => v,
        Err(e) => {
            return Err(e);
        },
    };
    Ok(CollectionData { id: lowercase(id), floor_price: floor, traded_volume: volume })
}

} // verus!

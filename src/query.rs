use vstd::prelude::*;

use crate::encode::{decimal_of, decimal_token, hex_of, hex_token};

verus! {

/// The query key repeated once per feed identifier.
pub open spec fn ids_key() -> Seq<char> {
    seq!['i', 'd', 's', '[', ']']
}

/// The query key of the timestamp of a historical lookup.
pub open spec fn timestamp_key() -> Seq<char> {
    seq!['t', 'i', 'm', 'e', 's', 't', 'a', 'm', 'p']
}

/// One `ids[]` pair per identifier, in input order, each valued by its hexadecimal token.
pub open spec fn id_pairs_of(ids: Seq<u64>) -> Seq<(Seq<char>, Seq<char>)> {
    ids.map_values(|id: u64| (ids_key(), hex_of(id as nat)))
}

/// The query of a historical lookup: the identifier pairs, then the decimal timestamp.
pub open spec fn price_query_of(ids: Seq<u64>, timestamp: u64) -> Seq<(Seq<char>, Seq<char>)> {
    id_pairs_of(ids).push((timestamp_key(), decimal_of(timestamp as nat)))
}

/// The query of a latest lookup: the identifier pairs alone.
pub open spec fn latest_query_of(ids: Seq<u64>) -> Seq<(Seq<char>, Seq<char>)> {
    id_pairs_of(ids)
}

/// Arguments of a historical price lookup.
#[derive(Debug)]
pub struct PriceParams {
    pub ids: Vec<u64>,
    pub timestamp: u64,
}

impl PriceParams {
    pub fn new(ids: Vec<u64>, timestamp: u64) -> (r: Self)
        ensures
            r.ids@ == ids@,
            r.timestamp == timestamp,
    {
        Self { ids, timestamp }
    }
}

/// Arguments of a latest price lookup.
#[derive(Debug)]
pub struct LatestParams {
    pub ids: Vec<u64>,
}

fn ids_key_string() -> (r: String)
    ensures
        r@ == ids_key(),
{
    proof {
        reveal_strlit("ids[]");
    }
    let r = String::from_str("ids[]");
    assert(r@ =~= ids_key());
    r
}

fn timestamp_key_string() -> (r: String)
    ensures
        r@ == timestamp_key(),
{
    proof {
        reveal_strlit("timestamp");
    }
    let r = String::from_str("timestamp");
    assert(r@ =~= timestamp_key());
    r
}

/// The repeated `ids[]` pairs for `ids`, in order; empty for no identifiers.
pub fn id_pairs(ids: &Vec<u64>) -> (r: Vec<(String, String)>)
    ensures
        r.deep_view() == id_pairs_of(ids@),
{
    let mut r: Vec<(String, String)> = Vec::new();
    let mut i: usize = 0;
    while i < ids.len()
        invariant
            i <= ids@.len(),
            r@.len() == i,
            forall|j: int|
                0 <= j < i ==> #[trigger] r@[j].0@ == ids_key() && r@[j].1@ == hex_of(
                    ids@[j] as nat,
                ),
        decreases ids@.len() - i,
    {
        let pair = (ids_key_string(), hex_token(ids[i]));
        r.push(pair);
        i = i + 1;
    }
    assert(r.deep_view() =~= id_pairs_of(ids@));
    r
}

/// The query of a historical lookup for `params`.
pub fn price_query(params: &PriceParams) -> (r: Vec<(String, String)>)
    ensures
        r.deep_view() == price_query_of(params.ids@, params.timestamp),
{
    let mut r = id_pairs(&params.ids);
    r.push((timestamp_key_string(), decimal_token(params.timestamp)));
    assert(r.deep_view() =~= price_query_of(params.ids@, params.timestamp));
    r
}

/// The query of a latest lookup for `ids`.
pub fn latest_query(ids: &Vec<u64>) -> (r: Vec<(String, String)>)
    ensures
        r.deep_view() == latest_query_of(ids@),
{
    id_pairs(ids)
}

} // verus!

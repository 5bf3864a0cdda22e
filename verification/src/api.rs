//! What a request to an outside service is made of.

use vstd::prelude::*;

verus! {

/// The parameters of a request, as names and values.
pub type Query = Vec<(String, String)>;

/// The parameters of a request as text.
pub open spec fn query_view(query: Query) -> Seq<(Seq<char>, Seq<char>)> {
    Seq::new(query@.len(), |i: int| (query@[i].0@, query@[i].1@))
}

/// Borrowed parameters as text.
pub open spec fn pairs_view(pairs: Vec<(&str, &str)>) -> Seq<(Seq<char>, Seq<char>)> {
    Seq::new(pairs@.len(), |i: int| (pairs@[i].0@, pairs@[i].1@))
}

/// The parameters of a request that may have none.
pub open spec fn parameters(query: Option<&Query>) -> Seq<(Seq<char>, Seq<char>)> {
    match query {
        Some(query) => query_view(*query),
        None => Seq::empty(),
    }
}

/// The parameters in the form in which they are handed to what sends the
/// request: the same names and values in the same order, borrowed.
pub fn pairs<'a>(query: Option<&'a Query>) -> (pairs: Vec<(&'a str, &'a str)>)
    ensures
        pairs_view(pairs) == parameters(query),
{
    let mut pairs: Vec<(&'a str, &'a str)> = Vec::new();
    if let Some(query) = query {
        let mut i: usize = 0;
        while i < query.len()
            invariant
                i <= query.len(),
                pairs@.len() == i,
                forall|j: int|
                    0 <= j < i ==> (#[trigger] pairs@[j]).0@ == query@[j].0@ && pairs@[j].1@
                        == query@[j].1@,
            decreases query.len() - i,
        {
            pairs.push((query[i].0.as_str(), query[i].1.as_str()));
            i += 1;
        }
        assert(pairs_view(pairs) =~= query_view(*query));
    } else {
        assert(pairs_view(pairs) =~= Seq::empty());
    }
    pairs
}

/// A request that can be sent with GET: where to, with which parameters, and
/// whether it is worth sending at all.
pub trait Fetchable {
    /// The address to ask.
    fn url(&self) -> &'static str;

    /// Whether everything that the service demands, such as a key, is there.
    /// A request that is not valid is never sent.
    fn is_valid(&self) -> (valid: bool)
        default_ensures
            valid,
    {
        true
    }

    /// The parameters to send along, if any.
    fn query(&self) -> (query: Option<&Query>)
        default_ensures
            query is None,
    {
        None
    }

    /// The parameters that `query` hands out, borrowed: the same names and
    /// values in the same order, and none where `query` hands out none.
    fn query_pairs(&self) -> (pairs: Vec<(&str, &str)>)
        ensures
            exists|query: Option<&Query>| #[trigger]
                call_ensures(Self::query, (self,), query) && pairs_view(pairs) == parameters(
                    query,
                ),
    {
        pairs(self.query())
    }
}

} // verus!

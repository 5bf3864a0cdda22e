//! What the resolver takes the cache to be: a table with at most one location
//! to a postal code. The table itself is kept by the program around the
//! library; here is what is expected of it, and what follows from that.

use vstd::prelude::*;

use crate::location::from_postal_code::{geocoder_query, region_parts, ResponseView};
use crate::location::{start, EventView, LocationView, ResolutionView, ResolverView};

verus! {

/// The locations that a cache holds, each under its postal code.
pub struct CacheView {
    pub rows: Map<Seq<char>, LocationView>,
}

impl CacheView {
    /// A cache that holds nothing.
    pub open spec fn empty() -> CacheView {
        CacheView { rows: Map::empty() }
    }

    /// What the cache holds under a postal code. That it holds nothing there
    /// is an answer too, and no failure.
    pub open spec fn get(self, postal_code: Seq<char>) -> Option<LocationView> {
        if self.rows.dom().contains(postal_code) {
            Some(self.rows[postal_code])
        } else {
            None
        }
    }

    /// The cache once a location is written to it: the location stands under
    /// its own postal code, in place of what stood there, and every other row
    /// is as it was.
    pub open spec fn set(self, location: LocationView) -> CacheView {
        CacheView { rows: self.rows.insert(location.postal_code, location) }
    }

    /// The outcome that a cache which works gives the pending request, where
    /// the request is one to the cache.
    pub open spec fn answer(self, resolver: ResolverView) -> Option<EventView> {
        match resolver {
            ResolverView::Lookup { postal_code, .. } => Some(
                EventView::Found(self.get(postal_code)),
            ),
            ResolverView::Store { .. } => Some(EventView::Stored),
            _ => None,
        }
    }

    /// The cache once the pending request is performed: only a write changes
    /// it.
    pub open spec fn perform(self, resolver: ResolverView) -> CacheView {
        match resolver {
            ResolverView::Store { location } => self.set(location),
            _ => self,
        }
    }
}

/// A location that is written and then read under its postal code comes back
/// as it was written, field for field. A second write under the same postal
/// code replaces the first. What is written leaves every other postal code as
/// it was, so that one which was absent stays absent: it is not found, which
/// is no failure.
pub proof fn law_written_is_read_back(
    cache: CacheView,
    location: LocationView,
    later: LocationView,
    other: Seq<char>,
)
    ensures
        cache.set(location).get(location.postal_code) == Some(location),
        later.postal_code == location.postal_code ==> cache.set(location).set(later).get(
            location.postal_code,
        ) == Some(later),
        other != location.postal_code ==> cache.set(location).get(other) == cache.get(other),
        CacheView::empty().get(other) is None,
{
}

/// Where the cache lacks a region's postal code and the geocoder knows a
/// place for it, four requests bring the location: the cache is read, the
/// geocoder is asked, the cache is written, and the first place is the
/// result. After that the cache holds the location under the location's
/// postal code.
pub proof fn law_miss_is_geocoded_and_cached(
    cache: CacheView,
    region: Seq<char>,
    places: Seq<ResponseView>,
)
    requires
        region_parts(region) is Ok,
        cache.get(region_parts(region)->Ok_0.0) is None,
        places.len() > 0,
    ensures
        ({
            let (postal_code, country) = region_parts(region)->Ok_0;
            let geocoder = geocoder_query(postal_code, country);
            let location = places[0].location();
            let lookup = ResolverView::Lookup { postal_code, geocoder };
            let geocode = ResolverView::Geocode { geocoder };
            let store = ResolverView::Store { location };
            &&& start(Some(region)) == ResolutionView::Pending(lookup)
            &&& lookup.step(cache.answer(lookup)->Some_0) == ResolutionView::Pending(geocode)
            &&& geocode.step(EventView::Geocoded(places)) == ResolutionView::Pending(store)
            &&& store.step(cache.answer(store)->Some_0) == ResolutionView::Resolved(location)
            &&& cache.perform(lookup).perform(geocode).perform(store).get(location.postal_code)
                == Some(location)
        }),
{
}

/// Where the cache holds a location under a region's postal code, one request
/// brings it: the cache is read, and what it holds is the result. The cache is
/// as it was.
pub proof fn law_hit_is_returned(cache: CacheView, region: Seq<char>)
    requires
        region_parts(region) is Ok,
        cache.get(region_parts(region)->Ok_0.0) is Some,
    ensures
        ({
            let (postal_code, country) = region_parts(region)->Ok_0;
            let lookup = ResolverView::Lookup {
                postal_code,
                geocoder: geocoder_query(postal_code, country),
            };
            &&& start(Some(region)) == ResolutionView::Pending(lookup)
            &&& lookup.step(cache.answer(lookup)->Some_0) == ResolutionView::Resolved(
                cache.get(postal_code)->Some_0,
            )
            &&& cache.perform(lookup) == cache
        }),
{
}

} // verus!

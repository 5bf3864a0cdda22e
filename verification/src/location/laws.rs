//! What holds of every resolution, whatever the cache and the services answer.

use vstd::prelude::*;

use crate::location::from_postal_code::{geocoder_query, region_parts};
use crate::location::{
    start_with, EventView, LocationError, LocationView, ResolutionView, ResolverView,
};
use crate::text::lemma_split_at_first;

verus! {

/// A resolution that has ended stays as it is.
pub proof fn lemma_ended_stays(resolution: ResolutionView, events: Seq<EventView>)
    requires
        !(resolution is Pending),
    ensures
        resolution.after(events) == resolution,
{
}

/// A resolution ends within three requests.
pub proof fn lemma_ends_within_three(resolver: ResolverView, events: Seq<EventView>)
    requires
        events.len() >= 3,
    ensures
        !(ResolutionView::Pending(resolver).after(events) is Pending),
{
    reveal_with_fuel(ResolutionView::after, 4);
    let second = resolver.step(events[0]);
    let rest = events.drop_first();
    if second is Pending {
        let third = second->Pending_0.step(rest[0]);
        if third is Pending {
            let last = third->Pending_0.step(rest.drop_first()[0]);
            lemma_ended_stays(last, rest.drop_first().drop_first());
        } else {
            lemma_ended_stays(third, rest.drop_first());
        }
    } else {
        lemma_ended_stays(second, rest);
    }
}

/// For a region that is a postal code, a comma and a country, the cache is
/// read first, under the postal code, and it is read once. The geocoder is
/// asked only when the cache has answered that it holds nothing, and then for
/// that postal code and country. When the cache holds a location, that
/// location is the result and the geocoder is never asked.
pub proof fn law_cache_before_geocoder(
    region: Seq<char>,
    stored: Option<LocationView>,
    events: Seq<EventView>,
)
    requires
        region_parts(region) is Ok,
    ensures
        ({
            let begun = start_with(Some(region), stored);
            let (postal_code, country) = region_parts(region)->Ok_0;
            let geocoder = geocoder_query(postal_code, country);
            &&& begun == ResolutionView::Pending(ResolverView::Lookup { postal_code, geocoder })
            &&& events.len() > 0 ==> !(begun.after(events) matches ResolutionView::Pending(
                ResolverView::Lookup { .. },
            ))
            &&& begun.after(events) matches ResolutionView::Pending(ResolverView::Geocode { .. })
                ==> {
                &&& events.len() == 1
                &&& events[0] == EventView::Found(None)
                &&& begun.after(events) == ResolutionView::Pending(
                    ResolverView::Geocode { geocoder },
                )
            }
            &&& events.len() > 0 ==> (events[0] matches EventView::Found(Some(location))
                ==> begun.after(events) == ResolutionView::Resolved(location))
        }),
{
    reveal_with_fuel(ResolutionView::after, 4);
    let begun = start_with(Some(region), stored);
    if events.len() >= 3 {
        lemma_ends_within_three(begun->Pending_0, events);
    }
    if events.len() > 0 {
        let second = begun->Pending_0.step(events[0]);
        if !(second is Pending) {
            lemma_ended_stays(second, events.drop_first());
        }
    }
}

/// A region that is not a postal code, a comma and a country fails the
/// resolution at once: no request is ever pending, whatever is stored.
pub proof fn law_malformed_region_asks_nothing(
    region: Seq<char>,
    stored: Option<LocationView>,
    events: Seq<EventView>,
)
    requires
        region_parts(region) is Err,
    ensures
        start_with(Some(region), stored) == ResolutionView::Failed(
            LocationError::InvalidRegionFormat(region_parts(region)->Err_0),
        ),
        start_with(Some(region), stored).after(events) == start_with(Some(region), stored),
{
    lemma_ended_stays(start_with(Some(region), stored), events);
}

/// A stored location is the result where no region is given, and no request
/// is made for it; a region that is given decides, whatever is stored.
pub proof fn law_region_before_stored_before_inferred(
    region: Option<Seq<char>>,
    stored: Option<LocationView>,
)
    ensures
        region is Some ==> start_with(region, stored) == start_with(region, None),
        region is None && stored is Some ==> start_with(region, stored)
            == ResolutionView::Resolved(stored->Some_0),
        region is None && stored is None ==> start_with(region, stored)
            == ResolutionView::Pending(ResolverView::Infer),
{
}

/// Every location that a resolution holds is canonical: its `loc` is its
/// latitude, a comma and its longitude.
pub open spec fn holds_canonical(resolution: ResolutionView) -> bool {
    match resolution {
        ResolutionView::Pending(ResolverView::Store { location }) => location.is_canonical(),
        ResolutionView::Resolved(location) => location.is_canonical(),
        _ => true,
    }
}

/// An event brings no location that is not canonical.
pub open spec fn brings_canonical(event: EventView) -> bool {
    event matches EventView::Found(Some(location)) ==> location.is_canonical()
}

proof fn lemma_step_holds_canonical(resolver: ResolverView, event: EventView)
    requires
        holds_canonical(ResolutionView::Pending(resolver)),
        brings_canonical(event),
    ensures
        holds_canonical(resolver.step(event)),
{
    if let EventView::Inferred(answer) = event {
        lemma_split_at_first(answer.loc, ',');
    }
}

/// A location that is the result of a resolution is canonical, provided that
/// those which the configuration and the cache hold are: the locations that
/// the resolution makes itself, from the answers of the two services, always
/// are.
pub proof fn law_resolved_is_canonical(
    region: Option<Seq<char>>,
    stored: Option<LocationView>,
    events: Seq<EventView>,
)
    requires
        stored matches Some(location) ==> location.is_canonical(),
        forall|i: int| 0 <= i < events.len() ==> brings_canonical(#[trigger] events[i]),
    ensures
        start_with(region, stored).after(events) matches ResolutionView::Resolved(location)
            ==> location.is_canonical(),
{
    lemma_after_holds_canonical(start_with(region, stored), events);
}

proof fn lemma_after_holds_canonical(resolution: ResolutionView, events: Seq<EventView>)
    requires
        holds_canonical(resolution),
        forall|i: int| 0 <= i < events.len() ==> brings_canonical(#[trigger] events[i]),
    ensures
        holds_canonical(resolution.after(events)),
    decreases events.len(),
{
    if events.len() > 0 {
        if let ResolutionView::Pending(resolver) = resolution {
            lemma_step_holds_canonical(resolver, events[0]);
            let rest = events.drop_first();
            assert forall|i: int| 0 <= i < rest.len() implies brings_canonical(
                #[trigger] rest[i],
            ) by {
                assert(rest[i] == events[i + 1]);
            }
            lemma_after_holds_canonical(resolver.step(events[0]), rest);
        }
    }
}

} // verus!

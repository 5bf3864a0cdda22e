//! What holds of every fetch, whatever the services answer.

use vstd::prelude::*;

use crate::config::ConfigView;
use crate::location::LocationView;
use crate::weather::{
    advance, available, line_for, Attempt, Event, FetchConditionsErrorView, FetchView,
    FetcherView, Outcome, ProviderView, Source,
};

verus! {

/// The requests that are sent if none is answered: those in line that are
/// valid, in their order.
pub open spec fn asked(line: Seq<ProviderView>) -> Seq<ProviderView>
    decreases line.len(),
{
    if line.len() == 0 {
        Seq::empty()
    } else if line[0].is_valid() {
        seq![line[0]] + asked(line.drop_first())
    } else {
        asked(line.drop_first())
    }
}

/// What is noted of the requests in line once none of them has brought
/// anything: one note for each, in their order.
pub open spec fn notes(line: Seq<ProviderView>) -> Seq<Attempt> {
    Seq::new(line.len(), |i: int| line[i].attempt())
}

/// The first `count` outcomes bring nothing, each held against the request
/// that it is the outcome of.
pub open spec fn none_answered(asked: Seq<ProviderView>, events: Seq<Event>, count: int) -> bool {
    forall|i: int| 0 <= i < count ==> (#[trigger] asked[i]).read(events[i]) is None
}

/// A fetch that has ended stays as it is.
pub proof fn lemma_ended_stays(fetch: FetchView, events: Seq<Event>)
    requires
        !(fetch is Pending),
    ensures
        fetch.after(events) == fetch,
{
}

proof fn lemma_asked_is_valid(line: Seq<ProviderView>)
    ensures
        forall|i: int| 0 <= i < asked(line).len() ==> (#[trigger] asked(line)[i]).is_valid(),
    decreases line.len(),
{
    if line.len() > 0 {
        let rest = line.drop_first();
        lemma_asked_is_valid(rest);
        assert forall|i: int| 0 <= i < asked(line).len() implies (#[trigger] asked(
            line,
        )[i]).is_valid() by {
            if line[0].is_valid() && i > 0 {
                assert(asked(line)[i] == asked(rest)[i - 1]);
            }
        }
    }
}

proof fn lemma_pending_in_order(line: Seq<ProviderView>, log: Seq<Attempt>, events: Seq<Event>)
    requires
        events.len() < asked(line).len(),
        none_answered(asked(line), events, events.len() as int),
    ensures
        advance(line, log).after(events) matches FetchView::Pending(fetcher)
            && fetcher.pending == asked(line)[events.len() as int],
    decreases line.len(),
{
    let rest = line.drop_first();
    if !line[0].is_valid() {
        lemma_pending_in_order(rest, log.push(line[0].attempt()), events);
    } else if events.len() > 0 {
        let later = events.drop_first();
        assert(asked(line)[0].read(events[0]) is None);
        assert forall|i: int| 0 <= i < later.len() implies (#[trigger] asked(rest)[i]).read(
            later[i],
        ) is None by {
            assert(asked(line)[i + 1].read(events[i + 1]) is None);
        }
        lemma_pending_in_order(
            rest,
            log.push(Attempt { source: line[0].source(), outcome: Outcome::Failed }),
            later,
        );
    }
}

proof fn lemma_first_answer(
    line: Seq<ProviderView>,
    log: Seq<Attempt>,
    events: Seq<Event>,
    first: int,
)
    requires
        0 <= first < asked(line).len(),
        first < events.len(),
        none_answered(asked(line), events, first),
        asked(line)[first].read(events[first]) is Some,
    ensures
        advance(line, log).after(events) == FetchView::Fetched(
            asked(line)[first].read(events[first])->Some_0,
        ),
    decreases line.len(),
{
    let rest = line.drop_first();
    if !line[0].is_valid() {
        lemma_first_answer(rest, log.push(line[0].attempt()), events, first);
    } else {
        let later = events.drop_first();
        if first == 0 {
            lemma_ended_stays(FetchView::Fetched(line[0].read(events[0])->Some_0), later);
        } else {
            assert(asked(line)[0].read(events[0]) is None);
            assert forall|i: int| 0 <= i < first - 1 implies (#[trigger] asked(rest)[i]).read(
                later[i],
            ) is None by {
                assert(asked(line)[i + 1].read(events[i + 1]) is None);
            }
            assert(asked(rest)[first - 1] == asked(line)[first]);
            assert(later[first - 1] == events[first]);
            lemma_first_answer(
                rest,
                log.push(Attempt { source: line[0].source(), outcome: Outcome::Failed }),
                later,
                first - 1,
            );
        }
    }
}

proof fn lemma_none_answers(line: Seq<ProviderView>, log: Seq<Attempt>, events: Seq<Event>)
    requires
        events.len() >= asked(line).len(),
        none_answered(asked(line), events, asked(line).len() as int),
    ensures
        advance(line, log).after(events) == FetchView::Failed(
            FetchConditionsErrorView::NoProviderSucceeded(log + notes(line)),
        ),
    decreases line.len(),
{
    if line.len() == 0 {
        assert(log + notes(line) =~= log);
        lemma_ended_stays(advance(line, log), events);
    } else {
        let rest = line.drop_first();
        let noted = log.push(line[0].attempt());
        assert(noted + notes(rest) =~= log + notes(line));
        if !line[0].is_valid() {
            lemma_none_answers(rest, noted, events);
        } else {
            let later = events.drop_first();
            assert(asked(line)[0].read(events[0]) is None);
            assert forall|i: int| 0 <= i < asked(rest).len() implies (#[trigger] asked(
                rest,
            )[i]).read(later[i]) is None by {
                assert(asked(line)[i + 1].read(events[i + 1]) is None);
            }
            lemma_none_answers(rest, noted, later);
        }
    }
}

/// The services are asked strictly in their order, and only with requests
/// that are valid: while nothing has been answered, the request that is
/// pending is the next valid one in line.
pub proof fn law_asked_in_order(
    sources: Seq<Source>,
    config: ConfigView,
    location: LocationView,
    events: Seq<Event>,
)
    requires
        events.len() < asked(line_for(sources, config, location)).len(),
        none_answered(asked(line_for(sources, config, location)), events, events.len() as int),
    ensures
        ({
            let line = line_for(sources, config, location);
            advance(line, Seq::empty()).after(events) matches FetchView::Pending(fetcher)
                && fetcher.pending == asked(line)[events.len() as int]
                && fetcher.pending.is_valid()
        }),
{
    let line = line_for(sources, config, location);
    lemma_pending_in_order(line, Seq::empty(), events);
    lemma_asked_is_valid(line);
}

/// The first answer is the result, and what comes after it is not looked at.
/// A service that did not answer before does not end the fetch. The result
/// is read by the codes of the service that answered.
pub proof fn law_first_success_wins(
    sources: Seq<Source>,
    config: ConfigView,
    location: LocationView,
    events: Seq<Event>,
    first: int,
)
    requires
        0 <= first < asked(line_for(sources, config, location)).len(),
        first < events.len(),
        none_answered(asked(line_for(sources, config, location)), events, first),
        asked(line_for(sources, config, location))[first].read(events[first]) is Some,
    ensures
        ({
            let answering = asked(line_for(sources, config, location))[first];
            &&& advance(line_for(sources, config, location), Seq::empty()).after(events)
                == FetchView::Fetched(answering.read(events[first])->Some_0)
            &&& events[first] matches Event::WeatherAPI(answer) ==> answering.source()
                == Source::WeatherAPI && answering.read(events[first])->Some_0
                == answer.conditions()
            &&& events[first] matches Event::OpenMeteo(answer) ==> answering.source()
                == Source::OpenMeteo && answering.read(events[first])->Some_0
                == answer.conditions()
        }),
{
    lemma_first_answer(line_for(sources, config, location), Seq::empty(), events, first);
}

/// Where every service that is asked fails, the fetch fails with the error
/// that none succeeded, and there is no result. The error names each service
/// that was in line, in their order, as asked in vain or as skipped.
pub proof fn law_exhaustion(
    sources: Seq<Source>,
    config: ConfigView,
    location: LocationView,
    events: Seq<Event>,
)
    requires
        events.len() >= asked(line_for(sources, config, location)).len(),
        none_answered(
            asked(line_for(sources, config, location)),
            events,
            asked(line_for(sources, config, location)).len() as int,
        ),
    ensures
        ({
            let line = line_for(sources, config, location);
            &&& advance(line, Seq::empty()).after(events) == FetchView::Failed(
                FetchConditionsErrorView::NoProviderSucceeded(notes(line)),
            )
            &&& notes(line).len() == sources.len()
            &&& forall|i: int|
                0 <= i < sources.len() ==> (#[trigger] notes(line)[i]).source == sources[i]
        }),
{
    let line = line_for(sources, config, location);
    lemma_none_answers(line, Seq::empty(), events);
    assert(Seq::<Attempt>::empty() + notes(line) =~= notes(line));
}

/// Without a key, or with an empty one, only the service that anyone may ask
/// is in line. If it fails, none has succeeded.
pub proof fn law_without_key_only_fallback(
    config: ConfigView,
    location: LocationView,
    events: Seq<Event>,
)
    requires
        config.token_or_empty().len() == 0,
    ensures
        available(config) == seq![Source::OpenMeteo],
        events.len() > 0 && !(events[0] is OpenMeteo) ==> advance(
            line_for(available(config), config, location),
            Seq::empty(),
        ).after(events) == FetchView::Failed(
            FetchConditionsErrorView::NoProviderSucceeded(
                seq![Attempt { source: Source::OpenMeteo, outcome: Outcome::Failed }],
            ),
        ),
{
    let line = line_for(available(config), config, location);
    reveal_with_fuel(asked, 2);
    assert(line.drop_first().len() == 0);
    assert(asked(line) =~= seq![line[0]]);
    if events.len() > 0 && !(events[0] is OpenMeteo) {
        lemma_none_answers(line, Seq::empty(), events);
        assert(Seq::<Attempt>::empty() + notes(line) =~= seq![
            Attempt { source: Source::OpenMeteo, outcome: Outcome::Failed },
        ]);
    }
}

} // verus!

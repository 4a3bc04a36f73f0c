//! One tick of the poller: the fetch has ended in a response body or in a
//! transport failure, and the tick decides what to write into the shared
//! cell and what to report. The surrounding process runs the loop — send
//! the request, hand the outcome to [`apply_poll_event`], log on failure,
//! sleep for the interval — and performs no decision of its own.

use vstd::prelude::*;
use crate::bid::bid_of;
use crate::bid::extract_bid;
use crate::cell::SharedRateCell;
use crate::pair::ExchangeSymbolPair;

verus! {

/// How one fetch ended: with the response body, or without a response
/// (connection, name resolution or timeout trouble).
pub enum PollEvent {
    Response(String),
    TransportFailure,
}

/// What one tick did: published a fresh rate, or left the cell untouched
/// because the body yielded no rate or because no response arrived. The two
/// failure reports are what the surrounding process logs, one line each.
#[derive(Clone, Copy, Debug, PartialEq, Eq, Structural)]
pub enum PollOutcome {
    Updated,
    ParseFailure,
    TransportFailure,
}

/// The rate that `event` carries for `pair`: the stripped `bid` of a
/// response body, and nothing on a transport failure.
pub open spec fn event_bid(pair: Seq<char>, event: PollEvent) -> Option<Seq<char>> {
    match event {
        PollEvent::Response(body) => bid_of(body@, pair),
        PollEvent::TransportFailure => None,
    }
}

/// The cell's value after one tick: the rate the event carries, or the old
/// value where it carries none.
pub open spec fn step_cell(cell: Seq<char>, pair: Seq<char>, event: PollEvent) -> Seq<char> {
    match event_bid(pair, event) {
        Some(rate) => rate,
        None => cell,
    }
}

/// The cell's value after a whole run of ticks, oldest event first.
pub open spec fn run_poller(init: Seq<char>, pair: Seq<char>, events: Seq<PollEvent>) -> Seq<char>
    decreases events.len(),
{
    if events.len() == 0 {
        init
    } else {
        step_cell(run_poller(init, pair, events.drop_last()), pair, events.last())
    }
}

/// Performs the decisions of one tick: on a response whose body yields a
/// rate, writes that rate into the cell; on anything else leaves the cell
/// exactly as it was. Reports which of the three happened.
pub fn apply_poll_event(
    cell: &mut SharedRateCell,
    pair: &ExchangeSymbolPair,
    event: PollEvent,
) -> (r: PollOutcome)
    ensures
        final(cell)@ == step_cell(old(cell)@, pair@, event),
        r == PollOutcome::Updated <==> event_bid(pair@, event) is Some,
        r == PollOutcome::TransportFailure <==> event is TransportFailure,
        r == PollOutcome::ParseFailure <==> event is Response && event_bid(pair@, event) is None,
{
    match event {
        PollEvent::Response(body) => match extract_bid(body.as_str(), pair.code()) {
            Some(rate) => {
                cell.write(rate);
                PollOutcome::Updated
            },
            None => PollOutcome::ParseFailure,
        },
        PollEvent::TransportFailure => PollOutcome::TransportFailure,
    }
}

/// A run in which no tick carries a rate never writes: the cell still holds
/// its initial value.
pub proof fn lemma_no_success_no_write(init: Seq<char>, pair: Seq<char>, events: Seq<PollEvent>)
    requires
        forall|i: int| 0 <= i < events.len() ==> event_bid(pair, #[trigger] events[i]) is None,
    ensures
        run_poller(init, pair, events) == init,
    decreases events.len(),
{
    if events.len() > 0 {
        lemma_no_success_no_write(init, pair, events.drop_last());
    }
}

/// Exactly one write per successful tick, and the last writer wins: after a
/// tick that carries a rate, no later rate-less tick moves the cell, so a
/// run ends with the rate of its last successful tick.
pub proof fn lemma_last_success_wins(
    init: Seq<char>,
    pair: Seq<char>,
    events: Seq<PollEvent>,
    i: int,
)
    requires
        0 <= i < events.len(),
        event_bid(pair, events[i]) is Some,
        forall|j: int| i < j < events.len() ==> event_bid(pair, #[trigger] events[j]) is None,
    ensures
        run_poller(init, pair, events) == event_bid(pair, events[i])->Some_0,
    decreases events.len(),
{
    if i == events.len() - 1 {
    } else {
        lemma_last_success_wins(init, pair, events.drop_last(), i);
    }
}

} // verus!

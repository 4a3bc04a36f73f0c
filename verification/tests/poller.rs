use rate_poller::cell::SharedRateCell;
use rate_poller::pair::ExchangeSymbolPair;
use rate_poller::poller::apply_poll_event;
use rate_poller::poller::PollEvent;
use rate_poller::poller::PollOutcome;

fn pair(code: &str) -> ExchangeSymbolPair {
    ExchangeSymbolPair::new(String::from(code)).unwrap()
}

#[test]
fn successful_response_publishes_the_stripped_bid() {
    let p = pair("USDBRL");
    let mut cell = SharedRateCell::new();
    let body = String::from("{\"USDBRL\":{\"bid\":\"5.32\"}}");
    let outcome = apply_poll_event(&mut cell, &p, PollEvent::Response(body));
    assert_eq!(outcome, PollOutcome::Updated);
    assert_eq!(cell.read(), "5.32");
}

#[test]
fn transport_failure_leaves_the_cell_at_its_default() {
    let p = pair("USDEUR");
    let mut cell = SharedRateCell::new();
    let outcome = apply_poll_event(&mut cell, &p, PollEvent::TransportFailure);
    assert_eq!(outcome, PollOutcome::TransportFailure);
    assert_eq!(cell.read(), "");
}

#[test]
fn transport_failure_keeps_the_previous_rate() {
    let p = pair("USDBRL");
    let mut cell = SharedRateCell::new();
    cell.write(String::from("5.00"));
    let outcome = apply_poll_event(&mut cell, &p, PollEvent::TransportFailure);
    assert_eq!(outcome, PollOutcome::TransportFailure);
    assert_eq!(cell.read(), "5.00");
}

#[test]
fn malformed_body_keeps_the_previous_rate() {
    let p = pair("USDBRL");
    let mut cell = SharedRateCell::new();
    cell.write(String::from("5.00"));
    let outcome = apply_poll_event(&mut cell, &p, PollEvent::Response(String::from("oops")));
    assert_eq!(outcome, PollOutcome::ParseFailure);
    assert_eq!(cell.read(), "5.00");
}

#[test]
fn body_without_the_pair_keeps_the_previous_rate() {
    let p = pair("USDBRL");
    let mut cell = SharedRateCell::new();
    cell.write(String::from("5.00"));
    let body = String::from("{\"USDEUR\":{\"bid\":\"0.91\"}}");
    let outcome = apply_poll_event(&mut cell, &p, PollEvent::Response(body));
    assert_eq!(outcome, PollOutcome::ParseFailure);
    assert_eq!(cell.read(), "5.00");
}

#[test]
fn a_later_success_overwrites_an_earlier_one() {
    let p = pair("USDBRL");
    let mut cell = SharedRateCell::new();
    let first = String::from("{\"USDBRL\":{\"bid\":\"5.32\"}}");
    let second = String::from("{\"USDBRL\":{\"bid\":\"4.90\"}}");
    assert_eq!(
        apply_poll_event(&mut cell, &p, PollEvent::Response(first)),
        PollOutcome::Updated
    );
    assert_eq!(
        apply_poll_event(&mut cell, &p, PollEvent::TransportFailure),
        PollOutcome::TransportFailure
    );
    assert_eq!(
        apply_poll_event(&mut cell, &p, PollEvent::Response(second)),
        PollOutcome::Updated
    );
    assert_eq!(
        apply_poll_event(&mut cell, &p, PollEvent::TransportFailure),
        PollOutcome::TransportFailure
    );
    assert_eq!(cell.read(), "4.90");
}

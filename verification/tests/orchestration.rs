//! Poll-cycle scenarios: how the poller interprets directives, when it
//! fetches, what it swallows, what kills it, and how the schedule follows.

use trmnl_display::channel::ImageChannel;
use trmnl_display::models::DisplayResponse;
use trmnl_display::poller::{
    deliver_payload, interpret_poll, CycleStep, DeliverOutcome, FatalReason, PollEvent,
    ScheduleState, SkipReason, DEFAULT_REFRESH_SECONDS,
};

fn directive(
    status: u16,
    error: Option<&str>,
    image_url: Option<&str>,
    refresh_rate: Option<u64>,
) -> DisplayResponse {
    DisplayResponse {
        status,
        error: error.map(|s| s.to_string()),
        image_url: image_url.map(|s| s.to_string()),
        filename: None,
        refresh_rate,
        reset_firmware: false,
        update_firmware: None,
        firmware_url: None,
        special_function: None,
    }
}

#[test]
fn success_directive_fetches_and_sets_wait() {
    let step = interpret_poll(PollEvent::Directive(directive(
        0,
        None,
        Some("http://x/a.bmp"),
        Some(30),
    )));
    assert_eq!(
        step,
        CycleStep::Fetch { image_url: "http://x/a.bmp".to_string(), refresh_rate: Some(30) }
    );

    let mut schedule = ScheduleState::new();
    assert_eq!(schedule.begin_cycle(), None);
    let mut channel = ImageChannel::new(5);
    let bytes = vec![0x42u8, 0x4d, 0x01];
    let outcome = deliver_payload(&mut schedule, &mut channel, bytes.clone(), Some(30));
    assert_eq!(outcome, DeliverOutcome::Delivered);
    assert_eq!(channel.try_recv(), Some(bytes));
    assert_eq!(schedule.begin_cycle(), Some(30));
}

#[test]
fn server_error_skips_cycle_and_keeps_interval() {
    let step = interpret_poll(PollEvent::Directive(directive(
        500,
        Some("maintenance"),
        None,
        Some(30),
    )));
    assert_eq!(
        step,
        CycleStep::Skip(SkipReason::ServerError(Some("maintenance".to_string())))
    );

    // Nothing was delivered, so nothing commits a rate: the wait is unchanged.
    let mut schedule = ScheduleState::new();
    assert_eq!(schedule.begin_cycle(), None);
    assert_eq!(schedule.begin_cycle(), Some(DEFAULT_REFRESH_SECONDS));
}

#[test]
fn server_error_without_message_still_skips() {
    let step = interpret_poll(PollEvent::Directive(directive(500, None, None, None)));
    assert_eq!(step, CycleStep::Skip(SkipReason::ServerError(None)));
}

#[test]
fn missing_image_url_is_fatal() {
    let step = interpret_poll(PollEvent::Directive(directive(0, None, None, None)));
    assert_eq!(step, CycleStep::Fail(FatalReason::MissingImageUrl));
}

#[test]
fn malformed_body_skips_cycle() {
    let step = interpret_poll(PollEvent::MalformedBody);
    assert_eq!(step, CycleStep::Skip(SkipReason::MalformedBody));

    // The next cycle proceeds on the unchanged schedule.
    let mut schedule = ScheduleState::new();
    assert_eq!(schedule.begin_cycle(), None);
    assert_eq!(schedule.begin_cycle(), Some(DEFAULT_REFRESH_SECONDS));
}

#[test]
fn transport_failure_skips_cycle() {
    let step = interpret_poll(PollEvent::TransportFailure);
    assert_eq!(step, CycleStep::Skip(SkipReason::PollTransportFailed));
}

#[test]
fn any_status_but_the_error_code_counts_as_success() {
    // The service's success value is not pinned down (0 is assumed); the
    // orchestrator deliberately branches only on the documented error code.
    let step = interpret_poll(PollEvent::Directive(directive(
        200,
        None,
        Some("http://x/b.bmp"),
        None,
    )));
    assert_eq!(
        step,
        CycleStep::Fetch { image_url: "http://x/b.bmp".to_string(), refresh_rate: None }
    );
}

#[test]
fn first_cycle_polls_immediately() {
    let mut schedule = ScheduleState::new();
    assert_eq!(schedule.current_interval_seconds, DEFAULT_REFRESH_SECONDS);
    assert!(schedule.is_first_iteration);
    assert_eq!(schedule.begin_cycle(), None);
    assert_eq!(schedule.begin_cycle(), Some(DEFAULT_REFRESH_SECONDS));
}

#[test]
fn delivered_rate_governs_next_wait() {
    let mut schedule = ScheduleState::new();
    assert_eq!(schedule.begin_cycle(), None);
    let mut channel = ImageChannel::new(5);

    let outcome = deliver_payload(&mut schedule, &mut channel, vec![1], Some(42));
    assert_eq!(outcome, DeliverOutcome::Delivered);
    assert_eq!(schedule.begin_cycle(), Some(42));

    // A directive without a rate resets the wait to the default.
    let outcome = deliver_payload(&mut schedule, &mut channel, vec![2], None);
    assert_eq!(outcome, DeliverOutcome::Delivered);
    assert_eq!(schedule.begin_cycle(), Some(DEFAULT_REFRESH_SECONDS));
}

#[test]
fn full_channel_gives_payload_back_and_commits_nothing() {
    let mut schedule = ScheduleState::new();
    assert_eq!(schedule.begin_cycle(), None);
    let mut channel = ImageChannel::new(1);

    assert_eq!(
        deliver_payload(&mut schedule, &mut channel, vec![1], Some(30)),
        DeliverOutcome::Delivered
    );
    // Backpressure: the payload comes back to retry, the schedule stays put.
    assert_eq!(
        deliver_payload(&mut schedule, &mut channel, vec![2, 3], Some(7)),
        DeliverOutcome::Busy(vec![2, 3])
    );
    assert_eq!(schedule.current_interval_seconds, 30);
}

#[test]
fn closed_channel_rejects_delivery_and_commits_nothing() {
    let mut schedule = ScheduleState::new();
    assert_eq!(schedule.begin_cycle(), None);
    let mut channel = ImageChannel::new(5);
    channel.close();

    assert_eq!(
        deliver_payload(&mut schedule, &mut channel, vec![9], Some(30)),
        DeliverOutcome::Rejected
    );
    assert_eq!(schedule.current_interval_seconds, DEFAULT_REFRESH_SECONDS);
}

//! The poller's refresh-cycle state machine.
//!
//! Each cycle waits (unless it is the very first), polls the status endpoint,
//! interprets what came back, and on success fetches the image and delivers it
//! to the renderer. The I/O itself happens outside; this module decides, from
//! the poller's state and each cycle's events, what to do next. The error
//! policy is asymmetric on purpose: transport failures, malformed bodies and
//! the documented server-error status are swallowed — log, skip the cycle, try
//! again on schedule — while a success directive without an image URL, or a
//! closed image channel, ends the poller, because continuing would spin
//! forever with nothing to show or nowhere to send it.

use vstd::prelude::*;

use crate::channel::{ImageChannel, SendOutcome};
use crate::models::{DisplayResponse, SERVER_ERROR_STATUS};

verus! {

/// Seconds between polls when the service dictates no refresh rate.
pub const DEFAULT_REFRESH_SECONDS: u64 = 600;

/// Mutable state the poller carries across cycles.
pub struct ScheduleState {
    /// Seconds to wait before the next poll, when a wait is due.
    pub current_interval_seconds: u64,
    /// The first cycle polls immediately, without waiting.
    pub is_first_iteration: bool,
}

/// The wait a cycle begins with: none on the first cycle, else the current
/// interval.
pub open spec fn spec_next_wait(s: ScheduleState) -> Option<u64> {
    if s.is_first_iteration {
        None
    } else {
        Some(s.current_interval_seconds)
    }
}

/// The interval a delivered directive dictates: its refresh rate, or the
/// default when it names none.
pub open spec fn spec_committed_interval(refresh_rate: Option<u64>) -> u64 {
    match refresh_rate {
        Some(seconds) => seconds,
        None => DEFAULT_REFRESH_SECONDS,
    }
}

/// The schedule after a delivered directive's refresh rate is adopted.
pub open spec fn spec_commit(s: ScheduleState, refresh_rate: Option<u64>) -> ScheduleState {
    ScheduleState { current_interval_seconds: spec_committed_interval(refresh_rate), ..s }
}

impl ScheduleState {
    /// The poller starts on the default interval, about to make its first,
    /// unwaited poll.
    pub fn new() -> (s: Self)
        ensures
            s.current_interval_seconds == DEFAULT_REFRESH_SECONDS,
            s.is_first_iteration,
    {
        ScheduleState { current_interval_seconds: DEFAULT_REFRESH_SECONDS, is_first_iteration: true }
    }

    /// Open a cycle: how long to wait before polling, if at all. The first
    /// cycle polls at once; every later one waits the current interval (or
    /// less, if the interrupt signal fires first — that race is the caller's).
    pub fn begin_cycle(&mut self) -> (wait_seconds: Option<u64>)
        ensures
            wait_seconds == spec_next_wait(*old(self)),
            *final(self) == (ScheduleState { is_first_iteration: false, ..*old(self) }),
    {
        if self.is_first_iteration {
            self.is_first_iteration = false;
            None
        } else {
            Some(self.current_interval_seconds)
        }
    }

    /// Adopt the refresh rate of a directive whose image was delivered: the
    /// named rate, or the default when the directive names none.
    pub fn commit_refresh(&mut self, refresh_rate: Option<u64>)
        ensures
            *final(self) == spec_commit(*old(self), refresh_rate),
    {
        match refresh_rate {
            Some(seconds) => {
                self.current_interval_seconds = seconds;
            }
            None => {
                self.current_interval_seconds = DEFAULT_REFRESH_SECONDS;
            }
        }
    }
}

/// What one poll attempt produced, as the surrounding I/O reports it.
#[derive(Debug, PartialEq)]
pub enum PollEvent {
    /// No response came back from the status endpoint.
    TransportFailure,
    /// A response came back but its body did not parse as a directive.
    MalformedBody,
    /// The response body parsed into a directive.
    Directive(DisplayResponse),
}

/// A recoverable reason to skip the rest of a cycle: log it and poll again on
/// schedule.
#[derive(Debug, PartialEq)]
pub enum SkipReason {
    /// The status request got no response.
    PollTransportFailed,
    /// The response body was not a directive.
    MalformedBody,
    /// The directive carried the documented failure status; the server's
    /// message comes along when it sent one.
    ServerError(Option<String>),
}

/// A contract violation that ends the poller.
#[derive(Debug, PartialEq)]
pub enum FatalReason {
    /// A success directive without an image URL: there is nothing to render
    /// and the renderer would never be told.
    MissingImageUrl,
    /// The image channel's consumer is gone: there is nowhere to send results.
    ChannelClosed,
}

/// What the poller does with the rest of the cycle.
#[derive(Debug, PartialEq)]
pub enum CycleStep {
    /// Swallow the failure: log it, touch nothing, poll again on schedule.
    Skip(SkipReason),
    /// Fetch the image at `image_url` and deliver it; `refresh_rate` is
    /// committed to the schedule only once the payload is delivered.
    Fetch { image_url: String, refresh_rate: Option<u64> },
    /// Stop the poller and propagate the violation.
    Fail(FatalReason),
}

/// The swallow-vs-propagate policy, as one total function of the poll event.
pub open spec fn spec_interpret(event: PollEvent) -> CycleStep {
    match event {
        PollEvent::TransportFailure => CycleStep::Skip(SkipReason::PollTransportFailed),
        PollEvent::MalformedBody => CycleStep::Skip(SkipReason::MalformedBody),
        PollEvent::Directive(directive) => {
            if directive.is_server_error() {
                CycleStep::Skip(SkipReason::ServerError(directive.error))
            } else {
                match directive.image_url {
                    None => CycleStep::Fail(FatalReason::MissingImageUrl),
                    Some(url) => CycleStep::Fetch {
                        image_url: url,
                        refresh_rate: directive.refresh_rate,
                    },
                }
            }
        }
    }
}

/// Decide the rest of the cycle from what the poll attempt produced. This is
/// the single dispatch point of the error policy: exactly the transport
/// failure, the malformed body and the server-error status are skipped;
/// exactly the missing image URL fails; every other directive leads to a
/// fetch.
pub fn interpret_poll(event: PollEvent) -> (step: CycleStep)
    ensures
        step == spec_interpret(event),
{
    match event {
        PollEvent::TransportFailure => CycleStep::Skip(SkipReason::PollTransportFailed),
        PollEvent::MalformedBody => CycleStep::Skip(SkipReason::MalformedBody),
        PollEvent::Directive(directive) => {
            if directive.status == SERVER_ERROR_STATUS {
                CycleStep::Skip(SkipReason::ServerError(directive.error))
            } else {
                match directive.image_url {
                    None => CycleStep::Fail(FatalReason::MissingImageUrl),
                    Some(url) => CycleStep::Fetch {
                        image_url: url,
                        refresh_rate: directive.refresh_rate,
                    },
                }
            }
        }
    }
}

/// Outcome of handing a fetched image to the renderer.
#[derive(Debug, PartialEq)]
pub enum DeliverOutcome {
    /// The payload is queued and the schedule follows the directive's rate.
    Delivered,
    /// The channel is full: backpressure. Nothing changed; the payload comes
    /// back so the producer can wait for the renderer and retry.
    Busy(Vec<u8>),
    /// The channel is closed. Nothing changed; this is fatal.
    Rejected,
}

/// Deliver a fetched payload and, only once it is queued, commit the
/// directive's refresh rate to the schedule. A full channel leaves both the
/// channel and the schedule untouched and hands the payload back; a closed
/// channel leaves both untouched and rejects.
pub fn deliver_payload(
    schedule: &mut ScheduleState,
    channel: &mut ImageChannel,
    payload: Vec<u8>,
    refresh_rate: Option<u64>,
) -> (outcome: DeliverOutcome)
    requires
        old(channel).well_formed(),
    ensures
        final(channel).well_formed(),
        final(channel).capacity() == old(channel).capacity(),
        final(channel).is_closed() == old(channel).is_closed(),
        old(channel).is_closed() ==> {
            &&& outcome is Rejected
            &&& *final(schedule) == *old(schedule)
            &&& *final(channel) == *old(channel)
        },
        !old(channel).is_closed() && old(channel).contents().len() == old(channel).capacity()
            ==> {
            &&& outcome matches DeliverOutcome::Busy(p) && p == payload
            &&& *final(schedule) == *old(schedule)
            &&& *final(channel) == *old(channel)
        },
        !old(channel).is_closed() && old(channel).contents().len() < old(channel).capacity()
            ==> {
            &&& outcome is Delivered
            &&& final(channel).contents() == old(channel).contents().push(payload@)
            &&& *final(schedule) == spec_commit(*old(schedule), refresh_rate)
        },
{
    match channel.try_send(payload) {
        SendOutcome::Accepted => {
            schedule.commit_refresh(refresh_rate);
            DeliverOutcome::Delivered
        }
        SendOutcome::Full(returned) => DeliverOutcome::Busy(returned),
        SendOutcome::Closed(_dropped) => DeliverOutcome::Rejected,
    }
}

/// Law: a directive carrying the documented failure status is swallowed. The
/// cycle becomes a skip carrying the server's message, so no image fetch is
/// attempted; and since only a delivered fetch commits a refresh rate, the
/// current interval stays as it was.
pub proof fn lemma_server_error_is_skipped(directive: DisplayResponse)
    requires
        directive.is_server_error(),
    ensures
        spec_interpret(PollEvent::Directive(directive)) == CycleStep::Skip(
            SkipReason::ServerError(directive.error),
        ),
{
}

/// Law: a delivered directive dictates the next wait. Once its refresh rate is
/// committed, the next cycle waits exactly that many seconds, or the default
/// when the directive named none. (A cycle has run, so the schedule is past
/// its first iteration.)
pub proof fn lemma_refresh_rate_governs_next_wait(s: ScheduleState, refresh_rate: Option<u64>)
    requires
        !s.is_first_iteration,
    ensures
        refresh_rate matches Some(seconds) ==> spec_next_wait(spec_commit(s, refresh_rate))
            == Some(seconds),
        refresh_rate is None ==> spec_next_wait(spec_commit(s, refresh_rate)) == Some(
            DEFAULT_REFRESH_SECONDS,
        ),
{
}

} // verus!

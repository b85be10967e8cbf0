//! A middleware that holds each request back until a policy-chosen
//! deadline has passed, then hands it to the inner dispatcher and forwards
//! the inner outcome.
//!
//! Time is counted in whole milliseconds on a monotonic clock. The caller
//! drives each request: it polls the timer and the inner operation and
//! reports their outcomes here; the decisions are made here.
use vstd::prelude::*;
use crate::progress::Progress;

verus! {

#[verifier::external_type_specification]
#[verifier::external_body]
pub struct ExTimerError(tokio_timer::Error);

/// How long each request should be delayed, in milliseconds.
pub trait Policy<Request> {
    fn delay(&self, req: &Request) -> u64;
}

/// Why a delayed request failed.
pub enum DelayError<E> {
    /// The timer driver failed while the request was delayed.
    TimerError(tokio_timer::Error),
    /// The inner dispatcher failed, in its readiness check or its dispatch.
    ServiceError(E),
}

/// What one poll of a request's deadline timer reported.
pub enum TimerPoll {
    /// The timer has not fired.
    Pending,
    /// The timer has fired.
    Elapsed,
    /// The timer driver failed.
    Fault(tokio_timer::Error),
}

/// What the caller is to do after a poll of the timer.
pub enum Step<Request, S, E> {
    /// The deadline has not passed: poll again when the timer wakes.
    Wait,
    /// The deadline has passed: dispatch the request on the service, and
    /// poll the operation that this starts at once.
    Dispatch(S, Request),
    /// The request has failed for good.
    Fail(DelayError<E>),
}

/// The kind of step a timer poll leads to.
pub enum Decision {
    Wait,
    Dispatch,
    Fail,
}

/// The deadline of a request issued at `now` and delayed by `delay`: their
/// sum, or the end of the clock's range where the sum does not fit.
pub open spec fn deadline_after(now: u64, delay: u64) -> u64 {
    if now + delay > u64::MAX {
        u64::MAX
    } else {
        (now + delay) as u64
    }
}

/// What a timer poll at time `now` decides for a request due at `deadline`:
/// a timer fault ends it, a passed deadline dispatches it, and otherwise it
/// keeps waiting.
pub open spec fn decision(deadline: u64, timer: TimerPoll, now: u64) -> Decision {
    match timer {
        TimerPoll::Fault(_) => Decision::Fail,
        _ => if now >= deadline {
            Decision::Dispatch
        } else {
            Decision::Wait
        },
    }
}

/// Whether a request due at `deadline`, polled with the given timer reports
/// and times in order, is dispatched by one of those polls.
pub open spec fn run_dispatches(deadline: u64, polls: Seq<(TimerPoll, u64)>) -> bool
    decreases polls.len(),
{
    if polls.len() == 0 {
        false
    } else {
        match decision(deadline, polls[0].0, polls[0].1) {
            Decision::Wait => run_dispatches(deadline, polls.drop_first()),
            Decision::Dispatch => true,
            Decision::Fail => false,
        }
    }
}

/// Delays each request by what its policy says before sending it on.
pub struct Delay<P, S> {
    policy: P,
    service: S,
}

enum State<Request, S> {
    Delaying { deadline: u64, service: S, request: Request },
    Called,
    Done,
}

/// One delayed request: waiting for its deadline, dispatched, or finished.
pub struct ResponseFuture<Request, S> {
    state: State<Request, S>,
}

impl<P, S> Delay<P, S> {
    pub closed spec fn policy(&self) -> P {
        self.policy
    }

    pub closed spec fn service(&self) -> S {
        self.service
    }

    /// A middleware that delays requests to `service` by `policy`.
    pub fn new(policy: P, service: S) -> (r: Delay<P, S>)
        ensures
            r.policy() == policy,
            r.service() == service,
    {
        Delay { policy, service }
    }

    /// The inner dispatcher, to query its readiness.
    pub fn service_mut(&mut self) -> (r: &mut S)
        ensures
            *r == old(self).service(),
            final(self).service() == *final(r),
            final(self).policy() == old(self).policy(),
    {
        &mut self.service
    }

    /// Readiness is the inner dispatcher's: ready when it is, pending when
    /// it is, and its failure becomes a service error.
    pub fn poll_ready<E>(&self, inner: Progress<(), E>) -> (r: Progress<(), DelayError<E>>)
        ensures
            match inner {
                Progress::Pending => r is Pending,
                Progress::Ready(_) => r is Ready,
                Progress::Failed(e) => r == Progress::<(), DelayError<E>>::Failed(DelayError::ServiceError(e)),
            },
    {
        match inner {
            Progress::Pending => Progress::Pending,
            Progress::Ready(()) => Progress::Ready(()),
            Progress::Failed(e) => Progress::Failed(DelayError::ServiceError(e)),
        }
    }

    /// Starts delaying `request`, issued at `now`, by `delay` milliseconds,
    /// on a clone of the inner dispatcher.
    pub fn call_with_delay<Request>(&self, request: Request, now: u64, delay: u64) -> (r:
        ResponseFuture<Request, S>) where S: Clone
        ensures
            r.is_delaying(),
            r.deadline() == deadline_after(now, delay),
            r.request() == request,
    {
        let deadline = if delay > u64::MAX - now {
            u64::MAX
        } else {
            now + delay
        };
        ResponseFuture {
            state: State::Delaying { deadline, service: self.service.clone(), request },
        }
    }

    /// Starts delaying `request`, issued at `now`, by what the policy says
    /// of it; the policy is asked once, before anything else.
    pub fn call<Request>(&self, request: Request, now: u64) -> (r: ResponseFuture<Request, S>) where
        P: Policy<Request>,
        S: Clone,

        ensures
            r.is_delaying(),
            r.deadline() >= now,
            r.request() == request,
    {
        let delay = self.policy.delay(&request);
        self.call_with_delay(request, now, delay)
    }
}

impl<Request, S> ResponseFuture<Request, S> {
    /// Waiting for the deadline, the request not yet dispatched.
    pub closed spec fn is_delaying(&self) -> bool {
        self.state is Delaying
    }

    /// Dispatched, waiting for the inner operation.
    pub closed spec fn is_called(&self) -> bool {
        self.state is Called
    }

    /// Finished: the outcome has been reported.
    pub closed spec fn is_done(&self) -> bool {
        self.state is Done
    }

    pub closed spec fn deadline(&self) -> u64 {
        self.state->Delaying_deadline
    }

    pub closed spec fn request(&self) -> Request {
        self.state->Delaying_request
    }

    pub closed spec fn service(&self) -> S {
        self.state->Delaying_service
    }

    /// Whether the request is still waiting for its deadline.
    pub fn delaying(&self) -> (r: bool)
        ensures
            r == self.is_delaying(),
    {
        match self.state {
            State::Delaying { .. } => true,
            _ => false,
        }
    }

    /// The deadline while the request is waiting for it.
    pub fn due(&self) -> (r: Option<u64>)
        ensures
            self.is_delaying() ==> r == Some(self.deadline()),
            !self.is_delaying() ==> r is None,
    {
        match &self.state {
            State::Delaying { deadline, .. } => Some(*deadline),
            _ => None,
        }
    }

    /// Whether the request has been dispatched and its outcome not reported.
    pub fn called(&self) -> (r: bool)
        ensures
            r == self.is_called(),
    {
        match self.state {
            State::Called => true,
            _ => false,
        }
    }

    /// Takes one poll of the deadline timer, made at time `now`, and decides:
    /// a timer fault ends the request with a timer error and drops it; once
    /// the deadline has passed the request and the service it goes to are
    /// handed out, exactly once; before that nothing changes.
    pub fn poll_timer<E>(&mut self, timer: TimerPoll, now: u64) -> (r: Step<Request, S, E>)
        requires
            old(self).is_delaying(),
        ensures
            match decision(old(self).deadline(), timer, now) {
                Decision::Wait => r is Wait && *final(self) == *old(self),
                Decision::Dispatch => r == Step::<Request, S, E>::Dispatch(
                    old(self).service(),
                    old(self).request(),
                ) && final(self).is_called(),
                Decision::Fail => r matches Step::Fail(DelayError::TimerError(e)) && timer
                    == TimerPoll::Fault(e) && final(self).is_done(),
            },
    {
        match timer {
            TimerPoll::Fault(e) => {
                self.state = State::Done;
                Step::Fail(DelayError::TimerError(e))
            },
            _ => {
                let due = match &self.state {
                    State::Delaying { deadline, .. } => now >= *deadline,
                    _ => false,
                };
                if due {
                    let mut st = State::Called;
                    core::mem::swap(&mut self.state, &mut st);
                    match st {
                        State::Delaying { service, request, .. } => Step::Dispatch(service, request),
                        _ => Step::Wait,
                    }
                } else {
                    Step::Wait
                }
            },
        }
    }

    /// Takes one poll of the dispatched inner operation and reports the
    /// request's outcome: pending, the inner value, or the inner error as a
    /// service error.
    pub fn poll_inner<T, E>(&mut self, outcome: Progress<T, E>) -> (r: Progress<T, DelayError<E>>)
        requires
            old(self).is_called(),
        ensures
            match outcome {
                Progress::Pending => r is Pending && final(self).is_called(),
                Progress::Ready(v) => r == Progress::<T, DelayError<E>>::Ready(v) && final(self).is_done(),
                Progress::Failed(e) => r == Progress::<T, DelayError<E>>::Failed(DelayError::ServiceError(e))
                    && final(self).is_done(),
            },
    {
        match outcome {
            Progress::Pending => Progress::Pending,
            Progress::Ready(v) => {
                self.state = State::Done;
                Progress::Ready(v)
            },
            Progress::Failed(e) => {
                self.state = State::Done;
                Progress::Failed(DelayError::ServiceError(e))
            },
        }
    }
}

/// A request issued at `t` and delayed by `d`, where `t + d` fits the
/// clock, is dispatched by a timer poll at time `now` that reports no fault
/// exactly when `now` is at or past `t + d`.
pub proof fn lemma_dispatch_at_deadline(t: u64, d: u64, timer: TimerPoll, now: u64)
    requires
        t + d <= u64::MAX,
        !(timer is Fault),
    ensures
        decision(deadline_after(t, d), timer, now) == (if now >= t + d {
            Decision::Dispatch
        } else {
            Decision::Wait
        }),
{
}

/// However often a delayed request is polled before its deadline, and
/// whatever its timer reports, none of those polls dispatches it; so a
/// request dropped before its deadline never reaches the inner dispatcher.
pub proof fn lemma_no_dispatch_before_deadline(deadline: u64, polls: Seq<(TimerPoll, u64)>)
    requires
        forall|i: int| 0 <= i < polls.len() ==> #[trigger] polls[i].1 < deadline,
    ensures
        !run_dispatches(deadline, polls),
    decreases polls.len(),
{
    if polls.len() > 0 {
        assert forall|i: int| 0 <= i < polls.drop_first().len() implies #[trigger] polls.drop_first()[i].1
            < deadline by {
            assert(polls.drop_first()[i] == polls[i + 1]);
        }
        lemma_no_dispatch_before_deadline(deadline, polls.drop_first());
    }
}

/// Two requests issued at `t` with delays `d1 < d2`, where `t + d2` fits
/// the clock: the first falls due strictly before the second, and any poll
/// without a timer fault that dispatches the second would dispatch the
/// first as well; polled at or after `t + d2`, both are dispatched.
pub proof fn lemma_dispatch_order(t: u64, d1: u64, d2: u64, timer: TimerPoll, now: u64)
    requires
        d1 < d2,
        t + d2 <= u64::MAX,
        !(timer is Fault),
    ensures
        deadline_after(t, d1) < deadline_after(t, d2),
        decision(deadline_after(t, d2), timer, now) is Dispatch ==> decision(
            deadline_after(t, d1),
            timer,
            now,
        ) is Dispatch,
        now >= t + d2 ==> decision(deadline_after(t, d1), timer, now) is Dispatch && decision(
            deadline_after(t, d2),
            timer,
            now,
        ) is Dispatch,
{
}

} // verus!

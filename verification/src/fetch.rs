//! The fetch service: resolving a remote file name to bytes on disk.
//!
//! A [`FetchTask`] is a state machine. The surrounding shell performs each
//! [`FetchAction`] the machine hands out (an existence check, an HTTP GET,
//! a file write) and reports what it observed as a [`FetchEvent`]; the
//! machine decides the next step. The policy is: succeed immediately when
//! the destination file already exists; otherwise GET the primary endpoint,
//! fall back to the secondary endpoint on any non-200 answer or connection
//! failure, and stream a 200 body to the destination file.

use vstd::prelude::*;
use crate::text::{concat2, dec_spec, u64_to_dec};

verus! {

/// Why a fetch failed.
#[derive(Clone, Copy, Debug, PartialEq, Eq, Structural)]
pub enum FetchError {
    /// The deciding (fallback) endpoint was unreachable.
    NetworkError,
    /// The deciding (fallback) endpoint answered with this non-200 status.
    HttpStatus(u16),
    /// The artifact could not be written to the destination file.
    IoError,
}

impl FetchError {
    /// The human-readable wording of this failure; a status failure names
    /// the deciding status code in decimal.
    pub open spec fn text_spec(&self) -> Seq<char> {
        match self {
            FetchError::NetworkError => "Failed to download from both CDN endpoints."@,
            FetchError::HttpStatus(code) => "Cannot download file: "@ + dec_spec(code as int),
            FetchError::IoError => "Cannot download file: writing the destination failed."@,
        }
    }

    /// Renders the failure for status lines and terminal messages.
    pub fn text(&self) -> (r: String)
        ensures
            r@ == self.text_spec(),
    {
        match self {
            FetchError::NetworkError => "Failed to download from both CDN endpoints.".to_owned(),
            FetchError::HttpStatus(code) => {
                let digits = u64_to_dec(*code as u64);
                concat2("Cannot download file: ", digits.as_str())
            },
            FetchError::IoError => "Cannot download file: writing the destination failed.".to_owned(),
        }
    }
}

/// What one HTTP GET came to.
pub enum HttpOutcome {
    /// HTTP 200; `body` is the full response body.
    Success { body: Vec<u8> },
    /// The endpoint answered with a non-200 status.
    Status { code: u16 },
    /// The request failed outright (DNS, connect, timeout).
    Unreachable,
}

/// What the shell observed after performing the last action.
pub enum FetchEvent {
    /// Whether the destination file already exists.
    CacheChecked { present: bool },
    /// The outcome of the HTTP GET that was requested.
    HttpDone { outcome: HttpOutcome },
    /// Whether writing the body to the destination succeeded.
    WriteDone { ok: bool },
}

/// What the shell is asked to do next.
pub enum FetchAction {
    /// Check whether `dest` exists on disk.
    CheckCache { dest: String },
    /// Issue an HTTP GET against `url`.
    HttpGet { url: String },
    /// Create or truncate `dest` and write `body` to it.
    WriteFile { dest: String, body: Vec<u8> },
    /// The task is finished; read its outcome.
    Finish,
}

/// Where a fetch stands.
pub enum FetchState {
    /// Waiting to learn whether the destination already exists.
    CheckingCache,
    /// Waiting for the primary endpoint's answer.
    TryingPrimary,
    /// Waiting for the fallback endpoint's answer.
    TryingFallback,
    /// Waiting for the destination file write to complete.
    Writing,
    /// The fetch is over.
    Done { result: Result<(), FetchError> },
}

/// One fetch of a remote file to a destination path.
pub struct FetchTask {
    /// File name on the content endpoints.
    pub remote: String,
    /// Local destination path.
    pub dest: String,
    /// Primary endpoint base URL.
    pub primary: String,
    /// Fallback endpoint base URL.
    pub fallback: String,
    /// Where the fetch stands.
    pub state: FetchState,
}

/// The event kinds the machine can accept in each state; anything else is a
/// protocol error of the shell.
pub open spec fn fetch_event_fits(state: FetchState, ev: FetchEvent) -> bool {
    match state {
        FetchState::CheckingCache => ev is CacheChecked,
        FetchState::TryingPrimary => ev is HttpDone,
        FetchState::TryingFallback => ev is HttpDone,
        FetchState::Writing => ev is WriteDone,
        FetchState::Done { .. } => false,
    }
}

/// A non-200 status must be reported as `Status`, never as `Success`.
pub open spec fn fetch_event_wf(ev: FetchEvent) -> bool {
    ev matches FetchEvent::HttpDone { outcome: HttpOutcome::Status { code } } ==> code != 200
}

/// The full transition table of the fetch machine: from task `t0` on event
/// `ev`, the machine moves to `t1` and requests `act`.
pub open spec fn fetch_transition(t0: FetchTask, ev: FetchEvent, t1: FetchTask, act: FetchAction) -> bool {
    &&& t1.remote@ == t0.remote@
    &&& t1.dest@ == t0.dest@
    &&& t1.primary@ == t0.primary@
    &&& t1.fallback@ == t0.fallback@
    &&& match t0.state {
        FetchState::CheckingCache => {
            match ev {
                FetchEvent::CacheChecked { present } => {
                    if present {
                        // Cache hit: the fetch is idempotent and issues no
                        // network request at all.
                        &&& t1.state matches FetchState::Done { result: Ok(()) }
                        &&& act is Finish
                    } else {
                        &&& t1.state is TryingPrimary
                        &&& act matches FetchAction::HttpGet { url } && url@ == t0.primary@ + t0.remote@
                    }
                },
                _ => false,
            }
        },
        FetchState::TryingPrimary => {
            match ev {
                FetchEvent::HttpDone { outcome } => {
                    match outcome {
                        HttpOutcome::Success { body } => {
                            &&& t1.state is Writing
                            &&& act matches FetchAction::WriteFile { dest, body: b }
                                && dest@ == t0.dest@ && b@ == body@
                        },
                        HttpOutcome::Status { .. } | HttpOutcome::Unreachable => {
                            // Primary failed one way or the other: retry once
                            // against the fallback endpoint.
                            &&& t1.state is TryingFallback
                            &&& act matches FetchAction::HttpGet { url } && url@ == t0.fallback@ + t0.remote@
                        },
                    }
                },
                _ => false,
            }
        },
        FetchState::TryingFallback => {
            match ev {
                FetchEvent::HttpDone { outcome } => {
                    match outcome {
                        HttpOutcome::Success { body } => {
                            &&& t1.state is Writing
                            &&& act matches FetchAction::WriteFile { dest, body: b }
                                && dest@ == t0.dest@ && b@ == body@
                        },
                        HttpOutcome::Status { code } => {
                            &&& t1.state matches FetchState::Done { result: Err(FetchError::HttpStatus(c)) } && c == code
                            &&& act is Finish
                        },
                        HttpOutcome::Unreachable => {
                            &&& t1.state matches FetchState::Done { result: Err(FetchError::NetworkError) }
                            &&& act is Finish
                        },
                    }
                },
                _ => false,
            }
        },
        FetchState::Writing => {
            match ev {
                FetchEvent::WriteDone { ok } => {
                    &&& t1.state matches FetchState::Done { result }
                        && result == (if ok { Ok::<(), FetchError>(()) } else { Err(FetchError::IoError) })
                    &&& act is Finish
                },
                _ => false,
            }
        },
        FetchState::Done { .. } => false,
    }
}

impl FetchTask {
    /// Starts a fetch of `remote` to `dest` over the given endpoint pair.
    /// The first thing the shell must report is whether `dest` exists.
    pub fn new(remote: &str, dest: &str, primary: &str, fallback: &str) -> (t: FetchTask)
        ensures
            t.remote@ == remote@,
            t.dest@ == dest@,
            t.primary@ == primary@,
            t.fallback@ == fallback@,
            t.state is CheckingCache,
    {
        FetchTask {
            remote: remote.to_owned(),
            dest: dest.to_owned(),
            primary: primary.to_owned(),
            fallback: fallback.to_owned(),
            state: FetchState::CheckingCache,
        }
    }

    /// Whether the fetch is over.
    pub fn done(&self) -> (r: bool)
        ensures
            r == (self.state is Done),
    {
        match self.state {
            FetchState::Done { .. } => true,
            _ => false,
        }
    }

    /// The outcome of a finished fetch.
    pub fn outcome(&self) -> (r: Option<Result<(), FetchError>>)
        ensures
            match self.state {
                FetchState::Done { result } => r == Some(result),
                _ => r is None,
            },
    {
        match self.state {
            FetchState::Done { result } => Some(result),
            _ => None,
        }
    }

    /// Feeds the machine what the shell observed; returns what to do next.
    pub fn step(&mut self, ev: FetchEvent) -> (act: FetchAction)
        requires
            fetch_event_fits(old(self).state, ev),
            fetch_event_wf(ev),
        ensures
            fetch_transition(*old(self), ev, *final(self), act),
    {
        match ev {
            FetchEvent::CacheChecked { present } => {
                if present {
                    self.state = FetchState::Done { result: Ok(()) };
                    FetchAction::Finish
                } else {
                    self.state = FetchState::TryingPrimary;
                    FetchAction::HttpGet { url: concat2(self.primary.as_str(), self.remote.as_str()) }
                }
            },
            FetchEvent::HttpDone { outcome } => {
                match outcome {
                    HttpOutcome::Success { body } => {
                        let dest = self.dest.clone();
                        self.state = FetchState::Writing;
                        FetchAction::WriteFile { dest, body }
                    },
                    HttpOutcome::Status { code } => {
                        match self.state {
                            FetchState::TryingPrimary => {
                                self.state = FetchState::TryingFallback;
                                FetchAction::HttpGet {
                                    url: concat2(self.fallback.as_str(), self.remote.as_str()),
                                }
                            },
                            _ => {
                                self.state = FetchState::Done {
                                    result: Err(FetchError::HttpStatus(code)),
                                };
                                FetchAction::Finish
                            },
                        }
                    },
                    HttpOutcome::Unreachable => {
                        match self.state {
                            FetchState::TryingPrimary => {
                                self.state = FetchState::TryingFallback;
                                FetchAction::HttpGet {
                                    url: concat2(self.fallback.as_str(), self.remote.as_str()),
                                }
                            },
                            _ => {
                                self.state = FetchState::Done { result: Err(FetchError::NetworkError) };
                                FetchAction::Finish
                            },
                        }
                    },
                }
            },
            FetchEvent::WriteDone { ok } => {
                if ok {
                    self.state = FetchState::Done { result: Ok(()) };
                } else {
                    self.state = FetchState::Done { result: Err(FetchError::IoError) };
                }
                FetchAction::Finish
            },
        }
    }
}

/// Law: a fetch whose destination already exists finishes successfully at
/// once, and the action it requests is not a network request. Together with
/// [`lemma_done_is_terminal`] this gives idempotence: once a fetch has
/// succeeded, a repeated fetch of the same destination sees the file
/// present and performs zero network calls.
pub proof fn lemma_cache_hit_skips_network(t0: FetchTask, ev: FetchEvent, t1: FetchTask, act: FetchAction)
    requires
        t0.state is CheckingCache,
        ev matches FetchEvent::CacheChecked { present: true },
        fetch_transition(t0, ev, t1, act),
    ensures
        t1.state matches FetchState::Done { result: Ok(()) },
        !(act is HttpGet),
        !(act is WriteFile),
{
}

/// Law: a finished fetch admits no further transition, so it can request
/// no further action of any kind.
pub proof fn lemma_done_is_terminal(t0: FetchTask, ev: FetchEvent, t1: FetchTask, act: FetchAction)
    requires
        t0.state is Done,
    ensures
        !fetch_transition(t0, ev, t1, act),
{
}

/// Law: when the primary endpoint answers non-200 and the fallback answers
/// 200 with body `b`, the machine's one write action carries exactly `b` to
/// the task's destination — the artifact written to disk equals the
/// fallback response body.
pub proof fn lemma_fallback_body_is_written(
    t0: FetchTask,
    code: u16,
    t1: FetchTask,
    a1: FetchAction,
    b: Vec<u8>,
    t2: FetchTask,
    a2: FetchAction,
)
    requires
        t0.state is TryingPrimary,
        fetch_transition(t0, FetchEvent::HttpDone { outcome: HttpOutcome::Status { code } }, t1, a1),
        fetch_transition(t1, FetchEvent::HttpDone { outcome: HttpOutcome::Success { body: b } }, t2, a2),
    ensures
        a1 matches FetchAction::HttpGet { url } && url@ == t0.fallback@ + t0.remote@,
        a2 matches FetchAction::WriteFile { dest, body } && dest@ == t0.dest@ && body@ == b@,
        t2.state is Writing,
{
}

} // verus!

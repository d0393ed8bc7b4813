//! One injection session: a live status line, an in-progress flag and a
//! one-shot terminal outcome.
//!
//! The session for a new request may only begin once the previous request's
//! in-progress flag has been cleared; [`Session::try_begin`] is the
//! authoritative, atomic gate (the shell tests and sets it before spawning
//! any background work). Terminal outcomes are tagged, and their textual
//! form keeps the classification readable by prefix: a success reads
//! `"SUCCESS: "` followed by the payload's name, and a failure text never
//! starts with that prefix.

use vstd::prelude::*;
use vstd::string::StrSliceExecFns;
use crate::text::{concat2, is_prefix_of, str_starts_with};

verus! {

/// The prefix that marks a terminal message as a success.
pub open spec fn has_success_prefix(s: Seq<char>) -> bool {
    is_prefix_of("SUCCESS: "@, s)
}

/// The tagged terminal outcome of one injection session.
pub enum Terminal {
    /// The payload named `name` was injected.
    Success { name: String },
    /// The session failed; `message` says why.
    Failure { message: String },
}

impl Terminal {
    /// A failure's text can never be mistaken for a success.
    pub open spec fn wf(&self) -> bool {
        self matches Terminal::Failure { message } ==> !has_success_prefix(message@)
    }

    /// The textual form handed to observers.
    pub open spec fn text_spec(&self) -> Seq<char> {
        match self {
            Terminal::Success { name } => "SUCCESS: "@ + name@,
            Terminal::Failure { message } => message@,
        }
    }

    /// A success outcome for the payload named `name`.
    pub fn success(name: &str) -> (t: Terminal)
        ensures
            t matches Terminal::Success { name: n } && n@ == name@,
            t.wf(),
    {
        Terminal::Success { name: name.to_owned() }
    }

    /// A failure outcome; the text must not wear the success prefix.
    pub fn failure(message: String) -> (t: Terminal)
        requires
            !has_success_prefix(message@),
        ensures
            t matches Terminal::Failure { message: m } && m@ == message@,
            t.wf(),
    {
        Terminal::Failure { message }
    }

    /// Renders the outcome for the observer channel.
    pub fn text(&self) -> (r: String)
        ensures
            r@ == self.text_spec(),
    {
        match self {
            Terminal::Success { name } => concat2("SUCCESS: ", name.as_str()),
            Terminal::Failure { message } => message.clone(),
        }
    }

    /// Classifies a raw channel message by its prefix, as a plain-text
    /// observer would: a message wearing the success prefix is a success for
    /// the name behind it, anything else a failure.
    pub fn classify(message: &str) -> (t: Terminal)
        ensures
            has_success_prefix(message@) ==> (t matches Terminal::Success { name }
                && name@ == message@.skip("SUCCESS: "@.len() as int)),
            !has_success_prefix(message@) ==> (t matches Terminal::Failure { message: m }
                && m@ == message@),
            t.wf(),
    {
        if str_starts_with(message, "SUCCESS: ") {
            let n: usize = message.unicode_len();
            let p: usize = "SUCCESS: ".unicode_len();
            let rest: &str = message.substring_char(p, n);
            proof {
                assert(message@.subrange(p as int, n as int) =~= message@.skip(p as int));
            }
            Terminal::Success { name: rest.to_owned() }
        } else {
            Terminal::Failure { message: message.to_owned() }
        }
    }
}

/// Law: rendering a terminal outcome and classifying the text again loses
/// nothing — the tag survives, a success keeps its name, a failure its
/// message.
pub proof fn lemma_terminal_text_round_trip(t: Terminal)
    requires
        t.wf(),
    ensures
        t matches Terminal::Success { name } ==> has_success_prefix(t.text_spec())
            && t.text_spec().skip("SUCCESS: "@.len() as int) == name@,
        t matches Terminal::Failure { message } ==> !has_success_prefix(t.text_spec())
            && t.text_spec() == message@,
{
    lemma_terminal_message_shape(t);
    match t {
        Terminal::Success { name } => {
            assert(("SUCCESS: "@ + name@).skip("SUCCESS: "@.len() as int) =~= name@);
        },
        Terminal::Failure { .. } => {},
    }
}

/// Law: an observer can classify a well-formed terminal message by its
/// prefix alone — the text starts with `"SUCCESS: "` exactly when the
/// session succeeded.
pub proof fn lemma_terminal_message_shape(t: Terminal)
    requires
        t.wf(),
    ensures
        has_success_prefix(t.text_spec()) <==> t is Success,
{
    match t {
        Terminal::Success { name } => {
            reveal_strlit("SUCCESS: ");
            assert(("SUCCESS: "@ + name@).subrange(0, "SUCCESS: "@.len() as int) =~= "SUCCESS: "@);
        },
        Terminal::Failure { message } => {},
    }
}

/// Any text that is empty or does not open with `'S'` lacks the success
/// prefix; failure texts built from the loader's error wordings all qualify.
pub proof fn lemma_not_success_prefix(s: Seq<char>)
    requires
        s.len() == 0 || s[0] != 'S',
    ensures
        !has_success_prefix(s),
{
    reveal_strlit("SUCCESS: ");
    if has_success_prefix(s) {
        assert(s.subrange(0, "SUCCESS: "@.len() as int)[0] == s[0]);
    }
}

/// The progress surface one injection request is observed through.
pub struct Session {
    /// Human-readable status of the current step.
    pub status: String,
    /// Whether a background task owns this session right now.
    pub in_progress: bool,
    /// The one-shot terminal outcome, once the run is over.
    pub terminal: Option<Terminal>,
}

impl Session {
    /// Any terminal outcome held by the session is well-formed.
    pub open spec fn wf(&self) -> bool {
        self.terminal matches Some(t) ==> t.wf()
    }

    /// A fresh, idle session.
    pub fn new() -> (s: Session)
        ensures
            s.status@ == Seq::<char>::empty(),
            !s.in_progress,
            s.terminal is None,
            s.wf(),
    {
        Session { status: String::new(), in_progress: false, terminal: None }
    }

    /// The single-flight gate. Submitting a request while one is already in
    /// progress starts nothing and changes nothing; otherwise the session is
    /// claimed — the flag is raised before any background work is spawned,
    /// so a second submission always sees "busy".
    pub fn try_begin(&mut self) -> (started: bool)
        ensures
            old(self).in_progress ==> !started && *final(self) == *old(self),
            !old(self).in_progress ==> started
                && final(self).in_progress
                && final(self).status@ == "Starting injection..."@
                && final(self).terminal is None,
            old(self).wf() ==> final(self).wf(),
    {
        if self.in_progress {
            false
        } else {
            self.in_progress = true;
            self.status = "Starting injection...".to_owned();
            self.terminal = None;
            true
        }
    }

    /// Publishes a status transition.
    pub fn set_status(&mut self, status: &str)
        ensures
            final(self).status@ == status@,
            final(self).in_progress == old(self).in_progress,
            final(self).terminal == old(self).terminal,
            old(self).wf() ==> final(self).wf(),
    {
        self.status = status.to_owned();
    }

    /// Ends the run: records the outcome and clears the in-progress flag, so
    /// the next request may begin.
    pub fn finish(&mut self, t: Terminal)
        requires
            t.wf(),
        ensures
            !final(self).in_progress,
            final(self).terminal == Some(t),
            final(self).status@ == old(self).status@,
            final(self).wf(),
    {
        self.terminal = Some(t);
        self.in_progress = false;
    }

    /// What the UI shows beside the spinner.
    pub fn current_status(&self) -> (r: String)
        ensures
            r@ == self.status@,
    {
        self.status.clone()
    }

    /// Whether a run holds the session right now.
    pub fn is_in_progress(&self) -> (r: bool)
        ensures
            r == self.in_progress,
    {
        self.in_progress
    }

    /// Drains the one-shot terminal outcome, as the observer does once per
    /// tick.
    pub fn take_terminal(&mut self) -> (r: Option<Terminal>)
        ensures
            r == old(self).terminal,
            final(self).terminal is None,
            final(self).status@ == old(self).status@,
            final(self).in_progress == old(self).in_progress,
            final(self).wf(),
    {
        self.terminal.take()
    }
}

} // verus!

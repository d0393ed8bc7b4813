//! The presence side-channel's state: what the announcement worker would
//! currently broadcast.
//!
//! The worker keeps a current state line and a current details line; each
//! update overwrites whichever parts it carries and leaves the rest. The
//! shell owns the actual connection and forwards these values after every
//! change.

use vstd::prelude::*;

verus! {

/// One message to the announcement worker.
pub enum RpcUpdate {
    /// Overwrite the carried parts of the presence.
    Update { state: Option<String>, details: Option<String> },
    /// Stop the worker.
    Shutdown,
}

/// The presence the worker would broadcast right now.
pub struct Rpc {
    /// The state line.
    pub state: String,
    /// The details line.
    pub details: String,
}

impl Rpc {
    /// A fresh presence: both lines empty, as the worker starts.
    pub fn new() -> (r: Rpc)
        ensures
            r.state@ == Seq::<char>::empty(),
            r.details@ == Seq::<char>::empty(),
    {
        Rpc { state: String::new(), details: String::new() }
    }

    /// Applies one worker message; returns whether the worker keeps running.
    pub fn apply(&mut self, update: RpcUpdate) -> (running: bool)
        ensures
            update matches RpcUpdate::Update { state, details } ==> {
                &&& running
                &&& final(self).state@ == (match state {
                    Some(s) => s@,
                    None => old(self).state@,
                })
                &&& final(self).details@ == (match details {
                    Some(d) => d@,
                    None => old(self).details@,
                })
            },
            update is Shutdown ==> !running && *final(self) == *old(self),
    {
        match update {
            RpcUpdate::Update { state, details } => {
                if let Some(s) = state {
                    self.state = s;
                }
                if let Some(d) = details {
                    self.details = d;
                }
                true
            },
            RpcUpdate::Shutdown => false,
        }
    }

    /// Overwrites the carried parts of the presence, as one update message.
    pub fn update(&mut self, state: Option<&str>, details: Option<&str>)
        ensures
            final(self).state@ == (match state {
                Some(s) => s@,
                None => old(self).state@,
            }),
            final(self).details@ == (match details {
                Some(d) => d@,
                None => old(self).details@,
            }),
    {
        let owned_state: Option<String> = match state {
            Some(s) => Some(s.to_owned()),
            None => None,
        };
        let owned_details: Option<String> = match details {
            Some(d) => Some(d.to_owned()),
            None => None,
        };
        let message = RpcUpdate::Update { state: owned_state, details: owned_details };
        self.apply(message);
    }
}

} // verus!

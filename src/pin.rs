//! The hardware-token PIN policy.
//!
//! Before a private-key operation on a token, the PIN stored for the token's
//! identity is looked up and presented exactly once. A PIN that the token
//! rejects is dropped from the store, so that a wrong PIN is never presented
//! again and the token's retry counter is not exhausted. Where no PIN is
//! stored, the operation fails without contacting the token.

use vstd::prelude::*;

use crate::error::SopError;

verus! {

/// Where a PIN session stands.
#[derive(Clone, Copy, Debug, PartialEq, Eq, Structural)]
pub enum PinState {
    /// The store has not been consulted yet.
    Start,
    /// The stored PIN is being presented to the token.
    Presenting,
    /// The token accepted the PIN.
    Verified,
    /// The session failed.
    Failed,
}

/// What follows the token's reply to a presented PIN.
#[derive(Clone, Copy, Debug)]
pub struct PinReply {
    /// Whether the PIN is to be dropped from the store.
    pub drop_pin: bool,
    pub result: Result<(), SopError>,
}

/// One PIN session for one token operation.
pub struct PinSession {
    pub state: PinState,
    /// How many times a PIN was presented to the token.
    pub presentations: u8,
}

/// What a whole session does, given what the store holds for the token and
/// whether the token accepts it: whether the PIN is dropped, the result, and
/// how many presentations are made.
pub open spec fn session_outcome(stored: Option<Seq<u8>>, token_accepts: bool) -> (
    bool,
    Result<(), SopError>,
    nat,
) {
    match stored {
        None => (false, Err(SopError::NoPinConfigured), 0),
        Some(_) => if token_accepts {
            (false, Ok(()), 1)
        } else {
            (true, Err(SopError::AuthenticationFailed), 1)
        },
    }
}

/// The PIN that a store holds for an identity.
pub open spec fn stored_pin(store: Map<Seq<char>, Seq<u8>>, ident: Seq<char>) -> Option<Seq<u8>> {
    if store.contains_key(ident) {
        Some(store[ident])
    } else {
        None
    }
}

/// The store after a session on it.
pub open spec fn store_after(
    store: Map<Seq<char>, Seq<u8>>,
    ident: Seq<char>,
    token_accepts: bool,
) -> Map<Seq<char>, Seq<u8>> {
    if session_outcome(stored_pin(store, ident), token_accepts).0 {
        store.remove(ident)
    } else {
        store
    }
}

impl PinSession {
    /// A session that has not consulted the store.
    pub fn new() -> (r: PinSession)
        ensures
            r.state == PinState::Start,
            r.presentations == 0,
    {
        PinSession { state: PinState::Start, presentations: 0 }
    }

    /// Takes what the store holds for the token: a PIN is to be presented,
    /// and without one the session fails at once.
    pub fn on_lookup(&mut self, stored: Option<Vec<u8>>) -> (r: Result<Vec<u8>, SopError>)
        requires
            old(self).state == PinState::Start,
            old(self).presentations == 0,
        ensures
            match stored {
                None => r == Err::<Vec<u8>, SopError>(SopError::NoPinConfigured)
                    && final(self).state == PinState::Failed && final(self).presentations == 0,
                Some(p) => (r matches Ok(x) && x@ == p@) && final(self).state
                    == PinState::Presenting && final(self).presentations == 1,
            },
    {
        match stored {
            None => {
                self.state = PinState::Failed;
                Err(SopError::NoPinConfigured)
            },
            Some(p) => {
                self.state = PinState::Presenting;
                self.presentations = 1;
                Ok(p)
            },
        }
    }

    /// Takes the token's reply to the presented PIN: on rejection the PIN is
    /// dropped and authentication fails; there is no second attempt.
    pub fn on_reply(&mut self, accepted: bool) -> (r: PinReply)
        requires
            old(self).state == PinState::Presenting,
        ensures
            final(self).presentations == old(self).presentations,
            accepted ==> r == (PinReply { drop_pin: false, result: Ok(()) }) && final(self).state
                == PinState::Verified,
            !accepted ==> r == (PinReply {
                drop_pin: true,
                result: Err(SopError::AuthenticationFailed),
            }) && final(self).state == PinState::Failed,
    {
        if accepted {
            self.state = PinState::Verified;
            PinReply { drop_pin: false, result: Ok(()) }
        } else {
            self.state = PinState::Failed;
            PinReply { drop_pin: true, result: Err(SopError::AuthenticationFailed) }
        }
    }
}

/// The view of an optional PIN.
pub open spec fn pin_view(p: Option<Vec<u8>>) -> Option<Seq<u8>> {
    match p {
        None => None,
        Some(v) => Some(v@),
    }
}

/// Runs a whole session against what the store holds and the token's
/// verdict on the PIN presented.
pub fn run_session(stored: Option<Vec<u8>>, token_accepts: bool) -> (r: (PinReply, u8))
    ensures
        r.0.drop_pin == session_outcome(pin_view(stored), token_accepts).0,
        r.0.result == session_outcome(pin_view(stored), token_accepts).1,
        r.1 as nat == session_outcome(pin_view(stored), token_accepts).2,
{
    let mut s = PinSession::new();
    match s.on_lookup(stored) {
        Err(e) => (PinReply { drop_pin: false, result: Err(e) }, s.presentations),
        Ok(_pin) => {
            let reply = s.on_reply(token_accepts);
            (reply, s.presentations)
        },
    }
}

/// A stored PIN that the token rejects is presented once and dropped; a
/// second session for the same token then fails for want of a PIN, without
/// presenting anything.
pub proof fn lemma_rejected_pin_dropped(store: Map<Seq<char>, Seq<u8>>, ident: Seq<char>)
    requires
        store.contains_key(ident),
    ensures
        session_outcome(stored_pin(store, ident), false).2 == 1,
        session_outcome(stored_pin(store, ident), false).1 == Err::<(), SopError>(
            SopError::AuthenticationFailed,
        ),
        store_after(store, ident, false) == store.remove(ident),
        !store_after(store, ident, false).contains_key(ident),
        forall|accepts: bool|
            #[trigger] session_outcome(stored_pin(store_after(store, ident, false), ident), accepts)
                == (false, Err::<(), SopError>(SopError::NoPinConfigured), 0nat),
{
}

} // verus!

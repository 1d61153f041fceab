//! Session-key recovery: the order in which candidates are tried against the
//! session-key packets of an encrypted message, and a cascade that stops at
//! the first success.

use vstd::prelude::*;

use crate::error::SopError;

verus! {

/// One attempt to recover a session key.
#[derive(Clone, Copy, Debug, PartialEq, Eq, Structural)]
pub enum Attempt {
    /// A message password against a password-encrypted session-key packet.
    Password { password: usize, skesk: usize },
    /// A decryption key (software, with its passwords, or on a hardware
    /// token) against a public-key-encrypted session-key packet.
    Key { key: usize, pkesk: usize },
}

/// Password `p` against each of `ns` packets.
pub open spec fn password_row(p: nat, ns: nat) -> Seq<Attempt> {
    Seq::new(ns, |s: int| Attempt::Password { password: p as usize, skesk: s as usize })
}

/// Key `k` against each of `ne` packets.
pub open spec fn key_row(k: nat, ne: nat) -> Seq<Attempt> {
    Seq::new(ne, |e: int| Attempt::Key { key: k as usize, pkesk: e as usize })
}

/// Each of `np` passwords, in order, against each packet.
pub open spec fn password_phase(np: nat, ns: nat) -> Seq<Attempt>
    decreases np,
{
    if np == 0 {
        Seq::<Attempt>::empty()
    } else {
        password_phase((np - 1) as nat, ns) + password_row((np - 1) as nat, ns)
    }
}

/// Each of `nk` keys, in order, against each packet.
pub open spec fn key_phase(nk: nat, ne: nat) -> Seq<Attempt>
    decreases nk,
{
    if nk == 0 {
        Seq::<Attempt>::empty()
    } else {
        key_phase((nk - 1) as nat, ne) + key_row((nk - 1) as nat, ne)
    }
}

/// The order of attempts: every password against every password packet,
/// then every key against every public-key packet.
pub open spec fn attempt_order_spec(np: nat, ns: nat, nk: nat, ne: nat) -> Seq<Attempt> {
    password_phase(np, ns) + key_phase(nk, ne)
}

/// Lists the attempts in the order in which they are made.
pub fn attempt_order(n_passwords: usize, n_skesk: usize, n_keys: usize, n_pkesk: usize) -> (r: Vec<
    Attempt,
>)
    ensures
        r@ == attempt_order_spec(n_passwords as nat, n_skesk as nat, n_keys as nat, n_pkesk as nat),
{
    let mut out: Vec<Attempt> = Vec::new();
    let mut p: usize = 0;
    while p < n_passwords
        invariant
            p <= n_passwords,
            out@ == password_phase(p as nat, n_skesk as nat),
        decreases n_passwords - p,
    {
        let mut s: usize = 0;
        while s < n_skesk
            invariant
                p < n_passwords,
                s <= n_skesk,
                out@ == password_phase(p as nat, n_skesk as nat) + password_row(
                    p as nat,
                    n_skesk as nat,
                ).take(s as int),
            decreases n_skesk - s,
        {
            out.push(Attempt::Password { password: p, skesk: s });
            assert(password_row(p as nat, n_skesk as nat).take(s + 1) =~= password_row(
                p as nat,
                n_skesk as nat,
            ).take(s as int).push(Attempt::Password { password: p, skesk: s }));
            s = s + 1;
        }
        assert(password_row(p as nat, n_skesk as nat).take(n_skesk as int) =~= password_row(
            p as nat,
            n_skesk as nat,
        ));
        p = p + 1;
    }
    let ghost pw = out@;
    let mut k: usize = 0;
    while k < n_keys
        invariant
            k <= n_keys,
            pw == password_phase(n_passwords as nat, n_skesk as nat),
            out@ == pw + key_phase(k as nat, n_pkesk as nat),
        decreases n_keys - k,
    {
        let mut e: usize = 0;
        while e < n_pkesk
            invariant
                k < n_keys,
                e <= n_pkesk,
                out@ == pw + key_phase(k as nat, n_pkesk as nat) + key_row(
                    k as nat,
                    n_pkesk as nat,
                ).take(e as int),
            decreases n_pkesk - e,
        {
            out.push(Attempt::Key { key: k, pkesk: e });
            assert(key_row(k as nat, n_pkesk as nat).take(e + 1) =~= key_row(
                k as nat,
                n_pkesk as nat,
            ).take(e as int).push(Attempt::Key { key: k, pkesk: e }));
            e = e + 1;
        }
        assert(key_row(k as nat, n_pkesk as nat).take(n_pkesk as int) =~= key_row(
            k as nat,
            n_pkesk as nat,
        ));
        assert(pw + key_phase((k + 1) as nat, n_pkesk as nat) =~= pw + key_phase(
            k as nat,
            n_pkesk as nat,
        ) + key_row(k as nat, n_pkesk as nat));
        k = k + 1;
    }
    proof {
        if n_keys == 0 {
            assert(out@ =~= pw + key_phase(0, n_pkesk as nat));
        }
    }
    out
}

/// The position of the first success among outcomes, if any.
pub open spec fn first_success(outcomes: Seq<bool>) -> Option<nat>
    decreases outcomes.len(),
{
    if outcomes.len() == 0 {
        None
    } else {
        match first_success(outcomes.drop_last()) {
            Some(i) => Some(i),
            None => if outcomes.last() {
                Some((outcomes.len() - 1) as nat)
            } else {
                None
            },
        }
    }
}

/// A cascade over a fixed number of candidates, tried in order until the
/// first succeeds.
pub struct Cascade {
    pub total: usize,
    /// How many candidates have been tried.
    pub tried: usize,
    /// The candidate that succeeded, if one did.
    pub winner: Option<usize>,
    /// The outcome of each attempt so far.
    pub outcomes: Ghost<Seq<bool>>,
}

impl Cascade {
    /// The cascade's invariant: each candidate was tried once, in order, and
    /// the winner is the first success.
    pub open spec fn wf(&self) -> bool {
        &&& self.tried <= self.total
        &&& self.outcomes@.len() == self.tried
        &&& self.winner == match first_success(self.outcomes@) {
            Some(i) => Some(i as usize),
            None => None::<usize>,
        }
    }

    /// A cascade over `total` candidates, none tried yet.
    pub fn new(total: usize) -> (r: Cascade)
        ensures
            r.wf(),
            r.total == total,
            r.tried == 0,
            r.winner is None,
    {
        Cascade { total, tried: 0, winner: None, outcomes: Ghost(Seq::empty()) }
    }

    /// The next candidate to try: none once one has succeeded or all were
    /// tried.
    pub fn next(&self) -> (r: Option<usize>)
        requires
            self.wf(),
        ensures
            r == if self.winner is None && self.tried < self.total {
                Some(self.tried)
            } else {
                None::<usize>
            },
    {
        if self.winner.is_none() && self.tried < self.total {
            Some(self.tried)
        } else {
            None
        }
    }

    /// Records the outcome of trying the next candidate.
    pub fn report(&mut self, success: bool)
        requires
            old(self).wf(),
            old(self).winner is None,
            old(self).tried < old(self).total,
        ensures
            final(self).wf(),
            final(self).total == old(self).total,
            final(self).tried == old(self).tried + 1,
            final(self).outcomes@ == old(self).outcomes@.push(success),
            final(self).winner == if success {
                Some(old(self).tried)
            } else {
                None::<usize>
            },
    {
        let ghost prev = self.outcomes@;
        if success {
            self.winner = Some(self.tried);
        }
        self.outcomes = Ghost(self.outcomes@.push(success));
        proof {
            assert(self.outcomes@.drop_last() == prev);
        }
        self.tried = self.tried + 1;
    }

    /// The winning candidate; where none succeeded, the session key could not
    /// be recovered.
    pub fn result(&self) -> (r: Result<usize, SopError>)
        requires
            self.wf(),
        ensures
            match self.winner {
                Some(w) => r == Ok::<usize, SopError>(w),
                None => r == Err::<usize, SopError>(SopError::CannotDecrypt),
            },
    {
        match self.winner {
            Some(w) => Ok(w),
            None => Err(SopError::CannotDecrypt),
        }
    }
}

} // verus!

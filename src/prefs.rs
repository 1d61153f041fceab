//! Narrowing of local algorithm preferences to what peers declare.
//!
//! A default list is filtered, in its own order, to the entries that a peer
//! accepts; a peer that declares nothing accepts every entry. Narrowing by
//! several peers in turn keeps exactly the entries that all of them accept,
//! so the order in which the peers come does not matter.

use vstd::prelude::*;

verus! {

/// An AEAD mode together with the symmetric cipher it runs over, both by
/// their OpenPGP algorithm IDs.
#[derive(Clone, Copy, Debug, PartialEq, Eq, Structural)]
pub struct AeadPref {
    pub sym: u8,
    pub aead: u8,
}

/// An encryption-layer mechanism.
#[derive(Clone, Copy, Debug, PartialEq, Eq, Structural)]
pub enum Seipd {
    /// Symmetrically encrypted data without integrity protection.
    Sed,
    /// Version 1 of the integrity-protected container.
    Seipd1,
    /// Version 2 of the integrity-protected container (AEAD).
    Seipd2,
}

/// The entries of `d` that satisfy `keep`, in the order of `d`.
pub open spec fn retained<T>(d: Seq<T>, keep: spec_fn(T) -> bool) -> Seq<T>
    decreases d.len(),
{
    if d.len() == 0 {
        Seq::<T>::empty()
    } else {
        let rest = retained(d.drop_last(), keep);
        if keep(d.last()) {
            rest.push(d.last())
        } else {
            rest
        }
    }
}

/// Whether a declared preference list accepts an entry; no declaration
/// accepts everything.
pub open spec fn accepts<T>(declared: Option<Seq<T>>, a: T) -> bool {
    match declared {
        None => true,
        Some(p) => p.contains(a),
    }
}

/// Whether a features byte declares support for a mechanism: the
/// unprotected form always, version 1 by bit 0 and version 2 by bit 3.
pub open spec fn seipd_supported(features: u8, s: Seipd) -> bool {
    match s {
        Seipd::Sed => true,
        Seipd::Seipd1 => features & 1 != 0,
        Seipd::Seipd2 => features & 8 != 0,
    }
}

/// Whether an optional features byte accepts a mechanism.
pub open spec fn accepts_features(features: Option<u8>, s: Seipd) -> bool {
    match features {
        None => true,
        Some(f) => seipd_supported(f, s),
    }
}

/// The acceptance relation for declared preference lists.
pub open spec fn list_acceptance<T>() -> spec_fn(Option<Seq<T>>, T) -> bool {
    |p: Option<Seq<T>>, a: T| accepts(p, a)
}

/// The acceptance relation for declared features bytes.
pub open spec fn features_acceptance() -> spec_fn(Option<u8>, Seipd) -> bool {
    |f: Option<u8>, s: Seipd| accepts_features(f, s)
}

/// `d` narrowed by each declaration of `ps` in turn.
pub open spec fn narrowed_all<P, T>(d: Seq<T>, ps: Seq<P>, acc: spec_fn(P, T) -> bool) -> Seq<T>
    decreases ps.len(),
{
    if ps.len() == 0 {
        d
    } else {
        let last = ps.last();
        retained(narrowed_all(d, ps.drop_last(), acc), |a: T| acc(last, a))
    }
}

/// Whether every declaration of `ps` accepts `a`.
pub open spec fn accepted_by_all<P, T>(ps: Seq<P>, acc: spec_fn(P, T) -> bool, a: T) -> bool {
    forall|i: int| 0 <= i < ps.len() ==> #[trigger] acc(ps[i], a)
}

/// The view of an optional vector.
pub open spec fn opt_view<T>(v: Option<Vec<T>>) -> Option<Seq<T>> {
    match v {
        None => None,
        Some(x) => Some(x@),
    }
}

/// Filtering by two predicates that agree everywhere gives the same list.
pub proof fn lemma_retained_ext<T>(d: Seq<T>, k1: spec_fn(T) -> bool, k2: spec_fn(T) -> bool)
    requires
        forall|a: T| #[trigger] k1(a) == k2(a),
    ensures
        retained(d, k1) == retained(d, k2),
    decreases d.len(),
{
    if d.len() > 0 {
        lemma_retained_ext(d.drop_last(), k1, k2);
    }
}

/// Both predicates hold.
pub open spec fn both<T>(k1: spec_fn(T) -> bool, k2: spec_fn(T) -> bool) -> spec_fn(T) -> bool {
    |a: T| k1(a) && k2(a)
}

proof fn lemma_retained_twice<T>(d: Seq<T>, k1: spec_fn(T) -> bool, k2: spec_fn(T) -> bool)
    ensures
        retained(retained(d, k1), k2) == retained(d, both(k1, k2)),
    decreases d.len(),
{
    if d.len() > 0 {
        lemma_retained_twice(d.drop_last(), k1, k2);
        let rest = retained(d.drop_last(), k1);
        if k1(d.last()) {
            assert(rest.push(d.last()).drop_last() == rest);
        }
    }
}

proof fn lemma_narrowed_all_is_retained<P, T>(d: Seq<T>, ps: Seq<P>, acc: spec_fn(P, T) -> bool)
    ensures
        narrowed_all(d, ps, acc) == retained(d, |a: T| accepted_by_all(ps, acc, a)),
    decreases ps.len(),
{
    let k_ps = |a: T| accepted_by_all(ps, acc, a);
    if ps.len() == 0 {
        lemma_retained_all::<T>(d, k_ps);
    } else {
        let init = ps.drop_last();
        let last = ps.last();
        let k_init = |a: T| accepted_by_all(init, acc, a);
        let k_last = |a: T| acc(last, a);
        lemma_narrowed_all_is_retained(d, init, acc);
        lemma_retained_twice(d, k_init, k_last);
        assert forall|a: T| #[trigger] both(k_init, k_last)(a) == k_ps(a) by {
            if accepted_by_all(ps, acc, a) {
                assert forall|i: int| 0 <= i < init.len() implies #[trigger] acc(init[i], a) by {
                    assert(init[i] == ps[i]);
                }
                assert(acc(ps[ps.len() - 1], a));
            }
            if accepted_by_all(init, acc, a) && acc(last, a) {
                assert forall|i: int| 0 <= i < ps.len() implies #[trigger] acc(ps[i], a) by {
                    if i < ps.len() - 1 {
                        assert(init[i] == ps[i]);
                    }
                }
            }
        }
        lemma_retained_ext(d, both(k_init, k_last), k_ps);
    }
}

proof fn lemma_retained_all<T>(d: Seq<T>, k: spec_fn(T) -> bool)
    requires
        forall|a: T| #[trigger] k(a),
    ensures
        retained(d, k) == d,
    decreases d.len(),
{
    if d.len() > 0 {
        lemma_retained_all(d.drop_last(), k);
        assert(d.drop_last().push(d.last()) == d);
    }
}

/// Narrowing by several peers does not depend on the order in which they
/// come: two sequences of declarations with the same members give the same
/// list, and so the same first choice.
pub proof fn lemma_narrowing_order_independent<P, T>(
    d: Seq<T>,
    ps1: Seq<P>,
    ps2: Seq<P>,
    acc: spec_fn(P, T) -> bool,
)
    requires
        forall|p: P| ps1.contains(p) <==> ps2.contains(p),
    ensures
        narrowed_all(d, ps1, acc) == narrowed_all(d, ps2, acc),
{
    lemma_narrowed_all_is_retained(d, ps1, acc);
    lemma_narrowed_all_is_retained(d, ps2, acc);
    let k1 = |a: T| accepted_by_all(ps1, acc, a);
    let k2 = |a: T| accepted_by_all(ps2, acc, a);
    assert forall|a: T| #[trigger] k1(a) == k2(a) by {
        if accepted_by_all(ps1, acc, a) {
            assert forall|i: int| 0 <= i < ps2.len() implies #[trigger] acc(ps2[i], a) by {
                assert(ps2.contains(ps2[i]));
                let j = choose|j: int| 0 <= j < ps1.len() && ps1[j] == ps2[i];
                assert(acc(ps1[j], a));
            }
        }
        if accepted_by_all(ps2, acc, a) {
            assert forall|i: int| 0 <= i < ps1.len() implies #[trigger] acc(ps1[i], a) by {
                assert(ps1.contains(ps1[i]));
                let j = choose|j: int| 0 <= j < ps2.len() && ps2[j] == ps1[i];
                assert(acc(ps2[j], a));
            }
        }
    }
    lemma_retained_ext(d, k1, k2);
}

/// Whether `x` occurs in `v`.
pub fn contains_id(v: &Vec<u8>, x: u8) -> (r: bool)
    ensures
        r == v@.contains(x),
{
    let mut i: usize = 0;
    while i < v.len()
        invariant
            i <= v.len(),
            forall|j: int| 0 <= j < i ==> v@[j] != x,
        decreases v.len() - i,
    {
        if v[i] == x {
            assert(v@[i as int] == x);
            return true;
        }
        i = i + 1;
    }
    false
}

/// Whether `x` occurs in `v`.
pub fn contains_aead(v: &Vec<AeadPref>, x: AeadPref) -> (r: bool)
    ensures
        r == v@.contains(x),
{
    let mut i: usize = 0;
    while i < v.len()
        invariant
            i <= v.len(),
            forall|j: int| 0 <= j < i ==> v@[j] != x,
        decreases v.len() - i,
    {
        if v[i].sym == x.sym && v[i].aead == x.aead {
            assert(v@[i as int] == x);
            return true;
        }
        i = i + 1;
    }
    false
}

/// Narrows a list of algorithm IDs to those a peer declares, keeping the
/// list's own order; with no declaration the list is kept whole.
pub fn narrow_ids(defaults: &Vec<u8>, declared: &Option<Vec<u8>>) -> (r: Vec<u8>)
    ensures
        r@ == retained(defaults@, |a: u8| accepts(opt_view(*declared), a)),
{
    let mut out: Vec<u8> = Vec::new();
    let mut i: usize = 0;
    while i < defaults.len()
        invariant
            i <= defaults.len(),
            out@ == retained(defaults@.subrange(0, i as int), |a: u8| accepts(opt_view(*declared), a)),
        decreases defaults.len() - i,
    {
        let a = defaults[i];
        let ok = match declared {
            None => true,
            Some(p) => contains_id(p, a),
        };
        proof {
            let sub = defaults@.subrange(0, i + 1);
            assert(sub.drop_last() == defaults@.subrange(0, i as int));
            assert(sub.last() == a);
            assert(accepts(opt_view(*declared), a) == ok);
        }
        if ok {
            out.push(a);
        }
        i = i + 1;
    }
    assert(defaults@.subrange(0, defaults@.len() as int) == defaults@);
    out
}

/// Narrows a list of AEAD choices to those a peer declares, keeping the
/// list's own order; with no declaration the list is kept whole.
pub fn narrow_aead(defaults: &Vec<AeadPref>, declared: &Option<Vec<AeadPref>>) -> (r: Vec<AeadPref>)
    ensures
        r@ == retained(defaults@, |a: AeadPref| accepts(opt_view(*declared), a)),
{
    let mut out: Vec<AeadPref> = Vec::new();
    let mut i: usize = 0;
    while i < defaults.len()
        invariant
            i <= defaults.len(),
            out@ == retained(defaults@.subrange(0, i as int), |a: AeadPref| accepts(opt_view(*declared), a)),
        decreases defaults.len() - i,
    {
        let a = defaults[i];
        let ok = match declared {
            None => true,
            Some(p) => contains_aead(p, a),
        };
        proof {
            let sub = defaults@.subrange(0, i + 1);
            assert(sub.drop_last() == defaults@.subrange(0, i as int));
            assert(sub.last() == a);
            assert(accepts(opt_view(*declared), a) == ok);
        }
        if ok {
            out.push(a);
        }
        i = i + 1;
    }
    assert(defaults@.subrange(0, defaults@.len() as int) == defaults@);
    out
}

/// Narrows a list of encryption-layer mechanisms to those a features byte
/// declares; with no features byte the list is kept whole.
pub fn narrow_seipd(defaults: &Vec<Seipd>, features: Option<u8>) -> (r: Vec<Seipd>)
    ensures
        r@ == retained(defaults@, |s: Seipd| accepts_features(features, s)),
{
    let mut out: Vec<Seipd> = Vec::new();
    let mut i: usize = 0;
    while i < defaults.len()
        invariant
            i <= defaults.len(),
            out@ == retained(defaults@.subrange(0, i as int), |s: Seipd| accepts_features(features, s)),
        decreases defaults.len() - i,
    {
        let s = defaults[i];
        let ok = match features {
            None => true,
            Some(f) => match s {
                Seipd::Sed => true,
                Seipd::Seipd1 => f & 1 != 0,
                Seipd::Seipd2 => f & 8 != 0,
            },
        };
        proof {
            let sub = defaults@.subrange(0, i + 1);
            assert(sub.drop_last() == defaults@.subrange(0, i as int));
            assert(sub.last() == s);
            assert(accepts_features(features, s) == ok);
        }
        if ok {
            out.push(s);
        }
        i = i + 1;
    }
    assert(defaults@.subrange(0, defaults@.len() as int) == defaults@);
    out
}

} // verus!

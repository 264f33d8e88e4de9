//! Library-level laws, each checked by the verifier against the public
//! contracts alone.
//!
//! Every function here is a verified witness of one law: its body performs
//! the calls the law speaks of, and the assertions and postconditions state
//! what must hold of them for every payload value and type.

use vstd::prelude::*;

use crate::shared_lock::SharedRwLock;

verus! {

/// Shared readers: two read guards over one wrapper are held at the same
/// time, and both observe the same payload — no reader observes a write in
/// progress.
pub fn shared_readers_agree<T>(w: &SharedRwLock<T>) {
    let g1 = w.read();
    let g2 = w.read();
    let r1 = g1.get();
    let r2 = g2.get();
    assert(*r1 == *r2);
}

/// Sibling composition: for `b = a.new_with_same_lock(v)`, a guard from
/// `a.read()` composed through `b.read_with` observes `v` — b's payload,
/// not a's.
pub fn composed_guard_observes_sibling_payload<T, U>(a: &SharedRwLock<T>, v: U) {
    let ghost v0 = v;
    let b = a.new_with_same_lock(v);
    let ga = a.read();
    let gb = b.read_with(&ga);
    let observed = gb.get();
    assert(*observed == v0);
    assert(*observed == b.value());
}

/// Unrelated domains: composition across wrappers that do not share a lock
/// is refused on every invocation, never only sometimes.
pub fn unrelated_composition_always_refused<T, U>(a: &SharedRwLock<T>, b: &SharedRwLock<U>)
    requires
        a.lock_id() != b.lock_id(),
{
    let ga = a.read();
    let first = b.try_read_with(&ga);
    assert(first is None);
    let second = b.try_read_with(&ga);
    assert(second is None);
}

/// Downgrade: a held write guard yields, with no new acquisition, a read
/// guard that observes exactly the payload the write guard holds —
/// including a value written just before the downgrade.
pub fn downgraded_guard_observes_written_value<T>(w: SharedRwLock<T>, v: T) -> (r: SharedRwLock<
    T,
>)
    ensures
        r.value() == v,
        r.lock_id() == w.lock_id(),
{
    let ghost v0 = v;
    let mut g = w.write();
    g.set(v);
    {
        let d = g.downgrade();
        let observed = d.get();
        assert(*observed == v0);
        assert(d.is_downgraded());
    }
    g.release()
}

/// Round trip: a value stored through a write guard and released is what a
/// later read guard observes, for every payload value and type.
pub fn write_release_read_round_trip<T>(w: SharedRwLock<T>, v: T) -> (r: SharedRwLock<T>)
    ensures
        r.value() == v,
        r.lock_id() == w.lock_id(),
{
    let ghost v0 = v;
    let mut g = w.write();
    g.set(v);
    let r = g.release();
    {
        let back = r.read();
        let observed = back.get();
        assert(*observed == v0);
    }
    r
}

} // verus!


//! The accounting model of a resource family.
//!
//! A resource family is an OS facility that issues handles through an
//! acquisition call and takes them back through a paired release call. The
//! `ResourceFamily` here records that traffic: which handles were issued and
//! are still live, and which have been released, while the raw outcome of
//! each OS call is handed in as plain values. Its invariant ties the records
//! together: every recorded handle was issued by this family, no handle is
//! recorded live and released at once, and no handle is ever recorded
//! released twice.
//!
//! The `Guard` a successful acquisition returns is the owner of the release
//! obligation. It cannot be copied or cloned, so at most one release per
//! acquisition can ever be recorded; it has no destructor of its own, so
//! moving it or dropping it changes no family record; and detaching it hands
//! the raw handle value out unchanged together with the obligation.

use vstd::prelude::*;
use crate::co::ERROR;
use crate::results::SysResult;

verus! {

/// How many times `raw` occurs in `s`.
pub open spec fn count_of(s: Seq<usize>, raw: usize) -> nat
    decreases s.len(),
{
    if s.len() == 0 {
        0
    } else {
        count_of(s.drop_last(), raw) + if s.last() == raw { 1nat } else { 0nat }
    }
}

/// Appending one value raises its own count by one and no other count.
pub proof fn lemma_count_push(s: Seq<usize>, x: usize, raw: usize)
    ensures
        count_of(s.push(x), raw) == count_of(s, raw) + if x == raw { 1nat } else { 0nat },
{
    assert(s.push(x).drop_last() =~= s);
}

/// A value occurs in a sequence exactly when its count is positive.
pub proof fn lemma_count_contains(s: Seq<usize>, raw: usize)
    ensures
        s.contains(raw) <==> count_of(s, raw) >= 1,
    decreases s.len(),
{
    if s.len() > 0 {
        lemma_count_contains(s.drop_last(), raw);
        if s.last() == raw {
            assert(s[s.len() - 1] == raw);
            assert(s.contains(raw));
        } else {
            if s.contains(raw) {
                let i = choose|i: int| 0 <= i < s.len() && s[i] == raw;
                assert(s.drop_last()[i] == raw);
            }
            if s.drop_last().contains(raw) {
                let i = choose|i: int| 0 <= i < s.drop_last().len() && s.drop_last()[i] == raw;
                assert(s[i] == raw);
            }
        }
    }
}

/// Removing the element at one index lowers its value's count by one and no
/// other count.
pub proof fn lemma_count_remove(s: Seq<usize>, i: int, raw: usize)
    requires
        0 <= i < s.len(),
    ensures
        count_of(s.remove(i), raw) + if s[i] == raw { 1nat } else { 0nat }
            == count_of(s, raw),
    decreases s.len(),
{
    if i == s.len() - 1 {
        assert(s.remove(i) =~= s.drop_last());
    } else {
        lemma_count_remove(s.drop_last(), i, raw);
        assert(s.remove(i).drop_last() =~= s.drop_last().remove(i));
        assert(s.remove(i).last() == s.last());
    }
}

/// The guard a successful acquisition returns: the sole owner of the
/// obligation to release the handle it carries. It has no copy, no clone and
/// no destructor: only `ResourceFamily::release` can consume it against the
/// family's record, and only once; moving it or dropping it releases
/// nothing.
pub struct Guard {
    raw: usize,
}

impl Guard {
    /// The raw handle value the guard owns.
    pub closed spec fn raw_spec(&self) -> usize {
        self.raw
    }

    /// Read-only access to the handle value, for further OS calls; the
    /// release obligation stays with the guard.
    pub fn handle(&self) -> (r: usize)
        ensures
            r == self.raw_spec(),
    {
        self.raw
    }

    /// Detaches: consumes the guard and returns exactly the handle value it
    /// owned, transferring the release obligation to the caller. The family
    /// record is untouched and no automatic release can follow.
    pub fn detach(self) -> (r: usize)
        ensures
            r == self.raw_spec(),
    {
        self.raw
    }
}

/// The acquisition and release record of one resource family.
pub struct ResourceFamily {
    /// First handle value this family issues.
    first_raw: usize,
    /// Next handle value to issue; values grow by one per success.
    next_raw: usize,
    /// How many acquisition calls were made, failures included.
    acquire_calls: usize,
    /// Handles issued and not yet released, in issue order.
    live: Vec<usize>,
    /// Handles released, in release order.
    released: Vec<usize>,
}

impl ResourceFamily {
    /// The handles issued and not yet released.
    pub closed spec fn live_spec(&self) -> Seq<usize> {
        self.live@
    }

    /// The handles released, in release order.
    pub closed spec fn released_spec(&self) -> Seq<usize> {
        self.released@
    }

    /// The next handle value this family will issue.
    pub closed spec fn next_spec(&self) -> usize {
        self.next_raw
    }

    /// The first handle value this family issues.
    pub closed spec fn first_spec(&self) -> usize {
        self.first_raw
    }

    /// How many acquisition calls were made, failures included.
    pub closed spec fn acquire_calls_spec(&self) -> usize {
        self.acquire_calls
    }

    /// Whether this family has issued `raw`.
    pub open spec fn issued(&self, raw: usize) -> bool {
        self.first_spec() <= raw < self.next_spec()
    }

    /// The family invariant: all records hold issued handles, each issued
    /// handle is recorded exactly once (live or released, never both), and
    /// the record sizes account for every issued handle.
    pub open spec fn wf(&self) -> bool {
        &&& 1 <= self.first_spec() <= self.next_spec()
        &&& forall|raw: usize| #[trigger] self.live_spec().contains(raw) ==> self.issued(raw)
        &&& forall|raw: usize| #[trigger] self.released_spec().contains(raw) ==> self.issued(raw)
        &&& forall|raw: usize|
            #![trigger count_of(self.live_spec(), raw)]
            #![trigger count_of(self.released_spec(), raw)]
            count_of(self.live_spec(), raw) + count_of(self.released_spec(), raw) <= 1
        &&& self.live_spec().len() + self.released_spec().len()
            == self.next_spec() - self.first_spec()
    }

    /// A fresh family that will issue handle values from `first` upward and
    /// has recorded nothing.
    pub fn new(first: usize) -> (f: Self)
        requires
            1 <= first < usize::MAX,
        ensures
            f.wf(),
            f.first_spec() == first,
            f.next_spec() == first,
            f.acquire_calls_spec() == 0,
            f.live_spec() == Seq::<usize>::empty(),
            f.released_spec() == Seq::<usize>::empty(),
    {
        let f = ResourceFamily {
            first_raw: first,
            next_raw: first,
            acquire_calls: 0,
            live: Vec::new(),
            released: Vec::new(),
        };
        proof {
            assert(f.live@ =~= Seq::<usize>::empty());
            assert(f.released@ =~= Seq::<usize>::empty());
        }
        f
    }

    /// One acquisition call. `os_ok` and `last_error` are the raw outcome of
    /// the OS call. On success the family issues its next handle value, marks
    /// it live and returns the guard that owns it; the guard's existence
    /// proves the acquisition succeeded. On failure the error is returned,
    /// no guard exists, and no record changes: nothing was issued, so
    /// nothing can leak.
    pub fn acquire(&mut self, os_ok: bool, last_error: ERROR) -> (r: SysResult<Guard>)
        requires
            old(self).wf(),
            old(self).next_spec() < usize::MAX,
            old(self).acquire_calls_spec() < usize::MAX,
        ensures
            final(self).wf(),
            final(self).first_spec() == old(self).first_spec(),
            final(self).acquire_calls_spec() == old(self).acquire_calls_spec() + 1,
            !os_ok ==> {
                &&& r == SysResult::<Guard>::Err(last_error)
                &&& final(self).live_spec() == old(self).live_spec()
                &&& final(self).released_spec() == old(self).released_spec()
                &&& final(self).next_spec() == old(self).next_spec()
            },
            os_ok ==> {
                &&& r matches Ok(g) && g.raw_spec() == old(self).next_spec()
                &&& final(self).live_spec() == old(self).live_spec().push(old(self).next_spec())
                &&& final(self).released_spec() == old(self).released_spec()
                &&& final(self).next_spec() == old(self).next_spec() + 1
            },
    {
        self.acquire_calls = self.acquire_calls + 1;
        if !os_ok {
            return Err(last_error);
        }
        let raw = self.next_raw;
        self.next_raw = self.next_raw + 1;
        self.live.push(raw);
        proof {
            let pre_live = old(self).live@;
            let pre_rel = old(self).released@;
            lemma_count_contains(pre_live, raw);
            lemma_count_contains(pre_rel, raw);
            assert forall|x: usize| #[trigger] self.live@.contains(x) implies self.issued(x) by {
                lemma_count_contains(self.live@, x);
                lemma_count_push(pre_live, raw, x);
                lemma_count_contains(pre_live, x);
            };
            assert forall|x: usize|
                count_of(self.live@, x) + count_of(self.released@, x) <= 1 by {
                lemma_count_push(pre_live, raw, x);
            };
        }
        Ok(Guard { raw })
    }

    /// One release call, consuming the guard that owned the obligation.
    /// `os_ok` is the raw outcome of the OS release call: a failure at
    /// teardown has no call site to report to, so it is discarded after the
    /// attempt and the record is the same either way. The guard's handle
    /// moves from the live record to the end of the release record — its
    /// release count becomes exactly one — and every other handle's records
    /// are untouched.
    pub fn release(&mut self, g: Guard, os_ok: bool)
        requires
            old(self).wf(),
            old(self).live_spec().contains(g.raw_spec()),
        ensures
            final(self).wf(),
            final(self).first_spec() == old(self).first_spec(),
            final(self).next_spec() == old(self).next_spec(),
            final(self).acquire_calls_spec() == old(self).acquire_calls_spec(),
            final(self).released_spec() == old(self).released_spec().push(g.raw_spec()),
            count_of(final(self).released_spec(), g.raw_spec()) == 1,
            final(self).live_spec().len() == old(self).live_spec().len() - 1,
            !final(self).live_spec().contains(g.raw_spec()),
            forall|x: usize| x != g.raw_spec() ==> (#[trigger] final(self).live_spec().contains(x)
                <==> old(self).live_spec().contains(x)),
    {
        let _ = os_ok;
        let raw = g.detach();
        let ghost pre_live = self.live@;
        let ghost pre_rel = self.released@;
        let mut i: usize = 0;
        loop
            invariant
                i < self.live.len(),
                self.live@ == pre_live,
                pre_live.contains(raw),
                forall|j: int| 0 <= j < i ==> pre_live[j] != raw,
            ensures
                i < pre_live.len(),
                pre_live[i as int] == raw,
                self.live@ == pre_live,
            decreases self.live.len() - i,
        {
            if self.live[i] == raw {
                break;
            }
            i = i + 1;
            proof {
                if i >= pre_live.len() {
                    let k = choose|k: int| 0 <= k < pre_live.len() && pre_live[k] == raw;
                    assert(false);
                }
            }
        }
        self.live.remove(i);
        self.released.push(raw);
        proof {
            assert(pre_live == old(self).live_spec());
            assert(pre_rel == old(self).released_spec());
            assert(count_of(old(self).live_spec(), raw)
                + count_of(old(self).released_spec(), raw) <= 1);
            lemma_count_remove(pre_live, i as int, raw);
            lemma_count_push(pre_rel, raw, raw);
            lemma_count_contains(pre_live, raw);
            lemma_count_contains(pre_rel, raw);
            lemma_count_contains(self.live@, raw);
            assert forall|x: usize| #[trigger] self.live@.contains(x) implies self.issued(x) by {
                lemma_count_contains(self.live@, x);
                lemma_count_remove(pre_live, i as int, x);
                lemma_count_contains(pre_live, x);
            };
            assert forall|x: usize| #[trigger] self.released@.contains(x) implies self.issued(x)
                by {
                lemma_count_contains(self.released@, x);
                lemma_count_push(pre_rel, raw, x);
                lemma_count_contains(pre_rel, x);
            };
            assert forall|x: usize|
                count_of(self.live@, x) + count_of(self.released@, x) <= 1 by {
                assert(count_of(old(self).live_spec(), x)
                    + count_of(old(self).released_spec(), x) <= 1);
                assert(pre_live == old(self).live_spec());
                assert(pre_rel == old(self).released_spec());
                lemma_count_remove(pre_live, i as int, x);
                lemma_count_push(pre_rel, raw, x);
                lemma_count_contains(pre_live, x);
                lemma_count_contains(pre_rel, x);
                lemma_count_contains(pre_live, raw);
            };
            assert forall|x: usize| x != raw implies (#[trigger] self.live@.contains(x)
                <==> pre_live.contains(x)) by {
                lemma_count_contains(self.live@, x);
                lemma_count_contains(pre_live, x);
                lemma_count_remove(pre_live, i as int, x);
            };
        }
    }

    /// Whether `raw` is recorded live: issued here and not yet released.
    pub fn is_live(&self, raw: usize) -> (r: bool)
        ensures
            r == self.live_spec().contains(raw),
    {
        let mut i: usize = 0;
        while i < self.live.len()
            invariant
                i <= self.live@.len(),
                forall|j: int| 0 <= j < i ==> self.live@[j] != raw,
            decreases self.live@.len() - i,
        {
            if self.live[i] == raw {
                return true;
            }
            i = i + 1;
        }
        proof {
            if self.live@.contains(raw) {
                let k = choose|k: int| 0 <= k < self.live@.len() && self.live@[k] == raw;
                assert(false);
            }
        }
        false
    }

    /// How many releases of `raw` are on record; under the family invariant
    /// this is never more than one.
    pub fn release_count(&self, raw: usize) -> (n: usize)
        ensures
            n == count_of(self.released_spec(), raw),
    {
        let mut n: usize = 0;
        let mut i: usize = 0;
        while i < self.released.len()
            invariant
                i <= self.released@.len(),
                n == count_of(self.released@.subrange(0, i as int), raw),
                n <= i,
            decreases self.released@.len() - i,
        {
            proof {
                assert(self.released@.subrange(0, i + 1).drop_last()
                    =~= self.released@.subrange(0, i as int));
                assert(self.released@.subrange(0, i + 1).last() == self.released@[i as int]);
            }
            if self.released[i] == raw {
                n = n + 1;
            }
            i = i + 1;
        }
        proof {
            assert(self.released@.subrange(0, self.released@.len() as int) =~= self.released@);
        }
        n
    }

    /// How many release calls are on record.
    pub fn release_calls(&self) -> (n: usize)
        ensures
            n == self.released_spec().len(),
    {
        self.released.len()
    }

    /// How many acquisition calls were made, failures included.
    pub fn acquire_calls(&self) -> (n: usize)
        ensures
            n == self.acquire_calls_spec(),
    {
        self.acquire_calls
    }

    /// The handle value the next successful acquisition will issue.
    pub fn next_handle(&self) -> (n: usize)
        ensures
            n == self.next_spec(),
    {
        self.next_raw
    }

    /// How many handles are recorded live.
    pub fn live_count(&self) -> (n: usize)
        ensures
            n == self.live_spec().len(),
    {
        self.live.len()
    }
}

/// Law: under the family invariant no handle is ever recorded released more
/// than once — the release obligation is discharged at most once per
/// acquisition.
pub proof fn lemma_released_at_most_once(f: &ResourceFamily, raw: usize)
    requires
        f.wf(),
    ensures
        count_of(f.released_spec(), raw) <= 1,
{
    lemma_count_contains(f.live_spec(), raw);
}

/// Law: under the family invariant a handle recorded live has no release on
/// record — a guard that is still live has never been released.
pub proof fn lemma_live_never_released(f: &ResourceFamily, raw: usize)
    requires
        f.wf(),
        f.live_spec().contains(raw),
    ensures
        count_of(f.released_spec(), raw) == 0,
{
    lemma_count_contains(f.live_spec(), raw);
    lemma_count_contains(f.released_spec(), raw);
}

/// Law: recording the release of one handle never changes the release count
/// of any other handle — interleaved guards from one family cannot
/// cross-release each other, and handle identity is preserved end-to-end.
pub proof fn lemma_release_is_independent(released: Seq<usize>, raw: usize, other: usize)
    requires
        other != raw,
    ensures
        count_of(released.push(raw), other) == count_of(released, other),
{
    lemma_count_push(released, raw, other);
}

/// Two positions of a sequence holding the same value put its count at two
/// or more.
proof fn lemma_two_positions_count(s: Seq<usize>, i: int, j: int)
    requires
        0 <= i < j < s.len(),
        s[i] == s[j],
    ensures
        count_of(s, s[i]) >= 2,
    decreases s.len(),
{
    if j == s.len() - 1 {
        lemma_count_contains(s.drop_last(), s[i]);
        assert(s.drop_last()[i] == s[i]);
    } else {
        lemma_two_positions_count(s.drop_last(), i, j);
    }
}

/// Law: under the family invariant the live record never holds one handle
/// twice, so two distinct live positions always name distinct handles — no
/// two outstanding guards of one family ever own the same handle.
pub proof fn lemma_live_handles_distinct(f: &ResourceFamily, i: int, j: int)
    requires
        f.wf(),
        0 <= i < f.live_spec().len(),
        0 <= j < f.live_spec().len(),
        i != j,
    ensures
        f.live_spec()[i] != f.live_spec()[j],
{
    if f.live_spec()[i] == f.live_spec()[j] {
        if i < j {
            lemma_two_positions_count(f.live_spec(), i, j);
        } else {
            lemma_two_positions_count(f.live_spec(), j, i);
        }
    }
}

} // verus!

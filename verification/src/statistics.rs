//! Usage statistics: how often the loader was opened and how often each
//! payload was injected.
//!
//! The per-payload counters live in a vector of `(name, count)` pairs whose
//! keys are kept unique; [`count_of`] reads it as a total map from names to
//! counts, with zero for unknown names. Persistence is the shell's business.

use vstd::prelude::*;
use crate::text::str_eq;

verus! {

/// Whether some pair in `s` carries the key `k`.
pub open spec fn has_key(s: Seq<(String, u64)>, k: Seq<char>) -> bool {
    exists|j: int| 0 <= j < s.len() && s[j].0@ == k
}

/// No key appears twice.
pub open spec fn unique_keys(s: Seq<(String, u64)>) -> bool {
    forall|i: int, j: int| 0 <= i < j < s.len() ==> s[i].0@ != s[j].0@
}

/// The count recorded for `k`: the first pair carrying `k`, or zero.
pub open spec fn count_of(s: Seq<(String, u64)>, k: Seq<char>) -> u64
    decreases s.len(),
{
    if s.len() == 0 {
        0
    } else if s[0].0@ == k {
        s[0].1
    } else {
        count_of(s.skip(1), k)
    }
}

/// The count read at the first pair carrying `k` is the count of `k`.
proof fn lemma_count_of_at(s: Seq<(String, u64)>, k: Seq<char>, i: int)
    requires
        0 <= i < s.len(),
        s[i].0@ == k,
        forall|j: int| 0 <= j < i ==> #[trigger] s[j].0@ != k,
    ensures
        count_of(s, k) == s[i].1,
    decreases i,
{
    if i > 0 {
        lemma_count_of_at(s.skip(1), k, i - 1);
    }
}

/// A key no pair carries counts zero.
proof fn lemma_count_of_absent(s: Seq<(String, u64)>, k: Seq<char>)
    requires
        !has_key(s, k),
    ensures
        count_of(s, k) == 0,
    decreases s.len(),
{
    if s.len() > 0 {
        assert(!has_key(s.skip(1), k)) by {
            if has_key(s.skip(1), k) {
                let j = choose|j: int| 0 <= j < s.skip(1).len() && s.skip(1)[j].0@ == k;
                assert(s[j + 1].0@ == k);
            }
        }
        lemma_count_of_absent(s.skip(1), k);
    }
}

/// Appending a pair changes no key already present, and gives a fresh key
/// exactly the appended count.
proof fn lemma_count_of_push(s: Seq<(String, u64)>, p: (String, u64), k: Seq<char>)
    ensures
        has_key(s, k) ==> count_of(s.push(p), k) == count_of(s, k),
        !has_key(s, k) && p.0@ == k ==> count_of(s.push(p), k) == p.1,
        !has_key(s, k) && p.0@ != k ==> count_of(s.push(p), k) == 0,
    decreases s.len(),
{
    if s.len() == 0 {
        assert(s.push(p).len() == 1);
        assert(s.push(p)[0] == p);
        assert(s.push(p).skip(1) =~= Seq::<(String, u64)>::empty());
        assert(count_of(s.push(p).skip(1), k) == 0);
        assert(!has_key(s, k));
        assert(p.0@ != k ==> count_of(s.push(p), k) == 0);
        assert(p.0@ == k ==> count_of(s.push(p), k) == p.1);
    } else {
        assert(s.push(p)[0] == s[0]);
        assert(s.push(p).skip(1) =~= s.skip(1).push(p));
        lemma_count_of_push(s.skip(1), p, k);
        if s[0].0@ == k {
            assert(0 <= 0 < s.len() && s[0].0@ == k);
            assert(has_key(s, k));
        }
        if s[0].0@ != k {
            assert(has_key(s, k) ==> has_key(s.skip(1), k)) by {
                if has_key(s, k) {
                    let j = choose|j: int| 0 <= j < s.len() && s[j].0@ == k;
                    assert(s.skip(1)[j - 1].0@ == k);
                }
            }
            assert(has_key(s.skip(1), k) ==> has_key(s, k)) by {
                if has_key(s.skip(1), k) {
                    let j = choose|j: int| 0 <= j < s.skip(1).len() && s.skip(1)[j].0@ == k;
                    assert(s[j + 1].0@ == k);
                }
            }
        }
    }
}

/// Overwriting the pair at `i` with one carrying the same key leaves every
/// other key's count alone.
proof fn lemma_count_of_update(s: Seq<(String, u64)>, i: int, x: (String, u64), k: Seq<char>)
    requires
        0 <= i < s.len(),
        x.0@ == s[i].0@,
        k != s[i].0@,
    ensures
        count_of(s.update(i, x), k) == count_of(s, k),
    decreases i,
{
    let t = s.update(i, x);
    if i == 0 {
        assert(t[0] == x);
        assert(t.skip(1) =~= s.skip(1));
    } else {
        assert(t[0] == s[0]);
        assert(t.skip(1) =~= s.skip(1).update(i - 1, x));
        lemma_count_of_update(s.skip(1), i - 1, x, k);
    }
}

/// Usage statistics of this installation.
pub struct Statistics {
    /// How often the loader has been opened.
    pub opened_count: u64,
    /// How often each payload has been injected, keyed by its display name.
    pub inject_counts: Vec<(String, u64)>,
}

impl Default for Statistics {
    /// Fresh statistics: nothing opened, nothing injected.
    fn default() -> (s: Statistics)
        ensures
            s.opened_count == 0,
            s.inject_counts@.len() == 0,
            s.wf(),
    {
        Statistics::new()
    }
}

impl Statistics {
    /// The per-payload counters carry each name at most once.
    pub open spec fn wf(&self) -> bool {
        unique_keys(self.inject_counts@)
    }

    /// The recorded injection count of the payload named `k`.
    pub open spec fn injects_of(&self, k: Seq<char>) -> u64 {
        count_of(self.inject_counts@, k)
    }

    /// Fresh statistics: nothing opened, nothing injected.
    pub fn new() -> (s: Statistics)
        ensures
            s.opened_count == 0,
            s.inject_counts@.len() == 0,
            s.wf(),
    {
        Statistics { opened_count: 0, inject_counts: Vec::new() }
    }

    /// Records one more injection of the payload named `hack_name`; every
    /// other payload's count is untouched.
    pub fn increment_inject_count(&mut self, hack_name: &str)
        requires
            old(self).wf(),
            old(self).injects_of(hack_name@) < u64::MAX,
        ensures
            final(self).wf(),
            final(self).injects_of(hack_name@) == old(self).injects_of(hack_name@) + 1,
            forall|k: Seq<char>| k != hack_name@
                ==> #[trigger] final(self).injects_of(k) == old(self).injects_of(k),
            final(self).opened_count == old(self).opened_count,
    {
        let ghost s0 = self.inject_counts@;
        let n = self.inject_counts.len();
        let mut i: usize = 0;
        while i < n
            invariant
                n == self.inject_counts@.len(),
                i <= n,
                self.inject_counts@ == s0,
                s0 == old(self).inject_counts@,
                self.opened_count == old(self).opened_count,
                unique_keys(s0),
                count_of(s0, hack_name@) < u64::MAX,
                forall|j: int| 0 <= j < i ==> #[trigger] s0[j].0@ != hack_name@,
            decreases n - i,
        {
            if str_eq(self.inject_counts[i].0.as_str(), hack_name) {
                proof {
                    lemma_count_of_at(s0, hack_name@, i as int);
                }
                let cur: u64 = self.inject_counts[i].1;
                let key: String = self.inject_counts[i].0.clone();
                let updated: (String, u64) = (key, cur + 1);
                self.inject_counts[i] = updated;
                proof {
                    let s1 = self.inject_counts@;
                    assert(s1 == s0.update(i as int, s1[i as int]));
                    lemma_count_of_at(s1, hack_name@, i as int);
                    assert forall|k: Seq<char>| k != hack_name@ implies #[trigger] count_of(s1, k)
                        == count_of(s0, k) by {
                        lemma_count_of_update(s0, i as int, s1[i as int], k);
                    }
                    assert forall|a: int, b: int| 0 <= a < b < s1.len() implies s1[a].0@
                        != s1[b].0@ by {
                        assert(s1[a].0@ == s0[a].0@);
                        assert(s1[b].0@ == s0[b].0@);
                        assert(s0[a].0@ != s0[b].0@);
                    }
                }
                return;
            }
            i = i + 1;
        }
        proof {
            assert(!has_key(s0, hack_name@)) by {
                if has_key(s0, hack_name@) {
                    let j = choose|j: int| 0 <= j < s0.len() && s0[j].0@ == hack_name@;
                }
            }
            lemma_count_of_absent(s0, hack_name@);
        }
        let fresh: (String, u64) = (hack_name.to_owned(), 1);
        self.inject_counts.push(fresh);
        proof {
            let s1 = self.inject_counts@;
            lemma_count_of_push(s0, s1[s0.len() as int], hack_name@);
            assert forall|k: Seq<char>| k != hack_name@ implies #[trigger] count_of(s1, k)
                == count_of(s0, k) by {
                lemma_count_of_push(s0, s1[s0.len() as int], k);
                if !has_key(s0, k) {
                    lemma_count_of_absent(s0, k);
                }
            }
            assert forall|a: int, b: int| 0 <= a < b < s1.len() implies s1[a].0@ != s1[b].0@ by {
                if b < s0.len() {
                    assert(s0[a].0@ != s0[b].0@);
                } else {
                    assert(s0[a].0@ != hack_name@);
                }
            }
        }
    }

    /// Reads the recorded injection count of the payload named `hack_name`.
    pub fn get_inject_count(&self, hack_name: &str) -> (r: u64)
        ensures
            r == self.injects_of(hack_name@),
    {
        let ghost s0 = self.inject_counts@;
        let n = self.inject_counts.len();
        let mut i: usize = 0;
        while i < n
            invariant
                n == self.inject_counts@.len(),
                i <= n,
                s0 == self.inject_counts@,
                forall|j: int| 0 <= j < i ==> #[trigger] s0[j].0@ != hack_name@,
            decreases n - i,
        {
            if str_eq(self.inject_counts[i].0.as_str(), hack_name) {
                proof {
                    lemma_count_of_at(s0, hack_name@, i as int);
                }
                return self.inject_counts[i].1;
            }
            i = i + 1;
        }
        proof {
            assert(!has_key(s0, hack_name@)) by {
                if has_key(s0, hack_name@) {
                    let j = choose|j: int| 0 <= j < s0.len() && s0[j].0@ == hack_name@;
                }
            }
            lemma_count_of_absent(s0, hack_name@);
        }
        0
    }

    /// Records one more opening of the loader.
    pub fn increment_opened_count(&mut self)
        requires
            old(self).opened_count < u64::MAX,
        ensures
            final(self).opened_count == old(self).opened_count + 1,
            final(self).inject_counts == old(self).inject_counts,
    {
        self.opened_count = self.opened_count + 1;
    }

    /// Clears everything back to fresh statistics.
    pub fn reset(&mut self)
        ensures
            final(self).opened_count == 0,
            final(self).inject_counts@.len() == 0,
            final(self).wf(),
    {
        self.opened_count = 0;
        self.inject_counts = Vec::new();
    }
}

} // verus!

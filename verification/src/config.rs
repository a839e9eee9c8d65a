//! Startup configuration rules: probe interval normalization, target
//! de-duplication, fan-out validation and worker sizing.

use vstd::prelude::*;

verus! {

/// Milliseconds between probes for a user-supplied interval in seconds.
/// An interval of 0 is special-cased to 500 ms.
pub fn normalize_interval_ms(interval_secs: u32) -> (ms: u64)
    ensures
        interval_secs == 0 ==> ms == 500,
        interval_secs != 0 ==> ms == interval_secs * 1000,
{
    if interval_secs == 0 {
        500
    } else {
        (interval_secs as u64) * 1000
    }
}

/// The target list with repetitions removed: every string keeps its
/// first occurrence only, in first-seen order.
pub open spec fn dedup_spec(s: Seq<Seq<char>>) -> Seq<Seq<char>>
    decreases s.len(),
{
    if s.len() == 0 {
        Seq::empty()
    } else {
        let rest = dedup_spec(s.drop_last());
        if rest.contains(s.last()) {
            rest
        } else {
            rest.push(s.last())
        }
    }
}

/// De-duplication keeps exactly the strings that were supplied: a string
/// stands in the de-duplicated list if and only if it was a target.
pub proof fn lemma_dedup_membership(s: Seq<Seq<char>>, x: Seq<char>)
    ensures
        dedup_spec(s).contains(x) == s.contains(x),
    decreases s.len(),
{
    if s.len() > 0 {
        lemma_dedup_membership(s.drop_last(), x);
        let rest = dedup_spec(s.drop_last());
        assert(s.contains(x) == (s.drop_last().contains(x) || s.last() == x)) by {
            if s.drop_last().contains(x) {
                let i = choose|i: int| 0 <= i < s.drop_last().len() && s.drop_last()[i] == x;
                assert(s[i] == x);
            }
            if s.last() == x {
                assert(s[s.len() - 1] == x);
            }
            if s.contains(x) {
                let i = choose|i: int| 0 <= i < s.len() && s[i] == x;
                if i < s.len() - 1 {
                    assert(s.drop_last()[i] == x);
                }
            }
        };
        if !rest.contains(s.last()) {
            assert(rest.push(s.last()).contains(x) == (rest.contains(x) || s.last() == x)) by {
                if rest.contains(x) {
                    let i = choose|i: int| 0 <= i < rest.len() && rest[i] == x;
                    assert(rest.push(s.last())[i] == x);
                }
                if s.last() == x {
                    assert(rest.push(s.last())[rest.len() as int] == x);
                }
                if rest.push(s.last()).contains(x) {
                    let i = choose|i: int|
                        0 <= i < rest.push(s.last()).len() && rest.push(s.last())[i] == x;
                    if i < rest.len() {
                        assert(rest[i] == x);
                    }
                }
            };
        }
    }
}

/// De-duplication leaves no two equal strings behind.
pub proof fn lemma_dedup_distinct(s: Seq<Seq<char>>)
    ensures
        forall|i: int, j: int| 0 <= i < j < dedup_spec(s).len()
            ==> dedup_spec(s)[i] != dedup_spec(s)[j],
    decreases s.len(),
{
    if s.len() > 0 {
        lemma_dedup_distinct(s.drop_last());
        let rest = dedup_spec(s.drop_last());
        if !rest.contains(s.last()) {
            assert forall|i: int, j: int| 0 <= i < j < dedup_spec(s).len()
                implies dedup_spec(s)[i] != dedup_spec(s)[j] by {
                if j == dedup_spec(s).len() - 1 {
                    assert(dedup_spec(s)[i] == rest[i]);
                    assert(!rest.contains(s.last()));
                    assert(rest[i] != s.last());
                } else {
                    assert(dedup_spec(s)[i] == rest[i] && dedup_spec(s)[j] == rest[j]);
                }
            }
        }
    }
}

/// Whether some string in `v` equals `x`.
fn contains_string(v: &Vec<String>, x: &String) -> (r: bool)
    ensures
        r == v.deep_view().contains(x@),
{
    let mut i: usize = 0;
    while i < v.len()
        invariant
            i <= v@.len(),
            forall|j: int| 0 <= j < i ==> v.deep_view()[j] != x@,
        decreases v@.len() - i,
    {
        if v[i] == *x {
            proof {
                assert(v.deep_view()[i as int] == x@);
            }
            return true;
        }
        i = i + 1;
    }
    false
}

/// The supplied targets with repetitions removed, first occurrence kept,
/// first-seen order preserved: each target gets exactly one prober and
/// one statistics record.
pub fn dedup_targets(targets: &Vec<String>) -> (r: Vec<String>)
    ensures
        r.deep_view() == dedup_spec(targets.deep_view()),
{
    let ghost all = targets.deep_view();
    let mut r: Vec<String> = Vec::new();
    let mut i: usize = 0;
    while i < targets.len()
        invariant
            i <= targets@.len(),
            all == targets.deep_view(),
            r.deep_view() == dedup_spec(all.take(i as int)),
        decreases targets@.len() - i,
    {
        proof {
            assert(all.take(i + 1).drop_last() =~= all.take(i as int));
            assert(all.take(i + 1).last() == all[i as int]);
            assert(all[i as int] == targets@[i as int]@);
        }
        let ghost before = r.deep_view();
        if !contains_string(&r, &targets[i]) {
            r.push(targets[i].clone());
            proof {
                assert(r.deep_view() =~= before.push(all[i as int]));
            }
        }
        i = i + 1;
    }
    proof {
        assert(all.take(all.len() as int) =~= all);
    }
    r
}

/// How many addresses will be probed: the fan-out count when exactly one
/// target was supplied with fan-out requested, the target count
/// otherwise.
pub fn effective_ip_count(n_targets: usize, multiple: usize) -> (n: usize)
    ensures
        n == if n_targets == 1 && multiple > 0 {
            multiple as int
        } else {
            n_targets as int
        },
{
    if n_targets == 1 && multiple > 0 {
        multiple
    } else {
        n_targets
    }
}

/// Worker pool size: one worker per probed address plus one for the
/// display sink.
pub fn worker_threads(ip_count: usize) -> (n: usize)
    requires
        ip_count < usize::MAX,
    ensures
        n == ip_count + 1,
        n >= 1,
{
    ip_count + 1
}

/// Fan-out is only meaningful for a single target: requesting multiple
/// addresses while several targets were supplied is a configuration
/// error.
pub fn fanout_config_ok(n_targets: usize, multiple: usize) -> (ok: bool)
    ensures
        ok == !(multiple > 0 && n_targets > 1),
{
    !(multiple > 0 && n_targets > 1)
}

} // verus!

//! Filling a fixed number of components from a source that may hold fewer
//! or more.

use vstd::prelude::*;
use vstd::std_specs::iter::IteratorSpec;

verus! {

/// The item of `s` at `i`, or `zero` where `s` has none there.
pub open spec fn item_or<T>(s: Seq<T>, i: int, zero: T) -> T {
    if 0 <= i < s.len() {
        s[i]
    } else {
        zero
    }
}

/// The first `n` items of `s`, or all of them where it has fewer.
pub open spec fn prefix<T>(s: Seq<T>, n: int) -> Seq<T> {
    if n <= s.len() {
        s.take(n)
    } else {
        s
    }
}

/// The item of `s` at `i`, or `zero` where `s` has none there.
pub fn get_or<T: Copy>(s: &[T], i: usize, zero: T) -> (r: T)
    ensures
        r == item_or(s@, i as int, zero),
{
    if i < s.len() {
        s[i]
    } else {
        zero
    }
}

/// Takes items from `iter` until it has `n` of them or `iter` is exhausted.
pub fn collect_prefix<T, I: Iterator<Item = T>>(iter: I, n: usize) -> (v: Vec<T>)
    ensures
        v@.len() <= n,
        iter.obeys_prophetic_iter_laws() ==> v@ == prefix(iter.remaining(), n as int),
{
    let mut iter = iter;
    let ghost all = iter.remaining();
    let ghost lawful = iter.obeys_prophetic_iter_laws();
    let mut v: Vec<T> = Vec::new();
    while v.len() < n
        invariant_except_break
            v@.len() <= n,
            lawful == iter.obeys_prophetic_iter_laws(),
            lawful ==> v@ + iter.remaining() == all,
        ensures
            v@.len() <= n,
            lawful ==> v@ == prefix(all, n as int),
        decreases n - v@.len(),
    {
        let ghost before = iter.remaining();
        match iter.next() {
            Some(item) => {
                v.push(item);
                proof {
                    if lawful {
                        assert(v@ + iter.remaining() =~= all);
                    }
                }
            },
            None => {
                proof {
                    if lawful {
                        assert(v@ =~= all);
                    }
                }
                break ;
            },
        }
    }
    proof {
        if lawful && v@.len() == n {
            assert(v@ =~= all.take(n as int));
        }
    }
    v
}

} // verus!

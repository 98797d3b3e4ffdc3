//! Sequence functions that the model is stated with.

use vstd::prelude::*;

verus! {

/// The concatenation of `f(x)` over the elements `x` of `s`, in order.
pub open spec fn flat_map<A, B>(s: Seq<A>, f: spec_fn(A) -> Seq<B>) -> Seq<B>
    decreases s.len(),
{
    if s.len() == 0 {
        Seq::empty()
    } else {
        flat_map(s.drop_last(), f) + f(s.last())
    }
}

/// One more element of `s` adds its image at the end.
pub proof fn lemma_flat_map_step<A, B>(s: Seq<A>, f: spec_fn(A) -> Seq<B>, i: int)
    requires
        0 <= i < s.len(),
    ensures
        flat_map(s.take(i + 1), f) == flat_map(s.take(i), f) + f(s[i]),
        flat_map(s.take(0), f) == Seq::<B>::empty(),
        i + 1 == s.len() ==> s.take(i + 1) == s,
{
    assert(s.take(i + 1).drop_last() =~= s.take(i));
    assert(s.take(s.len() as int) =~= s);
}

/// An element is in the result exactly if it is in the image of an element.
pub proof fn lemma_flat_map_contains<A, B>(s: Seq<A>, f: spec_fn(A) -> Seq<B>, b: B)
    ensures
        flat_map(s, f).contains(b) <==> exists|i: int| 0 <= i < s.len() && (#[trigger] f(s[i])).contains(b),
    decreases s.len(),
{
    if s.len() == 0 {
        assert(!flat_map(s, f).contains(b));
    } else {
        let t = s.drop_last();
        lemma_flat_map_contains(t, f, b);
        let r = flat_map(t, f);
        let l = f(s.last());
        if flat_map(s, f).contains(b) {
            let j = choose|j: int| 0 <= j < (r + l).len() && (r + l)[j] == b;
            if j < r.len() {
                assert(r[j] == b);
                assert(r.contains(b));
                let i = choose|i: int| 0 <= i < t.len() && (#[trigger] f(t[i])).contains(b);
                assert(f(s[i]).contains(b));
            } else {
                assert(l[j - r.len()] == b);
                assert(f(s[s.len() - 1]).contains(b));
            }
        }
        if exists|i: int| 0 <= i < s.len() && (#[trigger] f(s[i])).contains(b) {
            let i = choose|i: int| 0 <= i < s.len() && (#[trigger] f(s[i])).contains(b);
            if i < t.len() {
                assert(f(t[i]).contains(b));
                let j = choose|j: int| 0 <= j < r.len() && r[j] == b;
                assert((r + l)[j] == b);
            } else {
                let j = choose|j: int| 0 <= j < l.len() && l[j] == b;
                assert((r + l)[r.len() + j] == b);
            }
        }
    }
}

/// The first position at or after `from` at which `w` stands in `s`, or the
/// length of `s` where there is none.
pub open spec fn first_index(s: Seq<u64>, w: u64, from: int) -> int
    decreases s.len() - from,
{
    if from < 0 || from >= s.len() {
        s.len() as int
    } else if s[from] == w {
        from
    } else {
        first_index(s, w, from + 1)
    }
}

/// What `first_index` finds is the first occurrence, and it finds one
/// wherever there is one.
pub proof fn lemma_first_index(s: Seq<u64>, w: u64, from: int)
    requires
        0 <= from <= s.len(),
    ensures
        from <= first_index(s, w, from) <= s.len(),
        first_index(s, w, from) < s.len() ==> s[first_index(s, w, from)] == w,
        forall|j: int| from <= j < first_index(s, w, from) ==> s[j] != w,
    decreases s.len() - from,
{
    if from < s.len() && s[from] != w {
        lemma_first_index(s, w, from + 1);
    }
}

/// The position of `w` in `v`, if it is there.
pub fn position(v: &Vec<u64>, w: u64) -> (r: Option<usize>)
    ensures
        match r {
            Some(i) => i < v.len() && i == first_index(v@, w, 0) && v[i as int] == w && v@.contains(w),
            None => first_index(v@, w, 0) == v.len() && !v@.contains(w),
        },
{
    let mut i: usize = 0;
    while i < v.len()
        invariant
            i <= v.len(),
            first_index(v@, w, 0) == first_index(v@, w, i as int),
            forall|j: int| 0 <= j < i ==> v[j] != w,
        decreases v.len() - i,
    {
        if v[i] == w {
            return Some(i);
        }
        i += 1;
    }
    None
}

} // verus!

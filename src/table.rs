//! Tables of items keyed by level coordinate, with at most one entry per
//! coordinate.

use vstd::prelude::*;

verus! {

/// A level-tile coordinate, column first.
pub type Pos = (u32, u32);

/// No coordinate appears twice in the table.
pub open spec fn keys_unique<T>(s: Seq<(Pos, T)>) -> bool {
    forall|i: int, j: int|
        0 <= i < s.len() && 0 <= j < s.len() && #[trigger] s[i].0 == #[trigger] s[j].0 ==> i == j
}

pub open spec fn has_key<T>(s: Seq<(Pos, T)>, p: Pos) -> bool {
    exists|i: int| 0 <= i < s.len() && s[i].0 == p
}

/// What the table holds at `p`.
pub open spec fn lookup<T>(s: Seq<(Pos, T)>, p: Pos) -> Option<T> {
    if has_key(s, p) {
        Some(s[choose|i: int| 0 <= i < s.len() && s[i].0 == p].1)
    } else {
        None
    }
}

/// Distance between two coordinates: the larger of the two axis gaps.
pub open spec fn distance(a: Pos, b: Pos) -> int {
    let dx = if a.0 >= b.0 { a.0 - b.0 } else { b.0 - a.0 };
    let dy = if a.1 >= b.1 { a.1 - b.1 } else { b.1 - a.1 };
    if dx >= dy { dx } else { dy }
}

pub proof fn lemma_lookup_at<T>(s: Seq<(Pos, T)>, k: int)
    requires
        keys_unique(s),
        0 <= k < s.len(),
    ensures
        lookup(s, s[k].0) == Some(s[k].1),
{
    let p = s[k].0;
    assert(has_key(s, p));
    let i = choose|i: int| 0 <= i < s.len() && s[i].0 == p;
    assert(s[i].0 == s[k].0);
}

/// The index at which `p` is stored, if it is.
pub fn find<T>(v: &Vec<(Pos, T)>, p: Pos) -> (r: Option<usize>)
    ensures
        match r {
            Some(i) => i < v@.len() && v@[i as int].0 == p,
            None => forall|i: int| 0 <= i < v@.len() ==> v@[i].0 != p,
        },
{
    let mut i: usize = 0;
    while i < v.len()
        invariant
            i <= v@.len(),
            forall|j: int| 0 <= j < i ==> v@[j].0 != p,
        decreases v@.len() - i,
    {
        if v[i].0 .0 == p.0 && v[i].0 .1 == p.1 {
            return Some(i);
        }
        i = i + 1;
    }
    None
}

/// The entry at `p`.
pub fn get<T: Copy>(v: &Vec<(Pos, T)>, p: Pos) -> (r: Option<T>)
    requires
        keys_unique(v@),
    ensures
        r == lookup(v@, p),
{
    match find(v, p) {
        Some(i) => {
            proof {
                lemma_lookup_at(v@, i as int);
            }
            Some(v[i].1)
        },
        None => None,
    }
}

/// Stores `val` at `p`, replacing what was there.
pub fn put<T: Copy>(v: &mut Vec<(Pos, T)>, p: Pos, val: T)
    requires
        keys_unique(old(v)@),
    ensures
        keys_unique(final(v)@),
        lookup(final(v)@, p) == Some(val),
        forall|q: Pos| q != p ==> lookup(final(v)@, q) == lookup(old(v)@, q),
{
    let ghost s0 = v@;
    match find(v, p) {
        Some(i) => {
            v.set(i, (p, val));
            proof {
            assert forall|q: Pos| q != p implies lookup(v@, q) == lookup(s0, q) by {
                if has_key(s0, q) {
                    let k = choose|k: int| 0 <= k < s0.len() && s0[k].0 == q;
                    lemma_lookup_at(s0, k);
                    assert(v@[k] == s0[k]);
                    lemma_lookup_at(v@, k);
                } else {
                    assert forall|k: int| 0 <= k < v@.len() implies v@[k].0 != q by {
                        if k != i {
                            assert(v@[k] == s0[k]);
                        }
                    }
                }
            }
            lemma_lookup_at(v@, i as int);
            }
        },
        None => {
            v.push((p, val));
            proof {
            assert forall|q: Pos| q != p implies lookup(v@, q) == lookup(s0, q) by {
                if has_key(s0, q) {
                    let k = choose|k: int| 0 <= k < s0.len() && s0[k].0 == q;
                    lemma_lookup_at(s0, k);
                    assert(v@[k] == s0[k]);
                    lemma_lookup_at(v@, k);
                } else {
                    assert forall|k: int| 0 <= k < v@.len() implies v@[k].0 != q by {
                        if k < s0.len() {
                            assert(v@[k] == s0[k]);
                        }
                    }
                }
            }
            lemma_lookup_at(v@, s0.len() as int);
            }
        },
    }
}

/// Whether no coordinate appears twice in the table.
pub fn keys_unique_check<T>(v: &Vec<(Pos, T)>) -> (r: bool)
    ensures
        r == keys_unique(v@),
{
    let mut i: usize = 0;
    while i < v.len()
        invariant
            i <= v@.len(),
            forall|a: int, b: int| 0 <= a < i && 0 <= b < v@.len() && v@[a].0 == v@[b].0 ==> a == b,
        decreases v@.len() - i,
    {
        let mut j: usize = 0;
        while j < v.len()
            invariant
                i < v@.len(),
                j <= v@.len(),
                forall|a: int, b: int| 0 <= a < i && 0 <= b < v@.len() && v@[a].0 == v@[b].0 ==> a == b,
                forall|b: int| 0 <= b < j && v@[i as int].0 == v@[b].0 ==> i == b,
            decreases v@.len() - j,
        {
            if j != i && v[i].0 .0 == v[j].0 .0 && v[i].0 .1 == v[j].0 .1 {
                assert(v@[i as int].0 == v@[j as int].0);
                return false;
            }
            j = j + 1;
        }
        i = i + 1;
    }
    proof {
        assert forall|a: int, b: int|
            0 <= a < v@.len() && 0 <= b < v@.len() && #[trigger] v@[a].0 == #[trigger] v@[b].0 implies a == b by {}
    }
    true
}

/// The axis-aligned gap between two coordinates, computed.
fn distance_of(a: Pos, b: Pos) -> (r: u32)
    ensures
        r == distance(a, b),
{
    let dx = if a.0 >= b.0 { a.0 - b.0 } else { b.0 - a.0 };
    let dy = if a.1 >= b.1 { a.1 - b.1 } else { b.1 - a.1 };
    if dx >= dy { dx } else { dy }
}

/// The index of the first entry nearest to `p` among those within `radius`
/// of it.
pub fn find_nearest<T>(v: &Vec<(Pos, T)>, p: Pos, radius: u32) -> (r: Option<usize>)
    ensures
        match r {
            Some(k) => {
                &&& k < v@.len()
                &&& distance(v@[k as int].0, p) <= radius
                &&& forall|j: int| 0 <= j < v@.len() ==> distance(v@[k as int].0, p) <= distance(v@[j].0, p)
                &&& forall|j: int| 0 <= j < k ==> distance(v@[k as int].0, p) < distance(v@[j].0, p)
            },
            None => forall|j: int| 0 <= j < v@.len() ==> distance(v@[j].0, p) > radius,
        },
{
    let mut best: Option<usize> = None;
    let mut i: usize = 0;
    while i < v.len()
        invariant
            i <= v@.len(),
            match best {
                Some(k) => {
                    &&& k < i
                    &&& distance(v@[k as int].0, p) <= radius
                    &&& forall|j: int| 0 <= j < i ==> distance(v@[k as int].0, p) <= distance(v@[j].0, p)
                    &&& forall|j: int| 0 <= j < k ==> distance(v@[k as int].0, p) < distance(v@[j].0, p)
                },
                None => forall|j: int| 0 <= j < i ==> distance(v@[j].0, p) > radius,
            },
        decreases v@.len() - i,
    {
        let d = distance_of(v[i].0, p);
        match best {
            Some(k) => {
                if d < distance_of(v[k].0, p) {
                    best = Some(i);
                }
            },
            None => {
                if d <= radius {
                    best = Some(i);
                }
            },
        }
        i = i + 1;
    }
    best
}

/// Removes the entry nearest to `p` within `radius`, the first such in the
/// table where several are equally near; leaves the table as it was where
/// none is that near.
pub fn remove_nearest<T>(v: &mut Vec<(Pos, T)>, p: Pos, radius: u32)
    requires
        keys_unique(old(v)@),
    ensures
        keys_unique(final(v)@),
        match find_nearest_spec(old(v)@, p, radius) {
            Some(k) => final(v)@ == old(v)@.remove(k),
            None => final(v)@ == old(v)@,
        },
{
    let ghost s0 = v@;
    let r = find_nearest(v, p, radius);
    match r {
        Some(k) => {
            proof {
                lemma_nearest_is_first(s0, p, radius, k as int);
            }
            v.remove(k);
            assert forall|i: int, j: int|
                0 <= i < v@.len() && 0 <= j < v@.len() && #[trigger] v@[i].0 == #[trigger] v@[j].0 implies i == j by {
                let i0 = if i < k { i } else { i + 1 };
                let j0 = if j < k { j } else { j + 1 };
                assert(v@[i] == s0[i0]);
                assert(v@[j] == s0[j0]);
            }
        },
        None => {
            proof {
                if find_nearest_spec(s0, p, radius) is Some {
                    let k = find_nearest_spec(s0, p, radius)->0;
                    assert(distance(s0[k].0, p) > radius);
                }
            }
        },
    }
}

/// Whether the entry at `k` is within `radius` of `p` and strictly nearer
/// than every entry before it and no farther than every entry after it.
pub open spec fn is_first_nearest<T>(s: Seq<(Pos, T)>, p: Pos, radius: u32, k: int) -> bool {
    &&& 0 <= k < s.len()
    &&& distance(s[k].0, p) <= radius
    &&& forall|j: int| 0 <= j < k ==> distance(s[k].0, p) < distance(#[trigger] s[j].0, p)
    &&& forall|j: int| k <= j < s.len() ==> distance(s[k].0, p) <= distance(#[trigger] s[j].0, p)
}

/// The index of the entry that a delete click at `p` removes.
pub open spec fn find_nearest_spec<T>(s: Seq<(Pos, T)>, p: Pos, radius: u32) -> Option<int> {
    if exists|k: int| is_first_nearest(s, p, radius, k) {
        Some(choose|k: int| is_first_nearest(s, p, radius, k))
    } else {
        None
    }
}

proof fn lemma_nearest_is_first<T>(s: Seq<(Pos, T)>, p: Pos, radius: u32, k: int)
    requires
        0 <= k < s.len(),
        distance(s[k].0, p) <= radius,
        forall|j: int| 0 <= j < s.len() ==> distance(s[k].0, p) <= distance(s[j].0, p),
        forall|j: int| 0 <= j < k ==> distance(s[k].0, p) < distance(s[j].0, p),
    ensures
        find_nearest_spec(s, p, radius) == Some(k),
{
    assert(is_first_nearest(s, p, radius, k));
    let k2 = choose|k2: int| is_first_nearest(s, p, radius, k2);
    if k2 < k {
        assert(distance(s[k].0, p) < distance(s[k2].0, p));
    } else if k < k2 {
        assert(distance(s[k2].0, p) < distance(s[k].0, p));
    }
}

} // verus!

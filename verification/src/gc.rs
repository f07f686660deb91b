//! End-of-frame garbage collection: each entity collection is pruned of all
//! entities flagged destroyed, preserving the relative order of survivors.
//! Also home of the sequence-counting helpers the scoring contracts use.

use vstd::prelude::*;
use crate::block::Block;
use crate::bomb::Bomb;
use crate::bullet::Bullet;
use crate::enemy::Enemy;
use crate::ufo::Ufo;

verus! {

/// The subsequence of `s` whose elements satisfy `live`, in order.
pub open spec fn retained<T>(s: Seq<T>, live: spec_fn(T) -> bool) -> Seq<T>
    decreases s.len(),
{
    if s.len() == 0 {
        Seq::empty()
    } else {
        let rest = retained(s.drop_last(), live);
        if live(s.last()) {
            rest.push(s.last())
        } else {
            rest
        }
    }
}

/// How many elements of `s` satisfy `f`.
pub open spec fn count_matching<T>(s: Seq<T>, f: spec_fn(T) -> bool) -> int
    decreases s.len(),
{
    if s.len() == 0 {
        0
    } else {
        count_matching(s.drop_last(), f) + if f(s.last()) {
            1int
        } else {
            0int
        }
    }
}

/// Extending a prefix by one element extends its count by that element's
/// contribution.
pub proof fn lemma_count_prefix<T>(s: Seq<T>, f: spec_fn(T) -> bool, i: int)
    requires
        0 <= i < s.len(),
    ensures
        count_matching(s.subrange(0, i + 1), f) == count_matching(s.subrange(0, i), f) + (
        if f(s[i]) {
            1int
        } else {
            0int
        }),
{
    assert(s.subrange(0, i + 1).drop_last() =~= s.subrange(0, i));
    assert(s.subrange(0, i + 1).last() == s[i]);
}

pub proof fn lemma_count_nonneg<T>(s: Seq<T>, f: spec_fn(T) -> bool)
    ensures
        count_matching(s, f) >= 0,
    decreases s.len(),
{
    if s.len() > 0 {
        lemma_count_nonneg(s.drop_last(), f);
    }
}

/// Extending a prefix by one element either keeps or appends it in the
/// retained subsequence, depending on `live`.
pub proof fn lemma_retained_prefix<T>(s: Seq<T>, live: spec_fn(T) -> bool, i: int)
    requires
        0 <= i < s.len(),
    ensures
        retained(s.subrange(0, i + 1), live) == if live(s[i]) {
            retained(s.subrange(0, i), live).push(s[i])
        } else {
            retained(s.subrange(0, i), live)
        },
{
    assert(s.subrange(0, i + 1).drop_last() =~= s.subrange(0, i));
    assert(s.subrange(0, i + 1).last() == s[i]);
}

/// The garbage-collection pass keeps only live elements: every element of
/// the retained subsequence satisfies `live`, and any property `p` holding
/// of every live element of the source holds of every survivor. In
/// particular, an entity flagged destroyed is never in the collection the
/// next frame looks at.
pub proof fn lemma_retained_live<T>(s: Seq<T>, live: spec_fn(T) -> bool, p: spec_fn(T) -> bool)
    requires
        forall|i: int| 0 <= i < s.len() && live(#[trigger] s[i]) ==> p(s[i]),
    ensures
        retained(s, live).len() <= s.len(),
        forall|k: int|
            0 <= k < retained(s, live).len() ==> live(#[trigger] retained(s, live)[k]) && p(
                retained(s, live)[k],
            ),
    decreases s.len(),
{
    if s.len() > 0 {
        lemma_retained_live(s.drop_last(), live, p);
        assert(forall|i: int| 0 <= i < s.drop_last().len() ==> s.drop_last()[i] == s[i]);
    }
}

/// On a collection with no destroyed element, the garbage-collection pass
/// is the identity.
pub proof fn lemma_retained_id<T>(s: Seq<T>, live: spec_fn(T) -> bool)
    requires
        forall|i: int| 0 <= i < s.len() ==> live(#[trigger] s[i]),
    ensures
        retained(s, live) == s,
    decreases s.len(),
{
    if s.len() > 0 {
        lemma_retained_id(s.drop_last(), live);
        assert(retained(s, live) =~= s);
    } else {
        assert(retained(s, live) =~= s);
    }
}

/// Removes every block flagged destroyed, keeping the survivors in order.
#[verifier::loop_isolation(false)]
pub fn sweep_blocks(v: &mut Vec<Block>)
    ensures
        final(v)@ == retained(old(v)@, |b: Block| !b.destroyed),
{
    let ghost s0 = v@;
    let ghost live = |b: Block| !b.destroyed;
    let mut out: Vec<Block> = Vec::new();
    let mut i: usize = 0;
    while i < v.len()
        invariant
            v@ == s0,
            i <= s0.len(),
            out@ == retained(s0.subrange(0, i as int), live),
        decreases s0.len() - i,
    {
        proof {
            lemma_retained_prefix(s0, live, i as int);
        }
        if !v[i].destroyed {
            out.push(v[i]);
        }
        i = i + 1;
    }
    proof {
        assert(s0.subrange(0, s0.len() as int) =~= s0);
    }
    *v = out;
}

/// Removes every bullet flagged destroyed, keeping the survivors in order.
#[verifier::loop_isolation(false)]
pub fn sweep_bullets(v: &mut Vec<Bullet>)
    ensures
        final(v)@ == retained(old(v)@, |b: Bullet| !b.destroyed),
{
    let ghost s0 = v@;
    let ghost live = |b: Bullet| !b.destroyed;
    let mut out: Vec<Bullet> = Vec::new();
    let mut i: usize = 0;
    while i < v.len()
        invariant
            v@ == s0,
            i <= s0.len(),
            out@ == retained(s0.subrange(0, i as int), live),
        decreases s0.len() - i,
    {
        proof {
            lemma_retained_prefix(s0, live, i as int);
        }
        if !v[i].destroyed {
            out.push(v[i]);
        }
        i = i + 1;
    }
    proof {
        assert(s0.subrange(0, s0.len() as int) =~= s0);
    }
    *v = out;
}

/// Removes every bomb flagged destroyed, keeping the survivors in order.
#[verifier::loop_isolation(false)]
pub fn sweep_bombs(v: &mut Vec<Bomb>)
    ensures
        final(v)@ == retained(old(v)@, |b: Bomb| !b.destroyed),
{
    let ghost s0 = v@;
    let ghost live = |b: Bomb| !b.destroyed;
    let mut out: Vec<Bomb> = Vec::new();
    let mut i: usize = 0;
    while i < v.len()
        invariant
            v@ == s0,
            i <= s0.len(),
            out@ == retained(s0.subrange(0, i as int), live),
        decreases s0.len() - i,
    {
        proof {
            lemma_retained_prefix(s0, live, i as int);
        }
        if !v[i].destroyed {
            out.push(v[i]);
        }
        i = i + 1;
    }
    proof {
        assert(s0.subrange(0, s0.len() as int) =~= s0);
    }
    *v = out;
}

/// Removes every enemy flagged destroyed, keeping the survivors in order.
#[verifier::loop_isolation(false)]
pub fn sweep_enemies(v: &mut Vec<Enemy>)
    ensures
        final(v)@ == retained(old(v)@, |e: Enemy| !e.destroyed),
{
    let ghost s0 = v@;
    let ghost live = |e: Enemy| !e.destroyed;
    let mut out: Vec<Enemy> = Vec::new();
    let mut i: usize = 0;
    while i < v.len()
        invariant
            v@ == s0,
            i <= s0.len(),
            out@ == retained(s0.subrange(0, i as int), live),
        decreases s0.len() - i,
    {
        proof {
            lemma_retained_prefix(s0, live, i as int);
        }
        if !v[i].destroyed {
            out.push(v[i]);
        }
        i = i + 1;
    }
    proof {
        assert(s0.subrange(0, s0.len() as int) =~= s0);
    }
    *v = out;
}

/// Removes every saucer flagged destroyed, keeping the survivors in order.
#[verifier::loop_isolation(false)]
pub fn sweep_ufos(v: &mut Vec<Ufo>)
    ensures
        final(v)@ == retained(old(v)@, |u: Ufo| !u.destroyed),
{
    let ghost s0 = v@;
    let ghost live = |u: Ufo| !u.destroyed;
    let mut out: Vec<Ufo> = Vec::new();
    let mut i: usize = 0;
    while i < v.len()
        invariant
            v@ == s0,
            i <= s0.len(),
            out@ == retained(s0.subrange(0, i as int), live),
        decreases s0.len() - i,
    {
        proof {
            lemma_retained_prefix(s0, live, i as int);
        }
        if !v[i].destroyed {
            out.push(v[i]);
        }
        i = i + 1;
    }
    proof {
        assert(s0.subrange(0, s0.len() as int) =~= s0);
    }
    *v = out;
}

} // verus!

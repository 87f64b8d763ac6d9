//! Random scalars for per-tree visual variation.
//!
//! One trusted wrapper draws a raw machine word from the process-wide
//! random source; everything built on top of it is verified, and each
//! contract states only what holds of every possible outcome.

use vstd::prelude::*;

use crate::fixed::{Fx, FX_SCALE};
use crate::vecmat::{spec_v3_normalize_to, Vec3};

verus! {

broadcast use vstd::seq_lib::lemma_seq_concat_contains_all_elements;

/// Strict lexicographic order on points, component by component.
pub open spec fn spec_lex_lt(a: Vec3, b: Vec3) -> bool {
    a.x@ < b.x@ || (a.x@ == b.x@ && (a.y@ < b.y@ || (a.y@ == b.y@ && a.z@ < b.z@)))
}

/// Strictly ascending in lexicographic order: sorted, no duplicates.
pub open spec fn strictly_sorted_lex(s: Seq<Vec3>) -> bool {
    forall|i: int, j: int|
        #![trigger s[i], s[j]]
        0 <= i < j < s.len() ==> spec_lex_lt(s[i], s[j])
}

/// Exactly one of `a < b`, `a == b`, `b < a` holds.
pub proof fn lemma_lex_trichotomy(a: Vec3, b: Vec3)
    ensures
        spec_lex_lt(a, b) || spec_lex_lt(b, a) || a == b,
        spec_lex_lt(a, b) ==> !spec_lex_lt(b, a) && a != b,
{
}

fn lex_lt(a: Vec3, b: Vec3) -> (r: bool)
    ensures
        r == spec_lex_lt(a, b),
{
    if a.x.bits != b.x.bits {
        a.x.bits < b.x.bits
    } else if a.y.bits != b.y.bits {
        a.y.bits < b.y.bits
    } else {
        a.z.bits < b.z.bits
    }
}

/// Relies on rand::random: one draw from the thread-local generator,
/// uniformly distributed over all 64-bit words. Nothing can be promised
/// of a random value, so this contract promises nothing; callers state
/// what holds of every outcome.
#[verifier::external_body]
fn random_u64() -> u64 {
    rand::random::<u64>()
}

/// A random scalar between zero and `hi` (between `hi` and zero when
/// `hi` is negative).
pub fn random_max(hi: Fx) -> (r: Fx)
    ensures
        hi@ >= 0 ==> 0 <= r@ <= hi@,
        hi@ < 0 ==> hi@ <= r@ <= 0,
{
    let raw = random_u64();
    if hi.bits >= 0 {
        let span: u64 = (hi.bits as u64) + 1;
        let v = raw % span;
        Fx { bits: v as i64 }
    } else {
        let mag: u128 = (-(hi.bits as i128)) as u128;
        let v = (raw as u128) % (mag + 1);
        let neg: i128 = -(v as i128);
        Fx { bits: neg as i64 }
    }
}

/// A random scalar between `lo` and `hi`.
pub fn random_lohi(lo: Fx, hi: Fx) -> (r: Fx)
    requires
        lo@ <= hi@,
    ensures
        lo@ <= r@ <= hi@,
{
    let raw = random_u64();
    let span: u128 = ((hi.bits as i128) - (lo.bits as i128)) as u128;
    let v: u128 = (raw as u128) % (span + 1);
    let bits: i128 = (lo.bits as i128) + (v as i128);
    Fx { bits: bits as i64 }
}

/// Sort a list of points lexicographically and drop duplicates: the
/// result is strictly ascending and holds exactly the points that were
/// in the input.
pub fn deduplicate_points_list(list: &mut Vec<Vec3>)
    ensures
        strictly_sorted_lex(final(list)@),
        forall|p: Vec3| final(list)@.contains(p) <==> old(list)@.contains(p),
        final(list)@.len() <= old(list)@.len(),
{
    let mut out: Vec<Vec3> = Vec::new();
    let n = list.len();
    let mut i: usize = 0;
    proof {
        assert(list@.take(0) =~= Seq::<Vec3>::empty());
    }
    while i < n
        invariant
            i <= n,
            n == list@.len(),
            list@ == old(list)@,
            out@.len() <= i,
            strictly_sorted_lex(out@),
            forall|p: Vec3| out@.contains(p) <==> list@.take(i as int).contains(p),
        decreases n - i,
    {
        let p = list[i];
        let ghost prev_out = out@;
        let mut k: usize = 0;
        while k < out.len() && lex_lt(out[k], p)
            invariant
                k <= out@.len(),
                out@ == prev_out,
                forall|j: int| 0 <= j < k ==> spec_lex_lt(#[trigger] out@[j], p),
            decreases out@.len() - k,
        {
            k += 1;
        }
        let duplicate = k < out.len() && out[k] == p;
        if !duplicate {
            out.insert(k, p);
            proof {
                assert(out@ =~= prev_out.subrange(0, k as int) + seq![p] + prev_out.subrange(
                    k as int,
                    prev_out.len() as int,
                ));
                assert forall|a: int, b: int|
                    #![trigger out@[a], out@[b]]
                    0 <= a < b < out@.len() implies spec_lex_lt(out@[a], out@[b]) by {
                    if a < k && b == k {
                        assert(out@[a] == prev_out[a]);
                        assert(out@[b] == p);
                    } else if a == k && b > k {
                        assert(out@[a] == p);
                        assert(out@[b] == prev_out[b - 1]);
                        lemma_lex_trichotomy(prev_out[k as int], p);
                        if b - 1 > k {
                            assert(spec_lex_lt(prev_out[k as int], prev_out[b - 1]));
                        }
                    } else if a < k && b > k {
                        assert(out@[a] == prev_out[a]);
                        assert(out@[b] == prev_out[b - 1]);
                    } else if a < k && b < k {
                        assert(out@[a] == prev_out[a]);
                        assert(out@[b] == prev_out[b]);
                    } else if a > k && b > k {
                        assert(out@[a] == prev_out[a - 1]);
                        assert(out@[b] == prev_out[b - 1]);
                    }
                }
            }
        }
        proof {
            assert(list@.take(i as int + 1) =~= list@.take(i as int).push(p));
            assert forall|q: Vec3| out@.contains(q) <==> list@.take(i as int + 1).contains(
                q,
            ) by {
                vstd::seq_lib::lemma_seq_contains_after_push(list@.take(i as int), p, q);
                if duplicate {
                    if q == p {
                        assert(prev_out[k as int] == p);
                        assert(prev_out.contains(p));
                    }
                } else {
                    let with = prev_out.subrange(0, k as int) + seq![p] + prev_out.subrange(
                        k as int,
                        prev_out.len() as int,
                    );
                    assert(prev_out =~= prev_out.subrange(0, k as int) + prev_out.subrange(
                        k as int,
                        prev_out.len() as int,
                    ));
                    if q == p {
                        assert(seq![p][0] == q);
                        assert(seq![p].contains(q));
                    }
                    assert(seq![p].contains(q) ==> q == p);
                    assert(out@.contains(q) <==> prev_out.contains(q) || q == p);
                }
            }
        }
        i += 1;
    }
    proof {
        assert(list@.take(n as int) =~= list@);
    }
    *list = out;
}

/// The point is some direction vector scaled to a length between zero
/// and `radius`.
pub open spec fn in_sphere_sample(p: Vec3, radius: int) -> bool {
    exists|d: Vec3, r: int|
        #![trigger spec_v3_normalize_to(d, r)]
        0 <= r <= radius && p == spec_v3_normalize_to(d, r)
}

/// `num` random points inside the sphere of the given radius: random
/// directions scaled by radii drawn between zero and `radius`, then
/// sorted and deduplicated. Draws cluster toward the center — the
/// radius, not the volume, is uniform — a deliberate decorative choice.
pub fn rand_points_in_sphere(num: usize, radius: Fx) -> (points: Vec<Vec3>)
    requires
        radius@ >= 0,
    ensures
        points@.len() <= num,
        strictly_sorted_lex(points@),
        forall|j: int|
            0 <= j < points@.len() ==> in_sphere_sample(#[trigger] points@[j], radius@),
    {
    let mut raw: Vec<Vec3> = Vec::new();
    let mut idx: usize = 0;
    let one = Fx::one();
    let lo = one.neg();
    while idx < num
        invariant
            idx <= num,
            raw@.len() == idx,
            radius@ >= 0,
            lo@ == -(FX_SCALE as int),
            one@ == FX_SCALE as int,
            forall|j: int| 0 <= j < raw@.len() ==> in_sphere_sample(#[trigger] raw@[j], radius@),
        decreases num - idx,
    {
        let dir = Vec3 {
            x: random_lohi(lo, one),
            y: random_lohi(lo, one),
            z: random_lohi(lo, one),
        };
        let r = random_max(radius);
        let point = dir.normalize_to(r);
        raw.push(point);
        proof {
            assert(point == spec_v3_normalize_to(dir, r@));
            assert(in_sphere_sample(point, radius@));
        }
        idx += 1;
    }
    let ghost pre = raw@;
    deduplicate_points_list(&mut raw);
    proof {
        assert forall|j: int| 0 <= j < raw@.len() implies in_sphere_sample(
            #[trigger] raw@[j],
            radius@,
        ) by {
            assert(raw@.contains(raw@[j]));
            assert(pre.contains(raw@[j]));
            let jj = choose|jj: int| 0 <= jj < pre.len() && pre[jj] == raw@[j];
            assert(in_sphere_sample(pre[jj], radius@));
        }
    }
    raw
}

} // verus!

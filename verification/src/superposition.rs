use vstd::prelude::*;

use crate::error::FieldError;
use crate::vector::{v_add, v_bounded, v_zero, Vec3, Vec3M};

verus! {

/// Number of evaluation points above which per-point field evaluation is
/// worth fanning out over threads; at or below it, sequential evaluation is
/// used. A tuning constant, not a correctness one: both schedules reduce the
/// same sums.
pub const PARALLEL_THRESHOLD: usize = 20;

/// The scheduling decision for a point set of the given size.
pub fn use_parallel(n_points: usize) -> (r: bool)
    ensures
        r == (n_points > PARALLEL_THRESHOLD),
{
    n_points > PARALLEL_THRESHOLD
}

/// Validates the parallel input arrays of a multi-magnet evaluation: one
/// position, orientation, radius, height and polarization per magnet.
/// Mismatched lengths are refused as [`FieldError::LengthMismatch`] before
/// any computation starts, exactly when any count differs from the first.
pub fn check_source_arrays(
    n_positions: usize,
    n_orientations: usize,
    n_radii: usize,
    n_heights: usize,
    n_pols: usize,
) -> (r: Result<(), FieldError>)
    ensures
        (match r {
            Ok(()) => n_positions == n_orientations && n_positions == n_radii && n_positions
                == n_heights && n_positions == n_pols,
            Err(e) => e == FieldError::LengthMismatch && !(n_positions == n_orientations
                && n_positions == n_radii && n_positions == n_heights && n_positions == n_pols),
        }),
{
    if n_positions == n_orientations && n_positions == n_radii && n_positions == n_heights
        && n_positions == n_pols {
        Ok(())
    } else {
        Err(FieldError::LengthMismatch)
    }
}

/// The net field at point `i`: the sum over the rows of `ff` (one row of
/// per-point contributions for each source) of the row's `i`-th entry.
pub open spec fn column_sum(ff: Seq<Seq<Vec3M>>, i: int) -> Vec3M
    decreases ff.len(),
{
    if ff.len() == 0 {
        v_zero()
    } else {
        v_add(column_sum(ff.drop_last(), i), ff.last()[i])
    }
}

/// Superposition of per-source field contributions: the result for point `i`
/// is the vector sum over sources of that source's contribution at point `i`.
///
/// Each row of `fields` holds one source's contributions at the full point
/// set; a row whose length differs from `n_points` is refused as
/// [`FieldError::LengthMismatch`] before any summation, exactly.
pub fn superpose(fields: &Vec<Vec<Vec3>>, n_points: usize) -> (r: Result<Vec<Vec3>, FieldError>)
    requires
        fields@.len() <= 1_000_000,
        forall|c: int, i: int|
            0 <= c < fields@.len() && 0 <= i < fields@[c]@.len() ==> v_bounded(
                fields@[c]@[i]@,
                500_000,
            ),
    ensures
        (match r {
            Ok(out) => out@.len() == n_points && (forall|c: int|
                0 <= c < fields@.len() ==> fields@[c]@.len() == n_points) && (forall|i: int|
                0 <= i < n_points ==> out@[i]@ == column_sum(fields.deep_view(), i)),
            Err(e) => e == FieldError::LengthMismatch && exists|c: int|
                0 <= c < fields@.len() && fields@[c]@.len() != n_points,
        }),
{
    let mut c: usize = 0;
    while c < fields.len()
        invariant
            c <= fields@.len(),
            forall|j: int| 0 <= j < c ==> fields@[j]@.len() == n_points,
        decreases fields@.len() - c,
    {
        if fields[c].len() != n_points {
            return Err(FieldError::LengthMismatch);
        }
        c = c + 1;
    }
    let ghost ff = fields.deep_view();
    proof {
        assert(ff.len() == fields@.len());
        assert forall|cc: int, i: int|
            0 <= cc < ff.len() && 0 <= i < ff[cc].len() implies #[trigger] ff[cc][i]
            == fields@[cc]@[i]@ && ff[cc].len() == fields@[cc]@.len() by {
            assert(ff[cc] == fields@[cc].deep_view());
        }
    }
    let mut out: Vec<Vec3> = Vec::new();
    let mut i: usize = 0;
    while i < n_points
        invariant
            i <= n_points,
            out@.len() == i,
            ff == fields.deep_view(),
            ff.len() == fields@.len() <= 1_000_000,
            forall|j: int| 0 <= j < ff.len() ==> ff[j].len() == n_points,
            forall|cc: int, k: int|
                0 <= cc < ff.len() && 0 <= k < ff[cc].len() ==> v_bounded(ff[cc][k], 500_000),
            forall|k: int| 0 <= k < i ==> out@[k]@ == column_sum(ff, k),
        decreases n_points - i,
    {
        let mut acc = Vec3::zeros();
        let mut cc: usize = 0;
        proof {
            assert(ff.take(0) =~= Seq::<Seq<Vec3M>>::empty());
        }
        while cc < fields.len()
            invariant
                cc <= fields@.len(),
                i < n_points,
                ff == fields.deep_view(),
                ff.len() == fields@.len() <= 1_000_000,
                forall|j: int| 0 <= j < ff.len() ==> ff[j].len() == n_points,
                forall|c2: int, k: int|
                    0 <= c2 < ff.len() && 0 <= k < ff[c2].len() ==> v_bounded(ff[c2][k], 500_000),
                acc@ == column_sum(ff.take(cc as int), i as int),
                v_bounded(acc@, cc * 500_000),
            decreases fields@.len() - cc,
        {
            proof {
                assert(ff[cc as int] == fields@[cc as int].deep_view());
                assert(ff[cc as int][i as int] == fields@[cc as int]@[i as int]@);
            }
            let contribution = &fields[cc][i];
            acc = crate::vector::vector_add(&acc, contribution);
            proof {
                let t = ff.take(cc + 1);
                assert(t.drop_last() =~= ff.take(cc as int));
                assert(t.last() == ff[cc as int]);
                assert(acc@ == column_sum(t, i as int));
            }
            cc = cc + 1;
        }
        proof {
            assert(ff.take(ff.len() as int) =~= ff);
        }
        out.push(acc);
        i = i + 1;
    }
    Ok(out)
}

/// Superposition linearity: the field of a collection of two sources at point
/// `i` is the elementwise sum of the two sources' fields at `i`, exactly.
pub proof fn lemma_superposition_pair(fa: Seq<Vec3M>, fb: Seq<Vec3M>, i: int)
    ensures
        column_sum(seq![fa, fb], i) == v_add(fa[i], fb[i]),
{
    let s = seq![fa, fb];
    assert(s.last() == fb);
    assert(s.drop_last() =~= seq![fa]);
    assert(column_sum(s, i) == v_add(column_sum(seq![fa], i), fb[i]));
    assert(seq![fa].last() == fa);
    assert(seq![fa].drop_last() =~= Seq::<Seq<Vec3M>>::empty());
    assert(column_sum(seq![fa], i) == v_add(column_sum(Seq::<Seq<Vec3M>>::empty(), i), fa[i]));
    assert(column_sum(Seq::<Seq<Vec3M>>::empty(), i) == v_zero());
    assert(v_add(v_add(v_zero(), fa[i]), fb[i]) == v_add(fa[i], fb[i]));
}

/// Parallel/serial equivalence: splitting the source list at any point and
/// adding the two partial sums gives the same net field as the serial sum,
/// exactly. A parallel schedule that reduces chunkwise therefore agrees with
/// the sequential reduction.
pub proof fn lemma_column_sum_split(ff: Seq<Seq<Vec3M>>, k: int, i: int)
    requires
        0 <= k <= ff.len(),
    ensures
        column_sum(ff, i) == v_add(column_sum(ff.take(k), i), column_sum(ff.skip(k), i)),
    decreases ff.len(),
{
    if k == ff.len() {
        assert(ff.take(k) =~= ff);
        assert(ff.skip(k) =~= Seq::<Seq<Vec3M>>::empty());
        assert(v_add(column_sum(ff, i), v_zero()) == column_sum(ff, i));
    } else {
        let head = ff.drop_last();
        lemma_column_sum_split(head, k, i);
        assert(head.take(k) =~= ff.take(k));
        assert(ff.skip(k).drop_last() =~= head.skip(k));
        assert(ff.skip(k).last() == ff.last());
        assert(column_sum(ff.skip(k), i) == v_add(column_sum(head.skip(k), i), ff.last()[i]));
    }
}

} // verus!

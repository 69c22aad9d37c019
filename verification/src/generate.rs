use crate::errors::PipelineError;
use crate::grid::{expand_codes, expansion_of};
use crate::level::Level;
use crate::progress::ProgressMsg;
use crate::row::{GridPoint, MeshcodeRow, valid_box};
use vstd::prelude::*;

verus! {

/// Expand one (root, level) pair into its cell codes through the grid
/// algorithm. Succeeds exactly when the algorithm accepts the pair — a
/// fact of the pair alone, so a re-run expands identically; a rejection is
/// fatal to the generator and carries the offending pair.
pub fn expand_pair(root: u64, level: &Level) -> (r: Result<Vec<u64>, PipelineError>)
    ensures
        r is Ok <==> expansion_of(root, level.tag_spec()) is Some,
        r matches Ok(codes) ==> Some(codes@) == expansion_of(root, level.tag_spec()),
        r matches Err(e) ==> (e matches PipelineError::Generation { root: r0, level_tag, .. }
            && r0 == root && level_tag == level.tag_spec()),
{
    match expand_codes(root, level) {
        Ok(codes) => Ok(codes),
        Err(detail) => Err(PipelineError::Generation { root, level_tag: level.tag(), detail }),
    }
}

/// The generator walks the cross product of root codes and levels in order:
/// all levels of the first root, then all levels of the second, and so on.
pub fn plan_pairs(roots: &Vec<u64>, levels: &Vec<Level>) -> (r: Vec<(u64, Level)>)
    ensures
        r@.len() == roots@.len() * levels@.len(),
        forall|i: int, j: int|
            0 <= i < roots@.len() && 0 <= j < levels@.len() ==> r@[i * levels@.len() + j] == (
            roots@[i],
            levels@[j],
            ),
{
    let mut out: Vec<(u64, Level)> = Vec::new();
    let nr = roots.len();
    let nl = levels.len();
    for i in 0..nr
        invariant
            nr == roots@.len(),
            nl == levels@.len(),
            out@.len() == i * nl,
            forall|a: int, b: int|
                0 <= a < i && 0 <= b < nl ==> out@[a * nl + b] == (roots@[a], levels@[b]),
    {
        for j in 0..nl
            invariant
                nr == roots@.len(),
                nl == levels@.len(),
                i < nr,
                out@.len() == i * nl + j,
                forall|a: int, b: int|
                    0 <= a < i && 0 <= b < nl ==> out@[a * nl + b] == (roots@[a], levels@[b]),
                forall|b: int| 0 <= b < j ==> out@[i * nl + b] == (roots@[i as int], levels@[b]),
        {
            proof {
                assert(out@.len() + 1 <= nr * nl) by (nonlinear_arith)
                    requires
                        out@.len() == i * nl + j,
                        i < nr,
                        j < nl,
                ;
            }
            out.push((roots[i], levels[j]));
            proof {
                assert forall|a: int, b: int|
                    0 <= a < i && 0 <= b < nl implies out@[a * nl + b] == (
                    roots@[a],
                    levels@[b],
                ) by {
                    assert(a * nl + b < i * nl) by (nonlinear_arith)
                        requires
                            0 <= a,
                            a < i,
                            0 <= b,
                            b < nl,
                    ;
                }
            }
        }
        proof {
            assert((i + 1) * nl == i * nl + nl) by (nonlinear_arith);
            assert forall|a: int, b: int|
                0 <= a < i + 1 && 0 <= b < nl implies out@[a * nl + b] == (
                roots@[a],
                levels@[b],
            ) by {
                if a < i {
                    assert(a * nl + b < i * nl) by (nonlinear_arith)
                        requires
                            a < i,
                            0 <= b < nl,
                            0 <= a,
                    ;
                }
            }
        }
    }
    proof {
        assert(nr * nl == out@.len());
    }
    out
}

/// Assemble the rows of one (root, level) pair from the expanded cell codes
/// and the two corner points the grid algorithm reported for each cell.
///
/// Succeeds exactly when each code has both corners and every pair of
/// corners bounds a cell; the row count then equals the code count, which is
/// the amount the pair's `Count` progress event announces. A corner pair
/// that bounds no cell is fatal to the whole generator and names the
/// offending (root, level) pair.
pub fn build_rows(
    root: u64,
    level: Level,
    codes: &Vec<u64>,
    sw: &Vec<GridPoint>,
    ne: &Vec<GridPoint>,
) -> (r: Result<Vec<MeshcodeRow>, PipelineError>)
    ensures
        r is Ok <==> (sw@.len() == codes@.len() && ne@.len() == codes@.len() && forall|i: int|
            0 <= i < codes@.len() ==> valid_box(sw@[i], ne@[i])),
        r matches Ok(rows) ==> {
            &&& rows@.len() == codes@.len()
            &&& forall|i: int|
                0 <= i < codes@.len() ==> rows@[i] == (MeshcodeRow {
                    code: codes@[i],
                    level,
                    xmin: sw@[i].lon_nanos,
                    ymin: sw@[i].lat_nanos,
                    xmax: ne@[i].lon_nanos,
                    ymax: ne@[i].lat_nanos,
                })
            &&& forall|i: int| 0 <= i < rows@.len() ==> (#[trigger] rows@[i]).wf()
        },
        r matches Err(e) ==> (e matches PipelineError::Generation { root: r0, level_tag, .. }
            && r0 == root && level_tag == level.tag_spec()),
{
    let n = codes.len();
    if sw.len() != n || ne.len() != n {
        return Err(
            PipelineError::Generation {
                root,
                level_tag: level.tag(),
                detail: String::from_str("corner point count differs from cell count"),
            },
        );
    }
    let mut rows: Vec<MeshcodeRow> = Vec::new();
    for k in 0..n
        invariant
            n == codes@.len(),
            sw@.len() == n,
            ne@.len() == n,
            rows@.len() == k,
            forall|i: int| 0 <= i < k ==> valid_box(sw@[i], ne@[i]),
            forall|i: int|
                0 <= i < k ==> rows@[i] == (MeshcodeRow {
                    code: codes@[i],
                    level,
                    xmin: sw@[i].lon_nanos,
                    ymin: sw@[i].lat_nanos,
                    xmax: ne@[i].lon_nanos,
                    ymax: ne@[i].lat_nanos,
                }),
    {
        match MeshcodeRow::new(codes[k], level, sw[k], ne[k]) {
            Some(row) => rows.push(row),
            None => {
                return Err(
                    PipelineError::Generation {
                        root,
                        level_tag: level.tag(),
                        detail: String::from_str("cell corners bound no cell"),
                    },
                );
            },
        }
    }
    proof {
        assert(forall|i: int| 0 <= i < rows@.len() ==> (#[trigger] rows@[i]).wf());
    }
    Ok(rows)
}

/// Everything the generator emits for one (root, level) pair, in emission
/// order: first the pair's `Count` announcement, whose amount is exactly
/// the number of rows that follow, then the rows themselves, one per
/// expanded code, in code order. Succeeds exactly when `build_rows` does.
pub fn pair_emission(
    root: u64,
    level: Level,
    codes: &Vec<u64>,
    sw: &Vec<GridPoint>,
    ne: &Vec<GridPoint>,
) -> (r: Result<(ProgressMsg, Vec<MeshcodeRow>), PipelineError>)
    ensures
        r is Ok <==> (sw@.len() == codes@.len() && ne@.len() == codes@.len() && forall|i: int|
            0 <= i < codes@.len() ==> valid_box(sw@[i], ne@[i])),
        r matches Ok(em) ==> {
            &&& em.0 == ProgressMsg::Count(em.1@.len() as u64)
            &&& em.1@.len() == codes@.len()
            &&& forall|i: int|
                0 <= i < codes@.len() ==> em.1@[i] == (MeshcodeRow {
                    code: codes@[i],
                    level,
                    xmin: sw@[i].lon_nanos,
                    ymin: sw@[i].lat_nanos,
                    xmax: ne@[i].lon_nanos,
                    ymax: ne@[i].lat_nanos,
                })
            &&& forall|i: int| 0 <= i < em.1@.len() ==> (#[trigger] em.1@[i]).wf()
        },
        r matches Err(e) ==> (e matches PipelineError::Generation { root: r0, level_tag, .. }
            && r0 == root && level_tag == level.tag_spec()),
{
    match build_rows(root, level, codes, sw, ne) {
        Ok(rows) => {
            let announcement = ProgressMsg::Count(rows.len() as u64);
            Ok((announcement, rows))
        },
        Err(e) => Err(e),
    }
}

} // verus!

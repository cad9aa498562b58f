//! Integer bookkeeping of an elevation store that keeps one row per raster
//! pixel: how a bulk load is split into statements, which row holds a pixel,
//! and what a missing elevation transform means.

use vstd::arithmetic::div_mod::lemma_fundamental_div_mod_converse;
use vstd::prelude::*;

verus! {

/// The most values one statement of the store may bind.
pub const MAX_BIND_PARAMETERS: usize = 65535;

/// How many statements a load of `n` rows takes with at most `ceiling` rows
/// per statement: `n / ceiling` rounded up.
pub open spec fn chunk_count(n: int, ceiling: int) -> int {
    (n + ceiling - 1) / ceiling
}

/// The rows `[start, end)` of the `i`-th statement.
pub open spec fn chunk_at(n: int, ceiling: int, i: int) -> (int, int) {
    (i * ceiling, if (i + 1) * ceiling < n {
        (i + 1) * ceiling
    } else {
        n
    })
}

/// How many rows a list of `[start, end)` ranges covers.
pub open spec fn rows_in(chunks: Seq<(usize, usize)>) -> int
    decreases chunks.len(),
{
    if chunks.len() == 0 {
        0
    } else {
        rows_in(chunks.drop_last()) + (chunks.last().1 - chunks.last().0)
    }
}

proof fn lemma_count_from_bounds(n: int, ceiling: int, k: int)
    requires
        ceiling > 0,
        k >= 0,
        n <= k * ceiling,
        k == 0 || (k - 1) * ceiling < n,
        n >= 0,
    ensures
        k == chunk_count(n, ceiling),
{
    let x = n + ceiling - 1;
    let rem = x - k * ceiling;
    if k == 0 {
        assert(n == 0) by (nonlinear_arith)
            requires
                n <= k * ceiling,
                k == 0,
                n >= 0,
        ;
    } else {
        assert((k - 1) * ceiling == k * ceiling - ceiling) by (nonlinear_arith);
    }
    lemma_fundamental_div_mod_converse(x, ceiling, k, rem);
}

/// The `[start, end)` row ranges of a load of `n` rows, one per statement:
/// consecutive, each non-empty and at most `ceiling` rows long, together
/// covering all `n` rows in `n / ceiling` (rounded up) statements.
pub fn ingestion_chunks(n: usize, ceiling: usize) -> (r: Vec<(usize, usize)>)
    requires
        ceiling > 0,
    ensures
        r.len() == chunk_count(n as int, ceiling as int),
        forall|i: int|
            0 <= i < r.len() ==> (#[trigger] r[i]).0 as int == chunk_at(
                n as int,
                ceiling as int,
                i,
            ).0 && r[i].1 as int == chunk_at(n as int, ceiling as int, i).1,
        forall|i: int| 0 <= i < r.len() ==> (#[trigger] r[i]).0 < r[i].1 <= r[i].0 + ceiling,
        rows_in(r@) == n,
{
    let mut out: Vec<(usize, usize)> = Vec::new();
    let mut start: usize = 0;
    assert(out.len() == 0);
    assert(out.len() * ceiling == 0) by (nonlinear_arith)
        requires
            out.len() == 0,
    ;
    while start < n
        invariant
            ceiling > 0,
            start <= n,
            start as int == (if out.len() * ceiling < n {
                out.len() * ceiling
            } else {
                n as int
            }),
            out.len() == 0 || (out.len() - 1) * ceiling < n,
            rows_in(out@) == start,
            forall|i: int|
                0 <= i < out.len() ==> (#[trigger] out[i]).0 as int == chunk_at(
                    n as int,
                    ceiling as int,
                    i,
                ).0 && out[i].1 as int == chunk_at(n as int, ceiling as int, i).1,
            forall|i: int| 0 <= i < out.len() ==> (#[trigger] out[i]).0 < out[i].1 <= out[i].0 + ceiling,
        decreases n - start,
    {
        let k = out.len();
        assert(start as int == k * ceiling);
        assert((k + 1) * ceiling == k * ceiling + ceiling) by (nonlinear_arith);
        let end: usize = if n - start > ceiling {
            start + ceiling
        } else {
            n
        };
        let ghost before = out@;
        out.push((start, end));
        assert(out@.drop_last() == before);
        start = end;
    }
    proof {
        lemma_count_from_bounds(n as int, ceiling as int, out.len() as int);
    }
    out
}

/// The 1-based row of pixel `(px, py)` in a raster `width` pixels wide, rows
/// stored one after another.
pub open spec fn row_id(px: int, py: int, width: int) -> int {
    py * width + px + 1
}

/// The row that holds pixel `(px, py)` of a raster `width` pixels wide, or
/// `None` when that row number does not fit in an `i32`.
pub fn elevation_row_id(px: i32, py: i32, width: i32) -> (r: Option<i32>)
    ensures
        r == (if i32::MIN <= row_id(px as int, py as int, width as int) <= i32::MAX {
            Some(row_id(px as int, py as int, width as int) as i32)
        } else {
            None
        }),
{
    let y = py as i64;
    let w = width as i64;
    assert(-0x4000_0000_0000_0000 <= y * w <= 0x4000_0000_0000_0000) by (nonlinear_arith)
        requires
            i32::MIN <= y <= i32::MAX,
            i32::MIN <= w <= i32::MAX,
    ;
    let id: i64 = y * w + px as i64 + 1;
    if id < i32::MIN as i64 || id > i32::MAX as i64 {
        None
    } else {
        Some(id as i32)
    }
}

/// How many coefficients an affine geotransform has.
pub const TRANSFORM_COEFFICIENTS: usize = 6;

/// Whether a stored transform row is complete: six coefficients, none null.
pub open spec fn is_complete_row<T>(row: Seq<Option<T>>) -> bool {
    row.len() == TRANSFORM_COEFFICIENTS && forall|i: int| 0 <= i < row.len() ==> (#[trigger] row[i]) is Some
}

/// The coefficients of a stored transform row, in order, or `None` when the
/// row does not hold exactly six of them or one of them is null.
pub fn transform_coefficients<T: Copy>(row: &Vec<Option<T>>) -> (r: Option<Vec<T>>)
    ensures
        r is Some <==> is_complete_row(row@),
        r matches Some(c) ==> c.len() == row.len() && forall|i: int|
            0 <= i < c.len() ==> row[i] == Some(#[trigger] c[i]),
{
    if row.len() != TRANSFORM_COEFFICIENTS {
        return None;
    }
    let mut out: Vec<T> = Vec::with_capacity(TRANSFORM_COEFFICIENTS);
    let mut i: usize = 0;
    while i < row.len()
        invariant
            i <= row.len(),
            out.len() == i,
            forall|j: int| 0 <= j < i ==> row[j] == Some(#[trigger] out[j]),
        decreases row.len() - i,
    {
        match row[i] {
            Some(c) => out.push(c),
            None => {
                return None;
            },
        }
        i = i + 1;
    }
    assert forall|j: int| 0 <= j < row.len() implies (#[trigger] row@[j]) is Some by {
        assert(row[j] == Some(out[j]));
    }
    Some(out)
}

/// Why a named transform could not be read from the store.
#[derive(Debug, PartialEq, Eq)]
pub enum LookupError<E> {
    /// No transform of that name is stored.
    NotFound,
    /// The store itself failed.
    Backend(E),
}

/// The elevation transform to sample with: a stored one is used, a missing
/// one means ground level (`Ok(None)`), and any other failure is passed on.
pub fn elevation_transform_or_ground<T, E>(lookup: Result<T, LookupError<E>>) -> (r: Result<
    Option<T>,
    E,
>)
    ensures
        match lookup {
            Ok(t) => r == Ok::<Option<T>, E>(Some(t)),
            Err(LookupError::NotFound) => r == Ok::<Option<T>, E>(None),
            Err(LookupError::Backend(e)) => r == Err::<Option<T>, E>(e),
        },
{
    match lookup {
        Ok(t) => Ok(Some(t)),
        Err(LookupError::NotFound) => Ok(None),
        Err(LookupError::Backend(e)) => Err(e),
    }
}

} // verus!

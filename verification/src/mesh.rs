//! Reshaping of flat point data into triangles.

use vstd::prelude::*;

use crate::errors::ClgeomError;

verus! {

/// Group a flat list of points into ordered triples, one per triangle,
/// preserving the original order. A list whose length is not a multiple of
/// three is rejected.
pub fn triangles_from_points<T: Copy>(points: &Vec<T>) -> (r: Result<Vec<(T, T, T)>, ClgeomError>)
    ensures
        points@.len() % 3 != 0 ==> r is Err && r->Err_0.message@
            == "Buffer length is not a multiple of 3."@ && r->Err_0.cause is None,
        points@.len() % 3 == 0 ==> r is Ok && r->Ok_0@.len() == points@.len() / 3 && (forall|
            j: int,
        |
            0 <= j < r->Ok_0@.len() ==> #[trigger] r->Ok_0@[j].0 == points@[3 * j]
                && r->Ok_0@[j].1 == points@[3 * j + 1] && r->Ok_0@[j].2 == points@[3 * j + 2]),
{
    let n = points.len();
    if n % 3 != 0 {
        return Err(ClgeomError::new("Buffer length is not a multiple of 3."));
    }
    let mut result: Vec<(T, T, T)> = Vec::new();
    let mut i: usize = 0;
    while i < n
        invariant
            n == points@.len(),
            i <= n,
            i % 3 == 0,
            n % 3 == 0,
            result@.len() == i / 3,
            forall|j: int|
                0 <= j < result@.len() ==> #[trigger] result@[j].0 == points@[3 * j]
                    && result@[j].1 == points@[3 * j + 1] && result@[j].2 == points@[3 * j + 2],
        decreases n - i,
    {
        let triple = (points[i], points[i + 1], points[i + 2]);
        result.push(triple);
        i = i + 3;
    }
    Ok(result)
}

} // verus!

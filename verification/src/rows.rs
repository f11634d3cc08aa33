//! All-or-nothing aggregation of decoded rows.
//!
//! A scan of the relational store yields one decodable payload per row; any
//! row whose payload cannot be decoded aborts the whole read, and the rows
//! already decoded are discarded rather than returned.

use vstd::prelude::*;

use crate::errors::RepoError;

verus! {

/// Collects per-row decode results into the full row list, or the first
/// error in row order, discarding any rows decoded before it.
pub fn collect_rows<T>(rows: Vec<Result<T, RepoError>>) -> (r: Result<Vec<T>, RepoError>)
    ensures
        match r {
            Ok(list) => {
                &&& list@.len() == rows@.len()
                &&& forall|i: int|
                    0 <= i < rows@.len() ==> (#[trigger] rows@[i]) is Ok && list@[i]
                        == rows@[i]->Ok_0
            },
            Err(e) => exists|i: int|
                {
                    &&& 0 <= i < rows@.len()
                    &&& (#[trigger] rows@[i]) is Err
                    &&& e == rows@[i]->Err_0
                    &&& forall|j: int| 0 <= j < i ==> (#[trigger] rows@[j]) is Ok
                },
        },
{
    let n = rows.len();
    let mut k: usize = 0;
    while k < n
        invariant
            k <= n,
            n == rows@.len(),
            forall|j: int| 0 <= j < k ==> (#[trigger] rows@[j]) is Ok,
        decreases n - k,
    {
        match &rows[k] {
            Ok(_) => {
                k += 1;
            },
            Err(e) => {
                return Err(*e);
            },
        }
    }
    let ghost all = rows@;
    let mut rest = rows;
    let mut out: Vec<T> = Vec::new();
    while rest.len() > 0
        invariant
            out@.len() + rest@.len() == all.len(),
            rest@ == all.subrange(out@.len() as int, all.len() as int),
            forall|i: int| 0 <= i < all.len() ==> (#[trigger] all[i]) is Ok,
            forall|i: int| 0 <= i < out@.len() ==> out@[i] == (#[trigger] all[i])->Ok_0,
        decreases rest@.len(),
    {
        let x = rest.remove(0);
        proof {
            assert(x == all[out@.len() as int]);
        }
        match x {
            Ok(v) => {
                out.push(v);
            },
            Err(e) => {
                return Err(e);
            },
        }
    }
    Ok(out)
}

} // verus!

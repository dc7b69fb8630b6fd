//! Shape rules of the tridiagonal (Thomas-algorithm) solvers.
//!
//! A tridiagonal system of `N` equations is given by its sub-diagonal and
//! super-diagonal (`N - 1` entries each), its diagonal (`N` entries) and a
//! right-hand side (`N` entries). The solvers refuse empty systems and
//! inconsistent lengths; these functions decide which.

use vstd::prelude::*;

verus! {

/// Why a set of diagonals does not describe a tridiagonal system.
#[derive(Clone, Copy, Debug, PartialEq, Eq, Structural)]
pub enum ShapeError {
    /// The diagonal is empty: there is no equation to solve.
    Empty,
    /// Some band or vector length does not match the diagonal's.
    Mismatch,
}

/// Size of the system with the given lengths, or why there is none.
pub open spec fn spec_tridiagonal_size(sub_len: nat, diag_len: nat, sup_len: nat, rhs_len: nat) -> Result<
    nat,
    ShapeError,
> {
    if diag_len == 0 {
        Err(ShapeError::Empty)
    } else if sub_len + 1 == diag_len && sup_len + 1 == diag_len && rhs_len == diag_len {
        Ok(diag_len)
    } else {
        Err(ShapeError::Mismatch)
    }
}

/// Number of equations `N` of the tridiagonal system with a sub-diagonal of
/// `sub_len`, a diagonal of `diag_len`, a super-diagonal of `sup_len` and a
/// right-hand side of `rhs_len` entries.
pub fn tridiagonal_size(sub_len: usize, diag_len: usize, sup_len: usize, rhs_len: usize) -> (r:
    Result<usize, ShapeError>)
    ensures
        match r {
            Ok(n) => spec_tridiagonal_size(
                sub_len as nat,
                diag_len as nat,
                sup_len as nat,
                rhs_len as nat,
            ) == Ok::<nat, ShapeError>(n as nat),
            Err(e) => spec_tridiagonal_size(
                sub_len as nat,
                diag_len as nat,
                sup_len as nat,
                rhs_len as nat,
            ) == Err::<nat, ShapeError>(e),
        },
        diag_len == 0 <==> r == Err::<usize, ShapeError>(ShapeError::Empty),
        diag_len >= 1 && sub_len + 1 == diag_len && sup_len + 1 == diag_len && rhs_len == diag_len
            <==> r is Ok,
        r is Ok ==> r == Ok::<usize, ShapeError>(diag_len),
{
    if diag_len == 0 {
        Err(ShapeError::Empty)
    } else if sub_len == diag_len - 1 && sup_len == diag_len - 1 && rhs_len == diag_len {
        Ok(diag_len)
    } else {
        Err(ShapeError::Mismatch)
    }
}

/// A system is accepted exactly when it is consistent: for every size
/// `N >= 1`, bands of `N - 1` entries and a right-hand side of `N` entries
/// make a system of `N` equations, any other lengths are refused, and an
/// empty diagonal is always refused as empty.
pub proof fn lemma_tridiagonal_size_accepts_consistent_systems(
    sub_len: nat,
    diag_len: nat,
    sup_len: nat,
    rhs_len: nat,
)
    ensures
        diag_len >= 1 && sub_len + 1 == diag_len && sup_len + 1 == diag_len && rhs_len == diag_len
            ==> spec_tridiagonal_size(sub_len, diag_len, sup_len, rhs_len) == Ok::<nat, ShapeError>(
            diag_len,
        ),
        !(sub_len + 1 == diag_len && sup_len + 1 == diag_len && rhs_len == diag_len)
            ==> spec_tridiagonal_size(sub_len, diag_len, sup_len, rhs_len) is Err,
        diag_len == 0 ==> spec_tridiagonal_size(sub_len, diag_len, sup_len, rhs_len) == Err::<
            nat,
            ShapeError,
        >(ShapeError::Empty),
        spec_tridiagonal_size(sub_len, diag_len, sup_len, rhs_len) matches Ok(n) ==> n == diag_len,
{
}

/// Number of equations `N` of a system whose off-diagonals are one constant
/// (so only its diagonal of `diag_len` entries is stored) and whose result
/// is written into a buffer of `out_len` entries.
pub fn constant_band_size(diag_len: usize, out_len: usize) -> (r: Result<usize, ShapeError>)
    ensures
        diag_len == 0 <==> r == Err::<usize, ShapeError>(ShapeError::Empty),
        diag_len > 0 && out_len != diag_len <==> r == Err::<usize, ShapeError>(
            ShapeError::Mismatch,
        ),
        diag_len > 0 && out_len == diag_len <==> r == Ok::<usize, ShapeError>(diag_len),
{
    if diag_len == 0 {
        Err(ShapeError::Empty)
    } else if out_len != diag_len {
        Err(ShapeError::Mismatch)
    } else {
        Ok(diag_len)
    }
}

/// Grow `buf` to at least `len` entries, filling new entries with `fill`;
/// a buffer that is already long enough is left untouched. Scratch buffers
/// sized for a small system stay usable after the grid grows.
pub fn grow_to<T: Copy>(buf: &mut Vec<T>, len: usize, fill: T)
    ensures
        old(buf)@.len() >= len ==> final(buf)@ == old(buf)@,
        old(buf)@.len() < len ==> final(buf)@.len() == len,
        final(buf)@.subrange(0, old(buf)@.len() as int) == old(buf)@,
        forall|i: int| old(buf)@.len() <= i < final(buf)@.len() ==> #[trigger] final(buf)@[i] == fill,
{
    let ghost start = buf@;
    while buf.len() < len
        invariant
            start.len() <= buf@.len(),
            start.len() < len ==> buf@.len() <= len,
            start.len() >= len ==> buf@ == start,
            buf@.subrange(0, start.len() as int) == start,
            forall|i: int| start.len() <= i < buf@.len() ==> #[trigger] buf@[i] == fill,
        decreases len - buf@.len(),
    {
        buf.push(fill);
    }
    assert(buf@.subrange(0, start.len() as int) =~= start);
}

} // verus!

//! Choice of algorithm for the retarded Green's function, and its names as
//! the front ends spell them.

use vstd::prelude::*;

verus! {

/// How the retarded Green's function `[(E + i*eta) I - H]^-1` is evaluated.
#[derive(Clone, Copy, Debug, PartialEq, Eq, Structural)]
pub enum GreenFunctionAlgorithm {
    /// O(N) per energy point: a left-connected recursive sweep for the
    /// diagonal and tridiagonal solves for the two boundary columns.
    Recursive,
    /// O(N^3) per energy point: a dense inversion of the whole matrix.
    Dense,
}

/// The name `"recursive"`.
pub open spec fn recursive_name() -> Seq<char> {
    seq!['r', 'e', 'c', 'u', 'r', 's', 'i', 'v', 'e']
}

/// The name `"dense"`.
pub open spec fn dense_name() -> Seq<char> {
    seq!['d', 'e', 'n', 's', 'e']
}

/// Algorithm that a name denotes, if any.
pub open spec fn spec_parse_algorithm(name: Seq<char>) -> Option<GreenFunctionAlgorithm> {
    if name == recursive_name() {
        Some(GreenFunctionAlgorithm::Recursive)
    } else if name == dense_name() {
        Some(GreenFunctionAlgorithm::Dense)
    } else {
        None
    }
}

/// The two names, and only they, denote an algorithm: the text
/// `"recursive"` denotes the recursive sweep, the text `"dense"` the dense
/// inversion, and every other text (other capitalisation, extra spaces,
/// other words) denotes none.
pub proof fn lemma_algorithm_names(name: Seq<char>)
    ensures
        spec_parse_algorithm(name) == Some(GreenFunctionAlgorithm::Recursive) <==> name
            == "recursive"@,
        spec_parse_algorithm(name) == Some(GreenFunctionAlgorithm::Dense) <==> name == "dense"@,
        spec_parse_algorithm(name) is None <==> name != "recursive"@ && name != "dense"@,
{
    reveal_strlit("recursive");
    reveal_strlit("dense");
    assert("recursive"@ =~= recursive_name());
    assert("dense"@ =~= dense_name());
}

/// Whether two strings hold the same characters.
fn same_text(a: &str, b: &str) -> (r: bool)
    ensures
        r == (a@ == b@),
{
    let n = a.unicode_len();
    let m = b.unicode_len();
    if n != m {
        return false;
    }
    let mut i: usize = 0;
    while i < n
        invariant
            n == a@.len(),
            m == b@.len(),
            n == m,
            i <= n,
            forall|j: int| 0 <= j < i ==> a@[j] == b@[j],
        decreases n - i,
    {
        if a.get_char(i) != b.get_char(i) {
            return false;
        }
        i = i + 1;
    }
    assert(a@ =~= b@);
    true
}

/// Algorithm named `name`: `"recursive"` or `"dense"`, spelled exactly so;
/// `None` for any other name.
pub fn parse_algorithm(name: &str) -> (r: Option<GreenFunctionAlgorithm>)
    ensures
        r == spec_parse_algorithm(name@),
        r == Some(GreenFunctionAlgorithm::Recursive) <==> name@ == "recursive"@,
        r == Some(GreenFunctionAlgorithm::Dense) <==> name@ == "dense"@,
        r is None <==> name@ != "recursive"@ && name@ != "dense"@,
{
    proof {
        lemma_algorithm_names(name@);
    }
    if same_text(name, "recursive") {
        Some(GreenFunctionAlgorithm::Recursive)
    } else if same_text(name, "dense") {
        Some(GreenFunctionAlgorithm::Dense)
    } else {
        None
    }
}

} // verus!

//! Small coordinate helpers shared by the move engine and the skill
//! resolution code.

use vstd::prelude::*;

verus! {

/// An element is in a concatenation exactly when it is in one of the
/// parts.
pub(crate) proof fn lemma_concat_contains<A>(a: Seq<A>, b: Seq<A>, x: A)
    ensures
        (a + b).contains(x) <==> a.contains(x) || b.contains(x),
{
    if a.contains(x) {
        let i = choose|i: int| 0 <= i < a.len() && a[i] == x;
        assert((a + b)[i] == x);
    }
    if b.contains(x) {
        let i = choose|i: int| 0 <= i < b.len() && b[i] == x;
        assert((a + b)[a.len() + i] == x);
    }
    if (a + b).contains(x) {
        let i = choose|i: int| 0 <= i < (a + b).len() && (a + b)[i] == x;
        if i < a.len() {
            assert(a[i] == x);
        } else {
            assert(b[i - a.len()] == x);
        }
    }
}

/// A one-element sequence holds exactly its element.
pub(crate) proof fn lemma_singleton_contains<A>(x: A, y: A)
    ensures
        seq![x].contains(y) <==> x == y,
{
    if x == y {
        assert(seq![x][0] == y);
    }
    if seq![x].contains(y) {
        let i = choose|i: int| 0 <= i < seq![x].len() && seq![x][i] == y;
        assert(seq![x][i] == y);
    }
}

/// Whether the coordinate `(x, y)` lies inside a square field of side
/// `field_size`.
pub fn is_not_out_of_bound(x: i8, y: i8, field_size: i8) -> (r: bool)
    ensures
        r == (0 <= x && x < field_size && 0 <= y && y < field_size),
{
    x >= 0 && x < field_size && y >= 0 && y < field_size
}

} // verus!

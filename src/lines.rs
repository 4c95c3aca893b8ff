use vstd::prelude::*;

use crate::mark::Mark;

verus! {

/// The `k`-th of the eight winning lines of a 3x3 grid, as three row-major
/// slot indices: the rows top to bottom, the columns left to right, then the
/// diagonal from the top-left and the one from the top-right.
pub open spec fn win_line(k: int) -> (int, int, int) {
    if k == 0 {
        (0, 1, 2)
    } else if k == 1 {
        (3, 4, 5)
    } else if k == 2 {
        (6, 7, 8)
    } else if k == 3 {
        (0, 3, 6)
    } else if k == 4 {
        (1, 4, 7)
    } else if k == 5 {
        (2, 5, 8)
    } else if k == 6 {
        (0, 4, 8)
    } else {
        (2, 4, 6)
    }
}

/// Slots `a`, `b` and `c` of `s` hold one and the same mark.
pub open spec fn completes(s: Seq<Option<Mark>>, a: int, b: int, c: int) -> bool {
    s[a] is Some && s[a] == s[b] && s[b] == s[c]
}

/// The mark of the first completed line among lines `k` to 7, in the fixed
/// order of `win_line`.
pub open spec fn first_winner_from(s: Seq<Option<Mark>>, k: int) -> Option<Mark>
    decreases 8 - k,
{
    if k >= 8 {
        None
    } else {
        let (a, b, c) = win_line(k);
        if completes(s, a, b, c) {
            s[a]
        } else {
            first_winner_from(s, k + 1)
        }
    }
}

/// The winner of a 3x3 grid of slots: the mark of its first completed line.
pub open spec fn line_winner(s: Seq<Option<Mark>>) -> Option<Mark> {
    first_winner_from(s, 0)
}

/// The slot indices of the `k`-th winning line.
fn line_slots(k: usize) -> (r: (usize, usize, usize))
    requires
        k < 8,
    ensures
        (r.0 as int, r.1 as int, r.2 as int) == win_line(k as int),
{
    match k {
        0 => (0, 1, 2),
        1 => (3, 4, 5),
        2 => (6, 7, 8),
        3 => (0, 3, 6),
        4 => (1, 4, 7),
        5 => (2, 5, 8),
        6 => (0, 4, 8),
        _ => (2, 4, 6),
    }
}

/// Scans the eight lines in order and returns the mark of the first one
/// whose three slots hold the same mark.
pub fn scan_lines(slots: &[Option<Mark>; 9]) -> (r: Option<Mark>)
    ensures
        r == line_winner(slots@),
{
    let mut k: usize = 0;
    while k < 8
        invariant
            k <= 8,
            first_winner_from(slots@, 0) == first_winner_from(slots@, k as int),
        decreases 8 - k,
    {
        let (a, b, c) = line_slots(k);
        let first = slots[a];
        if first.is_some() && first == slots[b] && slots[b] == slots[c] {
            return first;
        }
        k = k + 1;
    }
    None
}

/// The grid with every mark given to the other player.
pub open spec fn swap_marks(s: Seq<Option<Mark>>) -> Seq<Option<Mark>> {
    s.map_values(|o: Option<Mark>| swap_slot(o))
}

/// A slot with its mark, if any, given to the other player.
pub open spec fn swap_slot(o: Option<Mark>) -> Option<Mark> {
    match o {
        Some(m) => Some(m.spec_opponent()),
        None => None,
    }
}

/// Slot `i` lies on the `k`-th winning line.
pub open spec fn on_line(k: int, i: int) -> bool {
    let (x, y, z) = win_line(k);
    i == x || i == y || i == z
}

/// Slots `a`, `b` and `c` together make up one of the eight winning lines.
pub open spec fn is_line(a: int, b: int, c: int) -> bool {
    exists|k: int| 0 <= k < 8 && #[trigger] on_line(k, a) && on_line(k, b) && on_line(k, c)
}

/// A grid where slots `a`, `b` and `c` hold `m` and every other slot is empty.
pub open spec fn three_marks(a: int, b: int, c: int, m: Mark) -> Seq<Option<Mark>> {
    Seq::new(9, |i: int| if i == a || i == b || i == c { Some(m) } else { None })
}

proof fn lemma_swap_from(s: Seq<Option<Mark>>, k: int)
    requires
        s.len() == 9,
        0 <= k <= 8,
    ensures
        first_winner_from(swap_marks(s), k) == swap_slot(first_winner_from(s, k)),
    decreases 8 - k,
{
    if k < 8 {
        let (a, b, c) = win_line(k);
        let t = swap_marks(s);
        assert(t[a] == swap_slot(s[a]) && t[b] == swap_slot(s[b]) && t[c] == swap_slot(s[c]));
        assert(completes(t, a, b, c) == completes(s, a, b, c));
        lemma_swap_from(s, k + 1);
    }
}

/// Giving every mark of a grid to the other player gives its win, if any,
/// to the other player too.
pub proof fn lemma_swap_winner(s: Seq<Option<Mark>>)
    requires
        s.len() == 9,
    ensures
        line_winner(swap_marks(s)) == swap_slot(line_winner(s)),
{
    lemma_swap_from(s, 0);
}

proof fn lemma_three_from(a: int, b: int, c: int, m: Mark, k: int)
    requires
        0 <= a < 9,
        0 <= b < 9,
        0 <= c < 9,
        a != b && b != c && a != c,
        0 <= k <= 8,
    ensures
        first_winner_from(three_marks(a, b, c, m), k) == if exists|j: int|
            k <= j < 8 && #[trigger] on_line(j, a) && on_line(j, b) && on_line(j, c) {
            Some(m)
        } else {
            None
        },
    decreases 8 - k,
{
    let s = three_marks(a, b, c, m);
    if k < 8 {
        let (x, y, z) = win_line(k);
        assert(completes(s, x, y, z) <==> (on_line(k, a) && on_line(k, b) && on_line(k, c)));
        lemma_three_from(a, b, c, m, k + 1);
        if on_line(k, a) && on_line(k, b) && on_line(k, c) {
            assert(s[x] == Some(m));
        } else {
            assert forall|j: int|
                k <= j < 8 && #[trigger] on_line(j, a) && on_line(j, b) && on_line(j, c) implies k
                + 1 <= j by {}
        }
    }
}

/// With the same mark on three distinct slots and nothing else, a grid is won
/// by that mark exactly when the three slots form a winning line, and is
/// otherwise not won at all.
pub proof fn lemma_three_marks_winner(a: int, b: int, c: int, m: Mark)
    requires
        0 <= a < 9,
        0 <= b < 9,
        0 <= c < 9,
        a != b && b != c && a != c,
    ensures
        line_winner(three_marks(a, b, c, m)) == if is_line(a, b, c) {
            Some(m)
        } else {
            None
        },
{
    lemma_three_from(a, b, c, m, 0);
}

proof fn lemma_no_marks_from(s: Seq<Option<Mark>>, k: int)
    requires
        s.len() == 9,
        forall|i: int| 0 <= i < 9 ==> s[i] is None,
        0 <= k <= 8,
    ensures
        first_winner_from(s, k) is None,
    decreases 8 - k,
{
    if k < 8 {
        lemma_no_marks_from(s, k + 1);
    }
}

/// A grid without marks has no winner.
pub(crate) proof fn lemma_no_marks(s: Seq<Option<Mark>>)
    requires
        s.len() == 9,
        forall|i: int| 0 <= i < 9 ==> s[i] is None,
    ensures
        line_winner(s) is None,
{
    lemma_no_marks_from(s, 0);
}

/// The `k`-th winning line of `s` is completed with mark `m`.
pub open spec fn line_won_by(s: Seq<Option<Mark>>, k: int, m: Mark) -> bool {
    let (a, b, c) = win_line(k);
    completes(s, a, b, c) && s[a] == Some(m)
}

/// Some winning line of `s` is completed with mark `m`.
pub open spec fn has_line(s: Seq<Option<Mark>>, m: Mark) -> bool {
    exists|k: int| 0 <= k < 8 && #[trigger] line_won_by(s, k, m)
}

proof fn lemma_winner_has_line_from(s: Seq<Option<Mark>>, k: int)
    requires
        0 <= k <= 8,
    ensures
        first_winner_from(s, k) matches Some(m) ==> exists|j: int|
            k <= j < 8 && #[trigger] line_won_by(s, j, m),
        (exists|j: int, m: Mark| k <= j < 8 && #[trigger] line_won_by(s, j, m)) ==> first_winner_from(
            s,
            k,
        ) is Some,
    decreases 8 - k,
{
    if k < 8 {
        lemma_winner_has_line_from(s, k + 1);
        let (a, b, c) = win_line(k);
        if completes(s, a, b, c) {
            assert(line_won_by(s, k, s[a].unwrap()));
        } else {
            assert forall|j: int, m: Mark| k <= j < 8 && #[trigger] line_won_by(s, j, m) implies k
                + 1 <= j by {}
        }
    }
}

/// A grid has a winner exactly when some line of it is completed, and its
/// winner's mark completes a line.
pub proof fn lemma_winner_has_line(s: Seq<Option<Mark>>)
    ensures
        line_winner(s) matches Some(m) ==> has_line(s, m),
        (exists|m: Mark| has_line(s, m)) ==> line_winner(s) is Some,
{
    lemma_winner_has_line_from(s, 0);
    if exists|m: Mark| has_line(s, m) {
        let m = choose|m: Mark| has_line(s, m);
        let k = choose|k: int| 0 <= k < 8 && #[trigger] line_won_by(s, k, m);
        assert(line_won_by(s, k, m));
    }
}

} // verus!

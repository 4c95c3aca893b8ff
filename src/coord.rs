use vstd::prelude::*;

verus! {

/// One of the nine slots of a 3x3 grid, in row-major order. It addresses a
/// cell within a sub-board and a sub-board within the whole board alike.
#[derive(Clone, Copy, Debug, Hash, PartialEq, Eq, Structural)]
pub enum Coord {
    TopLeft,
    Top,
    TopRight,
    Left,
    Middle,
    Right,
    BottomLeft,
    Bottom,
    BottomRight,
}

/// The slot with row-major index `i`, if `i` is below 9.
pub open spec fn spec_from_index(i: int) -> Option<Coord> {
    if i == 0 {
        Some(Coord::TopLeft)
    } else if i == 1 {
        Some(Coord::Top)
    } else if i == 2 {
        Some(Coord::TopRight)
    } else if i == 3 {
        Some(Coord::Left)
    } else if i == 4 {
        Some(Coord::Middle)
    } else if i == 5 {
        Some(Coord::Right)
    } else if i == 6 {
        Some(Coord::BottomLeft)
    } else if i == 7 {
        Some(Coord::Bottom)
    } else if i == 8 {
        Some(Coord::BottomRight)
    } else {
        None
    }
}

/// The slot that a short input token names, if any: a compass abbreviation
/// for the eight outer slots, `m` for the centre.
pub open spec fn spec_from_token(s: Seq<char>) -> Option<Coord> {
    if s.len() == 1 {
        if s[0] == 't' {
            Some(Coord::Top)
        } else if s[0] == 'l' {
            Some(Coord::Left)
        } else if s[0] == 'm' {
            Some(Coord::Middle)
        } else if s[0] == 'r' {
            Some(Coord::Right)
        } else if s[0] == 'b' {
            Some(Coord::Bottom)
        } else {
            None
        }
    } else if s.len() == 2 && (s[0] == 't' || s[0] == 'b') && (s[1] == 'l' || s[1] == 'r') {
        if s[0] == 't' && s[1] == 'l' {
            Some(Coord::TopLeft)
        } else if s[0] == 't' {
            Some(Coord::TopRight)
        } else if s[1] == 'l' {
            Some(Coord::BottomLeft)
        } else {
            Some(Coord::BottomRight)
        }
    } else {
        None
    }
}

impl Coord {
    /// Row-major index of the slot: top-left is 0, bottom-right is 8.
    pub open spec fn spec_index(self) -> int {
        match self {
            Coord::TopLeft => 0,
            Coord::Top => 1,
            Coord::TopRight => 2,
            Coord::Left => 3,
            Coord::Middle => 4,
            Coord::Right => 5,
            Coord::BottomLeft => 6,
            Coord::Bottom => 7,
            Coord::BottomRight => 8,
        }
    }

    /// The input token that names the slot.
    pub open spec fn spec_token(self) -> Seq<char> {
        match self {
            Coord::TopLeft => seq!['t', 'l'],
            Coord::Top => seq!['t'],
            Coord::TopRight => seq!['t', 'r'],
            Coord::Left => seq!['l'],
            Coord::Middle => seq!['m'],
            Coord::Right => seq!['r'],
            Coord::BottomLeft => seq!['b', 'l'],
            Coord::Bottom => seq!['b'],
            Coord::BottomRight => seq!['b', 'r'],
        }
    }

    /// The human-readable name of the slot.
    pub open spec fn spec_name(self) -> Seq<char> {
        match self {
            Coord::TopLeft => "top-left"@,
            Coord::Top => "top"@,
            Coord::TopRight => "top-right"@,
            Coord::Left => "left"@,
            Coord::Middle => "middle"@,
            Coord::Right => "right"@,
            Coord::BottomLeft => "bottom-left"@,
            Coord::Bottom => "bottom"@,
            Coord::BottomRight => "bottom-right"@,
        }
    }

    /// Row-major index of the slot.
    pub fn index(self) -> (r: usize)
        ensures
            r == self.spec_index(),
            r < 9,
    {
        match self {
            Coord::TopLeft => 0,
            Coord::Top => 1,
            Coord::TopRight => 2,
            Coord::Left => 3,
            Coord::Middle => 4,
            Coord::Right => 5,
            Coord::BottomLeft => 6,
            Coord::Bottom => 7,
            Coord::BottomRight => 8,
        }
    }

    /// The slot with row-major index `index`, or `None` from 9 on.
    pub fn from_index(index: usize) -> (r: Option<Coord>)
        ensures
            r == spec_from_index(index as int),
            r is Some <==> index < 9,
            r matches Some(c) ==> c.spec_index() == index,
    {
        match index {
            0 => Some(Coord::TopLeft),
            1 => Some(Coord::Top),
            2 => Some(Coord::TopRight),
            3 => Some(Coord::Left),
            4 => Some(Coord::Middle),
            5 => Some(Coord::Right),
            6 => Some(Coord::BottomLeft),
            7 => Some(Coord::Bottom),
            8 => Some(Coord::BottomRight),
            _ => None,
        }
    }

    /// The human-readable name of the slot.
    pub fn to_str(self) -> (r: &'static str)
        ensures
            r@ == self.spec_name(),
    {
        match self {
            Coord::TopLeft => "top-left",
            Coord::Top => "top",
            Coord::TopRight => "top-right",
            Coord::Left => "left",
            Coord::Middle => "middle",
            Coord::Right => "right",
            Coord::BottomLeft => "bottom-left",
            Coord::Bottom => "bottom",
            Coord::BottomRight => "bottom-right",
        }
    }

    /// Reads a slot from its input token; `None` for any other text.
    pub fn from_token(input: &str) -> (r: Option<Coord>)
        ensures
            r == spec_from_token(input@),
    {
        let n = input.unicode_len();
        if n == 1 {
            let c = input.get_char(0);
            assert(input@ =~= seq![c]);
            match c {
                't' => Some(Coord::Top),
                'l' => Some(Coord::Left),
                'm' => Some(Coord::Middle),
                'r' => Some(Coord::Right),
                'b' => Some(Coord::Bottom),
                _ => None,
            }
        } else if n == 2 {
            let c0 = input.get_char(0);
            let c1 = input.get_char(1);
            assert(input@ =~= seq![c0, c1]);
            if c0 == 't' && c1 == 'l' {
                Some(Coord::TopLeft)
            } else if c0 == 't' && c1 == 'r' {
                Some(Coord::TopRight)
            } else if c0 == 'b' && c1 == 'l' {
                Some(Coord::BottomLeft)
            } else if c0 == 'b' && c1 == 'r' {
                Some(Coord::BottomRight)
            } else {
                None
            }
        } else {
            None
        }
    }
}

impl std::str::FromStr for Coord {
    type Err = ();

    /// Reads a slot from its input token; `Err(())` for any other text.
    fn from_str(input: &str) -> (r: Result<Coord, ()>)
        ensures
            r == (match spec_from_token(input@) {
                Some(c) => Ok(c),
                None => Err(()),
            }),
    {
        match Coord::from_token(input) {
            Some(c) => Ok(c),
            None => Err(()),
        }
    }
}

/// Slots and the indices 0 to 8 are in one-to-one correspondence.
pub proof fn lemma_index_bijection()
    ensures
        forall|c: Coord| 0 <= #[trigger] c.spec_index() < 9,
        forall|c: Coord| #[trigger] spec_from_index(c.spec_index()) == Some(c),
        forall|i: int|
            0 <= i < 9 ==> ((#[trigger] spec_from_index(i)) matches Some(c) && c.spec_index() == i),
{
}

/// Every slot is read back from its own token, and no two slots share one.
pub proof fn lemma_token_round_trip()
    ensures
        forall|c: Coord| #[trigger] spec_from_token(c.spec_token()) == Some(c),
        forall|a: Coord, b: Coord| #[trigger] a.spec_token() == #[trigger] b.spec_token() ==> a == b,
{
    assert forall|c: Coord| #[trigger] spec_from_token(c.spec_token()) == Some(c) by {
        let t = c.spec_token();
        assert(t.len() >= 1 && t[0] == c.spec_token()[0]);
    }
    assert forall|a: Coord, b: Coord| #[trigger] a.spec_token() == #[trigger] b.spec_token() implies a == b by {
        assert(spec_from_token(a.spec_token()) == Some(a));
        assert(spec_from_token(b.spec_token()) == Some(b));
    }
}

} // verus!

//! Classified gesture directives and the keys that name them.
use vstd::prelude::*;
use vstd::string::StringExecFns;

verus! {

/// What a completed gesture did.
#[derive(Clone, Copy, Debug, PartialEq, Eq, Structural)]
pub enum Direction {
    FromTop,
    FromBottom,
    FromLeft,
    FromRight,
    Left,
    Right,
    Up,
    Down,
    Pinch,
    Spread,
}

/// The character of a decimal digit.
pub open spec fn digit_char(d: nat) -> char {
    if d == 0 {
        '0'
    } else if d == 1 {
        '1'
    } else if d == 2 {
        '2'
    } else if d == 3 {
        '3'
    } else if d == 4 {
        '4'
    } else if d == 5 {
        '5'
    } else if d == 6 {
        '6'
    } else if d == 7 {
        '7'
    } else if d == 8 {
        '8'
    } else {
        '9'
    }
}

/// Decimal notation of a natural number, without leading zeros.
pub open spec fn decimal(n: nat) -> Seq<char>
    decreases n,
{
    if n < 10 {
        seq![digit_char(n)]
    } else {
        decimal(n / 10).push(digit_char(n % 10))
    }
}

impl Direction {
    /// The text that follows the finger count in a gesture key.
    pub open spec fn suffix(self) -> Seq<char> {
        match self {
            Direction::FromTop => "_from_top"@,
            Direction::FromBottom => "_from_bottom"@,
            Direction::FromLeft => "_from_left"@,
            Direction::FromRight => "_from_right"@,
            Direction::Left => "_left"@,
            Direction::Right => "_right"@,
            Direction::Up => "_up"@,
            Direction::Down => "_down"@,
            Direction::Pinch => "_pinch"@,
            Direction::Spread => "_spread"@,
        }
    }

    /// The gesture key `"{n}_{directive}"`.
    pub open spec fn key(self, n: nat) -> Seq<char> {
        decimal(n) + self.suffix()
    }

    /// The gesture key of this directive performed with `n` fingers.
    pub fn to_key(&self, n: usize) -> (r: String)
        ensures
            r@ == self.key(n as nat),
    {
        let mut s = String::new();
        append_decimal(&mut s, n);
        let suffix = match self {
            Direction::FromTop => "_from_top",
            Direction::FromBottom => "_from_bottom",
            Direction::FromLeft => "_from_left",
            Direction::FromRight => "_from_right",
            Direction::Left => "_left",
            Direction::Right => "_right",
            Direction::Up => "_up",
            Direction::Down => "_down",
            Direction::Pinch => "_pinch",
            Direction::Spread => "_spread",
        };
        s.append(suffix);
        s
    }
}

/// The one-character text of a decimal digit.
fn digit_str(d: usize) -> (r: &'static str)
    requires
        d < 10,
    ensures
        r@ == seq![digit_char(d as nat)],
{
    proof {
        reveal_strlit("0");
        reveal_strlit("1");
        reveal_strlit("2");
        reveal_strlit("3");
        reveal_strlit("4");
        reveal_strlit("5");
        reveal_strlit("6");
        reveal_strlit("7");
        reveal_strlit("8");
        reveal_strlit("9");
    }
    match d {
        0 => "0",
        1 => "1",
        2 => "2",
        3 => "3",
        4 => "4",
        5 => "5",
        6 => "6",
        7 => "7",
        8 => "8",
        _ => "9",
    }
}

/// Appends the decimal notation of `n`.
fn append_decimal(s: &mut String, n: usize)
    ensures
        final(s)@ == old(s)@ + decimal(n as nat),
    decreases n,
{
    if n >= 10 {
        append_decimal(s, n / 10);
    }
    s.append(digit_str(n % 10));
    proof {
        if n >= 10 {
            assert(s@ =~= old(s)@ + decimal(n as nat));
        }
    }
}

} // verus!

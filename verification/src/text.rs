//! What the game tells the player in words.

use vstd::prelude::*;
use vstd::string::*;
use crate::fixed::FINE;
use crate::state::WinCondition;

verus! {

/// The character of a decimal digit.
pub open spec fn digit(d: nat) -> char {
    if d == 0 {
        '0'
    } else if d == 1 {
        '1'
    } else if d == 2 {
        '2'
    } else if d == 3 {
        '3'
    } else if d == 4 {
        '4'
    } else if d == 5 {
        '5'
    } else if d == 6 {
        '6'
    } else if d == 7 {
        '7'
    } else if d == 8 {
        '8'
    } else {
        '9'
    }
}

/// The decimal digits of a natural number, without leading zeros.
pub open spec fn digits(n: nat) -> Seq<char>
    decreases n,
{
    if n < 10 {
        seq![digit(n)]
    } else {
        digits(n / 10).push(digit(n % 10))
    }
}

/// A whole number in decimal, with a minus sign if it is negative.
pub open spec fn decimal(n: int) -> Seq<char> {
    if n < 0 {
        seq!['-'] + digits((-n) as nat)
    } else {
        digits(n as nat)
    }
}

/// The whole number nearest to a velocity, which counts in the unit `FINE`;
/// a velocity halfway between two whole numbers goes to the even one.
pub open spec fn nearest_whole(v: int) -> int {
    let floor = v / (FINE as int);
    let rest = v % (FINE as int);
    if rest > 500_000_000_000 || (rest == 500_000_000_000 && floor % 2 != 0) {
        floor + 1
    } else {
        floor
    }
}

/// What the player is told to do to win.
pub open spec fn description_of(condition: WinCondition) -> Seq<char> {
    match condition {
        WinCondition::Circle { max_speed, .. } => "Reach the green circle at under "@ + decimal(
            nearest_whole(max_speed as int),
        ) + " px/s with engine off"@,
        WinCondition::CircleAnySpeed { .. } => "Reach the green circle with engine off"@,
    }
}

/// Rounds a velocity to the nearest whole number, ties to even.
pub fn round_to_whole(v: i64) -> (n: i64)
    ensures
        n == nearest_whole(v as int),
{
    if v >= 0 {
        let floor: i64 = v / FINE;
        let rest: i64 = v % FINE;
        if rest > 500_000_000_000 || (rest == 500_000_000_000 && floor % 2 != 0) {
            floor + 1
        } else {
            floor
        }
    } else {
        let m: i128 = -(v as i128);
        let q: i128 = m / 1_000_000_000_000;
        let r: i128 = m % 1_000_000_000_000;
        let floor: i128 = if r == 0 {
            -q
        } else {
            -q - 1
        };
        let rest: i128 = if r == 0 {
            0
        } else {
            1_000_000_000_000 - r
        };
        assert(floor == (v as int) / 1_000_000_000_000 && rest == (v as int)
            % 1_000_000_000_000);
        if rest > 500_000_000_000 || (rest == 500_000_000_000 && q % 2 == 0) {
            (floor + 1) as i64
        } else {
            floor as i64
        }
    }
}

/// The text of one decimal digit.
fn digit_text(d: u64) -> (text: &'static str)
    requires
        d < 10,
    ensures
        text@ == seq![digit(d as nat)],
{
    proof {
        reveal_strlit("0");
        reveal_strlit("1");
        reveal_strlit("2");
        reveal_strlit("3");
        reveal_strlit("4");
        reveal_strlit("5");
        reveal_strlit("6");
        reveal_strlit("7");
        reveal_strlit("8");
        reveal_strlit("9");
    }
    let text: &'static str = if d == 0 {
        "0"
    } else if d == 1 {
        "1"
    } else if d == 2 {
        "2"
    } else if d == 3 {
        "3"
    } else if d == 4 {
        "4"
    } else if d == 5 {
        "5"
    } else if d == 6 {
        "6"
    } else if d == 7 {
        "7"
    } else if d == 8 {
        "8"
    } else {
        "9"
    };
    assert(text@ =~= seq![digit(d as nat)]);
    text
}

/// Appends the decimal digits of `n` to `text`.
fn push_digits(text: &mut String, n: u64)
    ensures
        final(text)@ == old(text)@ + digits(n as nat),
    decreases n,
{
    if n >= 10 {
        push_digits(text, n / 10);
    }
    text.append(digit_text(n % 10));
    assert(text@ =~= old(text)@ + digits(n as nat));
}

/// Writes a whole number in decimal.
pub fn decimal_text(n: i64) -> (text: String)
    ensures
        text@ == decimal(n as int),
{
    let mut text: String = String::new();
    if n < 0 {
        proof {
            reveal_strlit("-");
        }
        text.append("-");
        let m: u64 = (-(n as i128)) as u64;
        push_digits(&mut text, m);
        assert(text@ =~= decimal(n as int));
    } else {
        push_digits(&mut text, n as u64);
        assert(text@ =~= decimal(n as int));
    }
    text
}

impl WinCondition {
    /// Tells the player what to do to win; a speed limit is given as a whole
    /// number.
    pub fn description(&self) -> (text: String)
        ensures
            text@ == description_of(*self),
    {
        match *self {
            WinCondition::Circle { max_speed, .. } => {
                let mut text: String = String::from_str("Reach the green circle at under ");
                let limit: String = decimal_text(round_to_whole(max_speed));
                text.append(limit.as_str());
                text.append(" px/s with engine off");
                text
            },
            WinCondition::CircleAnySpeed { .. } => {
                String::from_str("Reach the green circle with engine off")
            },
        }
    }
}

} // verus!

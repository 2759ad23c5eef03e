//! Operator-facing text: decimal rendering of counters and the
//! day/hour/minute/second rendering of a reload's elapsed time.

use vstd::prelude::*;
use vstd::string::StringExecFns;

verus! {

pub const MINUTE: u64 = 60;

pub const HOUR: u64 = 60 * 60;

pub const DAY: u64 = 24 * 60 * 60;

/// The decimal digit `d` (`d < 10`) as a character.
pub open spec fn digit_char(d: nat) -> char {
    if d == 0 {
        '0'
    } else if d == 1 {
        '1'
    } else if d == 2 {
        '2'
    } else if d == 3 {
        '3'
    } else if d == 4 {
        '4'
    } else if d == 5 {
        '5'
    } else if d == 6 {
        '6'
    } else if d == 7 {
        '7'
    } else if d == 8 {
        '8'
    } else {
        '9'
    }
}

/// The usual decimal rendering of `n`, most significant digit first,
/// without leading zeros (and `0` itself rendered as "0").
pub open spec fn decimal(n: nat) -> Seq<char>
    decreases n,
{
    if n < 10 {
        seq![digit_char(n)]
    } else {
        decimal(n / 10).push(digit_char(n % 10))
    }
}

/// How a duration of `d` seconds is shown to the operator: the nonzero
/// day, hour and minute counts, then the second count, each with its
/// unit letter, separated by single spaces.
pub open spec fn duration_text(d: u64) -> Seq<char> {
    let days = d / DAY;
    let hours = d % DAY / HOUR;
    let minutes = d % DAY % HOUR / MINUTE;
    let seconds = d % DAY % HOUR % MINUTE;
    (if days > 0 {
        decimal(days as nat) + " d "@
    } else {
        Seq::<char>::empty()
    }) + (if hours > 0 {
        decimal(hours as nat) + " h "@
    } else {
        Seq::<char>::empty()
    }) + (if minutes > 0 {
        decimal(minutes as nat) + " m "@
    } else {
        Seq::<char>::empty()
    }) + decimal(seconds as nat) + " s"@
}

fn digit_str(d: u64) -> (s: &'static str)
    requires
        d < 10,
    ensures
        s@ == seq![digit_char(d as nat)],
{
    if d == 0 {
        proof {
            reveal_strlit("0");
            assert("0"@ =~= seq![digit_char(0)]);
        }
        "0"
    } else if d == 1 {
        proof {
            reveal_strlit("1");
            assert("1"@ =~= seq![digit_char(1)]);
        }
        "1"
    } else if d == 2 {
        proof {
            reveal_strlit("2");
            assert("2"@ =~= seq![digit_char(2)]);
        }
        "2"
    } else if d == 3 {
        proof {
            reveal_strlit("3");
            assert("3"@ =~= seq![digit_char(3)]);
        }
        "3"
    } else if d == 4 {
        proof {
            reveal_strlit("4");
            assert("4"@ =~= seq![digit_char(4)]);
        }
        "4"
    } else if d == 5 {
        proof {
            reveal_strlit("5");
            assert("5"@ =~= seq![digit_char(5)]);
        }
        "5"
    } else if d == 6 {
        proof {
            reveal_strlit("6");
            assert("6"@ =~= seq![digit_char(6)]);
        }
        "6"
    } else if d == 7 {
        proof {
            reveal_strlit("7");
            assert("7"@ =~= seq![digit_char(7)]);
        }
        "7"
    } else if d == 8 {
        proof {
            reveal_strlit("8");
            assert("8"@ =~= seq![digit_char(8)]);
        }
        "8"
    } else {
        proof {
            reveal_strlit("9");
            assert("9"@ =~= seq![digit_char(9)]);
        }
        "9"
    }
}

/// Renders `n` in decimal.
pub fn decimal_string(n: u64) -> (s: String)
    ensures
        s@ == decimal(n as nat),
    decreases n,
{
    if n < 10 {
        String::from_str(digit_str(n))
    } else {
        let mut s = decimal_string(n / 10);
        s.append(digit_str(n % 10));
        proof {
            assert(s@ =~= decimal(n as nat));
        }
        s
    }
}

/// Renders a duration of `duration` seconds the way the reload report
/// prints it, for instance "1 d 2 h 3 m 4 s", omitting the day, hour and
/// minute parts when they are zero but always keeping the seconds.
pub fn display_seconds(duration: u64) -> (s: String)
    ensures
        s@ == duration_text(duration),
{
    let days: u64 = duration / DAY;
    let hours: u64 = duration % DAY / HOUR;
    let minutes: u64 = duration % DAY % HOUR / MINUTE;
    let seconds: u64 = duration % DAY % HOUR % MINUTE;

    let mut s = String::new();
    if days > 0 {
        let t = decimal_string(days);
        s.append(t.as_str());
        s.append(" d ");
    }
    if hours > 0 {
        let t = decimal_string(hours);
        s.append(t.as_str());
        s.append(" h ");
    }
    if minutes > 0 {
        let t = decimal_string(minutes);
        s.append(t.as_str());
        s.append(" m ");
    }
    let t = decimal_string(seconds);
    s.append(t.as_str());
    s.append(" s");
    proof {
        assert(s@ =~= duration_text(duration));
    }
    s
}

} // verus!

//! Transcript segments.

use vstd::prelude::*;

verus! {

/// A segment with its speaker's display name joined in.
#[derive(Debug, Clone, PartialEq, Eq)]
pub struct SegmentWithSpeaker {
    pub id: i64,
    pub session_id: i64,
    pub speaker_id: Option<i64>,
    pub start_ms: i64,
    pub end_ms: i64,
    pub transcript_text: String,
    pub display_name: Option<String>,
    pub status: String,
}

/// Status of a segment: `confirmed` once a speaker is assigned, `pending`
/// while it has none.
pub open spec fn spec_segment_status(speaker_id: Option<i64>) -> Seq<char> {
    if speaker_id is Some {
        "confirmed"@
    } else {
        "pending"@
    }
}

/// The status stored and reported for a segment with `speaker_id`.
pub fn segment_status(speaker_id: Option<i64>) -> (status: &'static str)
    ensures
        status@ == spec_segment_status(speaker_id),
{
    match speaker_id {
        Some(_) => "confirmed",
        None => "pending",
    }
}

/// The decimal digit `d` as a character.
pub open spec fn digit_char(d: int) -> char {
    (48 + d) as char
}

/// Decimal representation of `n`, without leading zeros.
pub open spec fn spec_decimal(n: nat) -> Seq<char>
    decreases n,
{
    if n < 10 {
        seq![digit_char(n as int)]
    } else {
        spec_decimal(n / 10).push(digit_char((n % 10) as int))
    }
}

/// The numbered SQL parameters `?1, ?2, ..., ?n`.
pub open spec fn spec_param_list(n: nat) -> Seq<char>
    decreases n,
{
    if n == 0 {
        Seq::empty()
    } else if n == 1 {
        seq!['?'] + spec_decimal(1)
    } else {
        spec_param_list((n - 1) as nat) + seq![',', ' ', '?'] + spec_decimal(n)
    }
}

fn digit_str(d: usize) -> (s: &'static str)
    requires
        d < 10,
    ensures
        s@ == seq![digit_char(d as int)],
{
    match d {
        0 => {
            proof {
                reveal_strlit("0");
            }
            "0"
        },
        1 => {
            proof {
                reveal_strlit("1");
            }
            "1"
        },
        2 => {
            proof {
                reveal_strlit("2");
            }
            "2"
        },
        3 => {
            proof {
                reveal_strlit("3");
            }
            "3"
        },
        4 => {
            proof {
                reveal_strlit("4");
            }
            "4"
        },
        5 => {
            proof {
                reveal_strlit("5");
            }
            "5"
        },
        6 => {
            proof {
                reveal_strlit("6");
            }
            "6"
        },
        7 => {
            proof {
                reveal_strlit("7");
            }
            "7"
        },
        8 => {
            proof {
                reveal_strlit("8");
            }
            "8"
        },
        _ => {
            proof {
                reveal_strlit("9");
            }
            "9"
        },
    }
}

/// Append the decimal representation of `n` to `s`.
fn append_decimal(s: &mut String, n: usize)
    ensures
        final(s)@ == old(s)@ + spec_decimal(n as nat),
    decreases n,
{
    if n >= 10 {
        append_decimal(s, n / 10);
    }
    s.append(digit_str(n % 10));
    assert(old(s)@ + spec_decimal(n as nat) =~= s@);
}

/// The parameter list of an `IN (...)` clause over `count` values:
/// `?1, ?2, ..., ?count` (empty for no value).
pub fn sql_param_list(count: usize) -> (list: String)
    ensures
        list@ == spec_param_list(count as nat),
{
    let mut list = String::new();
    let mut i: usize = 0;
    while i < count
        invariant
            i <= count,
            list@ == spec_param_list(i as nat),
        decreases count - i,
    {
        i = i + 1;
        if i == 1 {
            proof {
                reveal_strlit("?");
            }
            list.append("?");
        } else {
            proof {
                reveal_strlit(", ?");
            }
            list.append(", ?");
        }
        append_decimal(&mut list, i);
        assert(list@ =~= spec_param_list(i as nat));
    }
    list
}

} // verus!

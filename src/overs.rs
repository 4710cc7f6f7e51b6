//! Overs bowled, written `<overs>` or `<overs>,<balls>` by the upstream
//! source and `<overs>` or `<overs>.<balls>` on screen.

use vstd::prelude::*;

use crate::decimal::{
    all_digits, decimal, decimal_string, is_digit, lemma_decimal_digits, lemma_parse_decimal,
    parse_u32, parse_u32_spec,
};
use crate::error::{is_parse_error, Error};

verus! {

/// Whole overs and the balls bowled of the over in progress.
///
/// The balls are not checked against the six of an over: the upstream
/// notation is taken as it comes.
#[derive(Debug, Clone, Copy, PartialEq, Eq, Structural)]
pub struct Overs {
    pub full_overs: u32,
    pub spare_balls: u32,
}

/// Whether `k` is the position of the first comma of `s`.
pub open spec fn is_first_comma(s: Seq<char>, k: int) -> bool {
    &&& 0 <= k < s.len()
    &&& s[k] == ','
    &&& forall|j: int| 0 <= j < k ==> s[j] != ','
}

/// The text before and after the first comma of `s`, if it has one.
pub open spec fn split_at_comma(s: Seq<char>) -> Option<(Seq<char>, Seq<char>)> {
    if exists|k: int| is_first_comma(s, k) {
        let k = choose|k: int| is_first_comma(s, k);
        Some((s.subrange(0, k), s.subrange(k + 1, s.len() as int)))
    } else {
        None
    }
}

/// The overs that `s` writes: `<overs>` alone, or `<overs>,<balls>` split at
/// the first comma, each part a `u32` in decimal.
pub open spec fn parse_overs(s: Seq<char>) -> Option<Overs> {
    match split_at_comma(s) {
        None => match parse_u32_spec(s) {
            Some(o) => Some(Overs { full_overs: o, spare_balls: 0 }),
            None => None,
        },
        Some((o, b)) => match (parse_u32_spec(o), parse_u32_spec(b)) {
            (Some(o), Some(b)) => Some(Overs { full_overs: o, spare_balls: b }),
            _ => None,
        },
    }
}

/// The overs that `s` writes, or none bowled where `s` is malformed.
pub open spec fn parse_overs_or_zero(s: Seq<char>) -> Overs {
    match parse_overs(s) {
        Some(o) => o,
        None => Overs { full_overs: 0, spare_balls: 0 },
    }
}

/// The screen notation: the whole overs alone when no ball of the next over
/// has been bowled, else `<overs>.<balls>`.
pub open spec fn overs_text(o: Overs) -> Seq<char> {
    if o.spare_balls == 0 {
        decimal(o.full_overs as nat)
    } else {
        decimal(o.full_overs as nat) + seq!['.'] + decimal(o.spare_balls as nat)
    }
}

/// The text of the message that a malformed overs field carries.
pub open spec fn overs_field_name() -> Seq<char> {
    "overs"@
}

/// In `<overs>,<balls>` with both parts in decimal, the comma that separates
/// them is the first one.
proof fn lemma_split_decimals(o: nat, b: Seq<char>)
    ensures
        split_at_comma(decimal(o) + seq![','] + b) == Some((decimal(o), b)),
{
    let head = decimal(o);
    let s = head + seq![','] + b;
    let k = head.len() as int;
    lemma_decimal_digits(o);
    assert(is_first_comma(s, k)) by {
        assert forall|j: int| 0 <= j < k implies s[j] != ',' by {
            assert(is_digit(head[j]));
        }
    }
    let c = choose|c: int| is_first_comma(s, c);
    assert(c == k) by {
        if c < k {
            assert(is_digit(head[c]));
        }
    }
    assert(s.subrange(0, k) =~= head);
    assert(s.subrange(k + 1, s.len() as int) =~= b);
}

/// Reading `<overs>,<balls>` with some ball bowled of the next over, and
/// writing the result on screen, gives the same numbers back with a dot for
/// the comma.
pub proof fn lemma_overs_round_trip(full_overs: u32, spare_balls: u32)
    requires
        spare_balls > 0,
    ensures
        parse_overs(decimal(full_overs as nat) + seq![','] + decimal(spare_balls as nat)) == Some(
            Overs { full_overs, spare_balls },
        ),
        overs_text(Overs { full_overs, spare_balls }) == decimal(full_overs as nat) + seq!['.']
            + decimal(spare_balls as nat),
{
    lemma_split_decimals(full_overs as nat, decimal(spare_balls as nat));
    lemma_parse_decimal(full_overs);
    lemma_parse_decimal(spare_balls);
}

/// `<overs>,0` and `<overs>` read as the same overs, and both are written on
/// screen as `<overs>`.
pub proof fn lemma_overs_without_balls(full_overs: u32)
    ensures
        parse_overs(decimal(full_overs as nat) + seq![','] + decimal(0)) == Some(
            Overs { full_overs, spare_balls: 0 },
        ),
        parse_overs(decimal(full_overs as nat)) == Some(Overs { full_overs, spare_balls: 0 }),
        overs_text(Overs { full_overs, spare_balls: 0 }) == decimal(full_overs as nat),
{
    let s = decimal(full_overs as nat);
    lemma_split_decimals(full_overs as nat, decimal(0));
    lemma_parse_decimal(full_overs);
    lemma_parse_decimal(0);
    lemma_decimal_digits(full_overs as nat);
    assert(!exists|k: int| is_first_comma(s, k)) by {
        assert forall|k: int| !is_first_comma(s, k) by {
            if 0 <= k < s.len() {
                assert(is_digit(s[k]));
            }
        }
    }
}

/// A malformed overs field reads as no overs bowled, and raises no error.
pub proof fn lemma_malformed_overs_fall_back(s: Seq<char>)
    requires
        parse_overs(s) is None,
    ensures
        parse_overs_or_zero(s) == (Overs { full_overs: 0, spare_balls: 0 }),
{
}

fn first_comma(s: &str) -> (r: Option<usize>)
    ensures
        match r {
            Some(k) => is_first_comma(s@, k as int),
            None => forall|j: int| 0 <= j < s@.len() ==> s@[j] != ',',
        },
{
    let len = s.unicode_len();
    let mut i: usize = 0;
    while i < len
        invariant
            i <= len,
            len == s@.len(),
            forall|j: int| 0 <= j < i ==> s@[j] != ',',
        decreases len - i,
    {
        if s.get_char(i) == ',' {
            return Some(i);
        }
        i = i + 1;
    }
    None
}

impl Overs {
    /// The screen notation of these overs.
    pub fn display(&self) -> (r: String)
        ensures
            r@ == overs_text(*self),
    {
        if self.spare_balls == 0 {
            return decimal_string(self.full_overs as u64);
        }
        let mut text = decimal_string(self.full_overs as u64);
        text.append(".");
        text.append(decimal_string(self.spare_balls as u64).as_str());
        proof {
            reveal_strlit(".");
        }
        text
    }

    /// Reads the upstream notation, falling back to no overs bowled when `s`
    /// is malformed.
    pub fn from_str_with_default(s: &str) -> (r: Self)
        ensures
            r == parse_overs_or_zero(s@),
    {
        match Self::from_str(s) {
            Ok(overs) => overs,
            Err(_) => Self::default(),
        }
    }

    /// Reads the upstream notation `<overs>` or `<overs>,<balls>`.
    pub fn from_str(s: &str) -> (r: Result<Self, Error>)
        ensures
            match r {
                Ok(o) => parse_overs(s@) == Some(o),
                Err(e) => parse_overs(s@) is None && is_parse_error(e, overs_field_name()),
            },
    {
        match first_comma(s) {
            None => {
                assert(!exists|k: int| is_first_comma(s@, k));
                match parse_u32(s) {
                    Some(o) => Ok(Self { full_overs: o, spare_balls: 0 }),
                    None => Err(Error::ParseError(String::from_str("overs"))),
                }
            },
            Some(k) => {
                let len = s.unicode_len();
                proof {
                    let c = choose|c: int| is_first_comma(s@, c);
                    assert(c == k as int) by {
                        if c < k {
                            assert(s@[c] != ',');
                        } else if k < c {
                            assert(s@[k as int] != ',');
                        }
                    }
                }
                let overs = parse_u32(s.substring_char(0, k));
                let balls = parse_u32(s.substring_char(k + 1, len));
                match (overs, balls) {
                    (Some(o), Some(b)) => Ok(Self { full_overs: o, spare_balls: b }),
                    _ => Err(Error::ParseError(String::from_str("overs"))),
                }
            },
        }
    }
}

impl Default for Overs {
    fn default() -> (r: Self)
        ensures
            r == (Overs { full_overs: 0, spare_balls: 0 }),
    {
        Self { full_overs: 0, spare_balls: 0 }
    }
}

impl std::str::FromStr for Overs {
    type Err = Error;

    fn from_str(s: &str) -> Result<Self, Self::Err> {
        Overs::from_str(s)
    }
}

} // verus!

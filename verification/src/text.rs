//! Small string utilities shared by the other modules.

use vstd::prelude::*;
use vstd::string::*;

verus! {

/// `prefix` followed by anything.
pub open spec fn starts_with(input: Seq<char>, prefix: Seq<char>) -> bool {
    prefix.len() <= input.len() && input.subrange(0, prefix.len() as int) == prefix
}

/// What is left of `input` once its first `n` characters are gone.
pub open spec fn after(input: Seq<char>, n: nat) -> Seq<char> {
    input.subrange(n as int, input.len() as int)
}

/// Strips `prefix` from the front of `input`; `None` when `input` does not
/// begin with it.
pub fn remove_prefix_if_starts_with(input: &str, prefix: &str) -> (rest: Option<String>)
    ensures
        starts_with(input@, prefix@) ==> rest is Some && rest->0@ == after(input@, prefix@.len()),
        !starts_with(input@, prefix@) ==> rest is None,
{
    let n: usize = input.unicode_len();
    let p: usize = prefix.unicode_len();
    if p > n {
        return None;
    }
    let mut i: usize = 0;
    while i < p
        invariant
            p <= n,
            n == input@.len(),
            p == prefix@.len(),
            i <= p,
            forall|k: int| 0 <= k < i ==> input@[k] == prefix@[k],
        decreases p - i,
    {
        if input.get_char(i) != prefix.get_char(i) {
            return None;
        }
        i += 1;
    }
    assert(input@.subrange(0, p as int) =~= prefix@);
    Some(input.substring_char(p, n).to_owned())
}

/// The character that stands for the digit `d`.
pub open spec fn digit(d: int) -> char {
    if d == 0 {
        '0'
    } else if d == 1 {
        '1'
    } else if d == 2 {
        '2'
    } else if d == 3 {
        '3'
    } else if d == 4 {
        '4'
    } else if d == 5 {
        '5'
    } else if d == 6 {
        '6'
    } else if d == 7 {
        '7'
    } else if d == 8 {
        '8'
    } else {
        '9'
    }
}

/// `n` written in base ten, without leading zeros.
pub open spec fn decimal(n: nat) -> Seq<char>
    decreases n,
{
    if n < 10 {
        seq![digit(n as int)]
    } else {
        decimal(n / 10).push(digit((n % 10) as int))
    }
}

fn digit_str(d: u64) -> (text: &'static str)
    requires
        d < 10,
    ensures
        text@ == seq![digit(d as int)],
{
    proof {
        reveal_strlit("0");
        reveal_strlit("1");
        reveal_strlit("2");
        reveal_strlit("3");
        reveal_strlit("4");
        reveal_strlit("5");
        reveal_strlit("6");
        reveal_strlit("7");
        reveal_strlit("8");
        reveal_strlit("9");
    }
    let text = if d == 0 {
        "0"
    } else if d == 1 {
        "1"
    } else if d == 2 {
        "2"
    } else if d == 3 {
        "3"
    } else if d == 4 {
        "4"
    } else if d == 5 {
        "5"
    } else if d == 6 {
        "6"
    } else if d == 7 {
        "7"
    } else if d == 8 {
        "8"
    } else {
        "9"
    };
    text
}

/// Writes `n` in base ten.
pub fn decimal_text(n: u64) -> (text: String)
    ensures
        text@ == decimal(n as nat),
    decreases n,
{
    if n < 10 {
        String::from_str(digit_str(n))
    } else {
        let head = decimal_text(n / 10);
        let last = digit_str(n % 10);
        head.concat(last)
    }
}

/// The parts in order, with `separator` between each two neighbours.
pub open spec fn joined(parts: Seq<Seq<char>>, separator: Seq<char>) -> Seq<char>
    decreases parts.len(),
{
    if parts.len() == 0 {
        Seq::empty()
    } else if parts.len() == 1 {
        parts[0]
    } else {
        joined(parts.drop_last(), separator) + separator + parts.last()
    }
}

} // verus!

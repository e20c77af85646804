//! The checkpoint codec: a cursor is persisted as the decimal text of an
//! unsigned 64-bit integer. This module parses and formats that text and
//! decides what a checkpoint read yields when the file is missing, corrupt,
//! or a reset was requested.
use vstd::arithmetic::div_mod::lemma_fundamental_div_mod;
use vstd::prelude::*;
use vstd::string::*;

verus! {

/// A decimal digit character.
pub open spec fn is_dec_digit(c: char) -> bool {
    '0' <= c && c <= '9'
}

/// The numeric value of a decimal digit character.
pub open spec fn digit_value(c: char) -> nat {
    (c as nat - 48) as nat
}

/// Every character of the sequence is a decimal digit.
pub open spec fn all_dec_digits(s: Seq<char>) -> bool {
    forall|i: int| 0 <= i < s.len() ==> is_dec_digit(s[i])
}

/// The value of a digit string read most-significant first.
pub open spec fn dec_value(s: Seq<char>) -> nat
    decreases s.len(),
{
    if s.len() == 0 {
        0
    } else {
        dec_value(s.drop_last()) * 10 + digit_value(s.last())
    }
}

/// What parsing checkpoint text yields: the value of a nonempty, all-digit
/// string whose value fits in 64 bits, and nothing else.
pub open spec fn spec_parse_u64(s: Seq<char>) -> Option<u64> {
    if s.len() > 0 && all_dec_digits(s) && dec_value(s) <= u64::MAX {
        Some(dec_value(s) as u64)
    } else {
        None
    }
}

/// The digit character for a value below ten.
pub open spec fn digit_char(d: nat) -> char {
    if d == 0 {
        '0'
    } else if d == 1 {
        '1'
    } else if d == 2 {
        '2'
    } else if d == 3 {
        '3'
    } else if d == 4 {
        '4'
    } else if d == 5 {
        '5'
    } else if d == 6 {
        '6'
    } else if d == 7 {
        '7'
    } else if d == 8 {
        '8'
    } else {
        '9'
    }
}

/// The canonical decimal digit string of a number: no leading zeros except
/// for the single digit "0" itself.
pub open spec fn dec_digits(n: nat) -> Seq<char>
    decreases n,
{
    if n < 10 {
        seq![digit_char(n)]
    } else {
        dec_digits(n / 10).push(digit_char(n % 10))
    }
}

/// A value of a longer digit string is at least the value of any prefix.
proof fn lemma_dec_value_prefix_le(s: Seq<char>, j: int)
    requires
        0 <= j <= s.len(),
    ensures
        dec_value(s.subrange(0, j)) <= dec_value(s),
    decreases s.len() - j,
{
    if j == s.len() {
        assert(s.subrange(0, j) =~= s);
    } else {
        assert(s.subrange(0, j + 1).drop_last() =~= s.subrange(0, j));
        assert(s.subrange(0, j + 1).last() == s[j]);
        lemma_dec_value_prefix_le(s, j + 1);
    }
}

/// Parses decimal text into a cursor. Succeeds exactly on nonempty all-digit
/// strings whose value fits in 64 bits.
pub fn parse_u64(s: &str) -> (r: Option<u64>)
    ensures
        r == spec_parse_u64(s@),
{
    let n = s.unicode_len();
    if n == 0 {
        return None;
    }
    let mut acc: u64 = 0;
    let mut i: usize = 0;
    while i < n
        invariant
            0 <= i <= n,
            n == s@.len(),
            all_dec_digits(s@.subrange(0, i as int)),
            acc == dec_value(s@.subrange(0, i as int)),
        decreases n - i,
    {
        let c = s.get_char(i);
        if !(c >= '0' && c <= '9') {
            assert(!is_dec_digit(s@[i as int]));
            return None;
        }
        let d: u64 = (c as u32 - 48) as u64;
        proof {
            assert(s@.subrange(0, i + 1).drop_last() =~= s@.subrange(0, i as int));
            assert(s@.subrange(0, i + 1).last() == s@[i as int]);
        }
        if acc > u64::MAX / 10 || (acc == u64::MAX / 10 && d > u64::MAX % 10) {
            proof {
                assert(dec_value(s@.subrange(0, i + 1)) > u64::MAX);
                lemma_dec_value_prefix_le(s@, i + 1);
            }
            return None;
        }
        acc = acc * 10 + d;
        i += 1;
    }
    proof {
        assert(s@.subrange(0, n as int) =~= s@);
    }
    Some(acc)
}

/// The one-character string for a digit value.
fn digit_str(d: u64) -> (r: &'static str)
    requires
        d < 10,
    ensures
        r@ =~= seq![digit_char(d as nat)],
{
    proof {
        reveal_strlit("0");
        reveal_strlit("1");
        reveal_strlit("2");
        reveal_strlit("3");
        reveal_strlit("4");
        reveal_strlit("5");
        reveal_strlit("6");
        reveal_strlit("7");
        reveal_strlit("8");
        reveal_strlit("9");
    }
    if d == 0 {
        "0"
    } else if d == 1 {
        "1"
    } else if d == 2 {
        "2"
    } else if d == 3 {
        "3"
    } else if d == 4 {
        "4"
    } else if d == 5 {
        "5"
    } else if d == 6 {
        "6"
    } else if d == 7 {
        "7"
    } else if d == 8 {
        "8"
    } else {
        "9"
    }
}

/// Formats a cursor as its canonical decimal text.
pub fn format_u64(v: u64) -> (r: String)
    ensures
        r@ == dec_digits(v as nat),
    decreases v,
{
    if v < 10 {
        String::from_str(digit_str(v))
    } else {
        proof {
            lemma_fundamental_div_mod(v as int, 10);
        }
        let mut s = format_u64(v / 10);
        s.append(digit_str(v % 10));
        proof {
            assert(dec_digits(v as nat) =~= dec_digits((v as nat) / 10).push(
                digit_char((v as nat) % 10),
            ));
            assert(s@ =~= dec_digits(v as nat));
        }
        s
    }
}

/// The canonical digit string of a number is nonempty, all digits, and
/// parses back to that number.
pub proof fn lemma_dec_digits_value(n: nat)
    ensures
        dec_digits(n).len() > 0,
        all_dec_digits(dec_digits(n)),
        dec_value(dec_digits(n)) == n,
    decreases n,
{
    if n < 10 {
        assert(dec_value(dec_digits(n)) == dec_value(seq![digit_char(n)].drop_last()) * 10
            + digit_value(digit_char(n)));
        assert(seq![digit_char(n)].drop_last() =~= Seq::<char>::empty());
    } else {
        lemma_dec_digits_value(n / 10);
        lemma_fundamental_div_mod(n as int, 10);
        assert(dec_digits(n).drop_last() =~= dec_digits(n / 10));
        assert(dec_digits(n).last() == digit_char(n % 10));
    }
}

/// Law: a cursor written as decimal text reads back as the same cursor.
pub proof fn lemma_checkpoint_round_trip(v: u64)
    ensures
        spec_parse_u64(dec_digits(v as nat)) == Some(v),
{
    lemma_dec_digits_value(v as nat);
}

/// What a checkpoint read decided: the cursor to use and whether the file
/// must first be rewritten with the sentinel.
pub struct CheckpointRead {
    pub cursor: u64,
    pub rewrite: bool,
}

/// Decides the outcome of reading the checkpoint file. `contents` is the
/// file's text, or `None` where the file does not exist. A requested reset or
/// a missing file yields the sentinel and asks for the file to be rewritten
/// with it; unparsable text yields the sentinel without a rewrite; valid text
/// yields its value. A read never fails the caller.
pub fn resolve_checkpoint(reset_marker: bool, contents: &Option<String>) -> (r: CheckpointRead)
    ensures
        r.rewrite <==> (reset_marker || contents.is_none()),
        reset_marker || contents.is_none() ==> r.cursor == u64::MAX,
        match contents {
            Some(text) => !reset_marker ==> r.cursor == (match spec_parse_u64(text@) {
                Some(v) => v,
                None => u64::MAX,
            }),
            None => r.cursor == u64::MAX,
        },
{
    match contents {
        Some(text) => {
            if reset_marker {
                CheckpointRead { cursor: u64::MAX, rewrite: true }
            } else {
                match parse_u64(text.as_str()) {
                    Some(v) => CheckpointRead { cursor: v, rewrite: false },
                    None => CheckpointRead { cursor: u64::MAX, rewrite: false },
                }
            }
        },
        None => CheckpointRead { cursor: u64::MAX, rewrite: true },
    }
}

} // verus!

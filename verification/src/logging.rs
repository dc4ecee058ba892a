use vstd::prelude::*;
use crate::env::Env;

verus! {

/// The character of a decimal digit.
pub open spec fn digit_char(d: nat) -> char
    recommends
        d < 10,
{
    seq!['0', '1', '2', '3', '4', '5', '6', '7', '8', '9'][d as int]
}

/// The decimal digits of `n`, most significant first, with no leading zeros.
pub open spec fn decimal(n: nat) -> Seq<char>
    decreases n,
{
    if n < 10 {
        seq![digit_char(n)]
    } else {
        decimal(n / 10).push(digit_char(n % 10))
    }
}

/// The value of a decimal digit character.
pub open spec fn digit_value(c: char) -> int {
    c as int - '0' as int
}

/// Whether a character is one of the digits '0' to '9'.
pub open spec fn is_digit(c: char) -> bool {
    '0' as int <= c as int <= '9' as int
}

/// The number that a sequence of decimal digits stands for, most significant
/// digit first.
pub open spec fn digits_value(s: Seq<char>) -> int
    decreases s.len(),
{
    if s.len() == 0 {
        0
    } else {
        digits_value(s.drop_last()) * 10 + digit_value(s.last())
    }
}

/// The number that a decimal text stands for, with a leading '-' for a
/// negative number.
pub open spec fn text_value(s: Seq<char>) -> int {
    if s.len() > 0 && s[0] == '-' {
        -digits_value(s.drop_first())
    } else {
        digits_value(s)
    }
}

proof fn lemma_digit_char(d: nat)
    requires
        d < 10,
    ensures
        digit_value(digit_char(d)) == d,
        is_digit(digit_char(d)),
        d > 0 ==> digit_char(d) != '0',
{
    assert(d == 0 || d == 1 || d == 2 || d == 3 || d == 4 || d == 5 || d == 6 || d == 7 || d == 8 || d == 9);
}

/// The decimal text of a number reads back to that number: it is made of
/// digits only, it is never empty, it has no leading zero (unless the number
/// is zero itself, written "0"), and its digits, read in base ten, give `n`.
pub proof fn law_decimal_reads_back(n: nat)
    ensures
        digits_value(decimal(n)) == n,
        decimal(n).len() > 0,
        forall|i: int| 0 <= i < decimal(n).len() ==> is_digit(#[trigger] decimal(n)[i]),
        n > 0 ==> decimal(n)[0] != '0',
        n == 0 ==> decimal(n) == seq!['0'],
    decreases n,
{
    if n < 10 {
        lemma_digit_char(n);
        let d = decimal(n);
        assert(d.drop_last() =~= Seq::<char>::empty());
        assert(digits_value(d) == digits_value(d.drop_last()) * 10 + digit_value(d.last()));
        assert(digits_value(Seq::<char>::empty()) == 0);
    } else {
        law_decimal_reads_back(n / 10);
        lemma_digit_char(n % 10);
        let d = decimal(n);
        assert(d.drop_last() =~= decimal(n / 10));
        assert(forall|i: int| 0 <= i < d.len() - 1 ==> d[i] == decimal(n / 10)[i]);
        assert(d.last() == digit_char(n % 10));
        assert(digits_value(d) == digits_value(d.drop_last()) * 10 + digit_value(d.last()));
        assert(digits_value(d) == (n / 10) * 10 + (n % 10));
    }
}

/// The text of an integer reads back to that integer, sign included.
pub proof fn law_int_text_reads_back(i: int)
    ensures
        text_value(int_text(i)) == i,
{
    if i < 0 {
        law_decimal_reads_back((-i) as nat);
        assert((seq!['-'] + decimal((-i) as nat)).drop_first() =~= decimal((-i) as nat));
    } else {
        law_decimal_reads_back(i as nat);
        assert(decimal(i as nat)[0] != '-') by {
            assert(is_digit(decimal(i as nat)[0]));
        }
    }
}

/// An integer written in decimal, with a leading '-' when it is negative.
pub open spec fn int_text(i: int) -> Seq<char> {
    if i < 0 {
        seq!['-'] + decimal((-i) as nat)
    } else {
        decimal(i as nat)
    }
}

/// A log line: the context, rank and size in brackets, then the message, as
/// `[ctx rank/size] msg`.
pub open spec fn log_text(ctx: Seq<char>, rank: i32, size: i32, msg: Seq<char>) -> Seq<char> {
    seq!['['] + ctx + seq![' '] + int_text(rank as int) + seq!['/'] + int_text(size as int) + seq![']', ' ']
        + msg
}

fn digit_str(d: u32) -> (s: &'static str)
    requires
        d < 10,
    ensures
        s@ == seq![digit_char(d as nat)],
{
    proof {
        reveal_strlit("0");
        reveal_strlit("1");
        reveal_strlit("2");
        reveal_strlit("3");
        reveal_strlit("4");
        reveal_strlit("5");
        reveal_strlit("6");
        reveal_strlit("7");
        reveal_strlit("8");
        reveal_strlit("9");
    }
    match d {
        0 => "0",
        1 => "1",
        2 => "2",
        3 => "3",
        4 => "4",
        5 => "5",
        6 => "6",
        7 => "7",
        8 => "8",
        _ => "9",
    }
}

fn push_decimal(s: &mut String, n: u32)
    ensures
        final(s)@ == old(s)@ + decimal(n as nat),
    decreases n,
{
    if n >= 10 {
        push_decimal(s, n / 10);
    }
    s.append(digit_str(n % 10));
    assert(n >= 10 ==> decimal(n as nat) == decimal((n / 10) as nat).push(digit_char((n % 10) as nat)));
}

/// Writes an integer in decimal, as `Display` does.
pub fn int_to_string(i: i32) -> (s: String)
    ensures
        s@ == int_text(i as int),
{
    let mut s = String::new();
    if i < 0 {
        proof {
            reveal_strlit("-");
        }
        s.append("-");
        let m: i64 = 0i64 - (i as i64);
        push_decimal(&mut s, m as u32);
    } else {
        push_decimal(&mut s, i as u32);
    }
    s
}

/// The line that logging `msg` prints for a process of the given rank and
/// size, in the given context ("no" for the library, "py" for the model).
pub fn format_log(ctx: &str, rank: i32, size: i32, msg: &str) -> (line: String)
    ensures
        line@ == log_text(ctx@, rank, size, msg@),
{
    proof {
        reveal_strlit("[");
        reveal_strlit(" ");
        reveal_strlit("/");
        reveal_strlit("] ");
    }
    let mut line = String::new();
    line.append("[");
    line.append(ctx);
    line.append(" ");
    let r = int_to_string(rank);
    line.append(r.as_str());
    line.append("/");
    let z = int_to_string(size);
    line.append(z.as_str());
    line.append("] ");
    line.append(msg);
    line
}

/// The line that the library logs for `msg`, in the "no" context of this
/// process.
pub fn log_line(env: &Env, msg: &str) -> (line: String)
    ensures
        line@ == log_text("no"@, env.rank, env.size, msg@),
{
    format_log("no", env.rank, env.size, msg)
}

/// The line that the model logs for `msg`, in the "py" context of this
/// process.
pub fn py_log_line(env: &Env, msg: &str) -> (line: String)
    ensures
        line@ == log_text("py"@, env.rank, env.size, msg@),
{
    format_log("py", env.rank, env.size, msg)
}

} // verus!

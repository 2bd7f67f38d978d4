//! The file names tried for an exported drawing. The first name carries the date alone; when
//! it is taken, the names that follow carry the number of the attempt as well, so that no
//! file is ever written over.

use vstd::prelude::*;
use vstd::string::StringExecFns;

verus! {

/// Attempts beyond this one are worth a warning: so many taken names are unusual.
pub const EXPORT_WARN_AFTER: usize = 100;

/// The character of a decimal digit.
pub open spec fn digit_char(digit: nat) -> char
    recommends
        digit < 10,
{
    if digit == 0 {
        '0'
    } else if digit == 1 {
        '1'
    } else if digit == 2 {
        '2'
    } else if digit == 3 {
        '3'
    } else if digit == 4 {
        '4'
    } else if digit == 5 {
        '5'
    } else if digit == 6 {
        '6'
    } else if digit == 7 {
        '7'
    } else if digit == 8 {
        '8'
    } else {
        '9'
    }
}

/// A number written in decimal digits, without leading zeros.
pub open spec fn decimal(n: nat) -> Seq<char>
    decreases n,
{
    if n < 10 {
        seq![digit_char(n)]
    } else {
        decimal(n / 10).push(digit_char(n % 10))
    }
}

/// The name tried at `attempt`, for a drawing exported on `date`.
pub open spec fn export_file_name_spec(date: Seq<char>, attempt: nat) -> Seq<char> {
    if attempt == 0 {
        date + "-vector-field-visualization.svg"@
    } else {
        date + "-vector-field-visualization-"@ + decimal(attempt) + ".svg"@
    }
}

fn digit_str(digit: usize) -> (text: &'static str)
    requires
        digit < 10,
    ensures
        text@ == seq![digit_char(digit as nat)],
{
    proof {
        reveal_strlit("0");
        reveal_strlit("1");
        reveal_strlit("2");
        reveal_strlit("3");
        reveal_strlit("4");
        reveal_strlit("5");
        reveal_strlit("6");
        reveal_strlit("7");
        reveal_strlit("8");
        reveal_strlit("9");
    }
    let text = match digit {
        0 => "0",
        1 => "1",
        2 => "2",
        3 => "3",
        4 => "4",
        5 => "5",
        6 => "6",
        7 => "7",
        8 => "8",
        _ => "9",
    };
    text
}

fn push_decimal(text: &mut String, n: usize)
    ensures
        final(text)@ == old(text)@ + decimal(n as nat),
    decreases n,
{
    if n >= 10 {
        push_decimal(text, n / 10);
    }
    text.append(digit_str(n % 10));
}

/// The name to try at `attempt`: the date and the fixed title at the first attempt, and from
/// then on the number of the attempt behind them.
pub fn export_file_name(date: &str, attempt: usize) -> (name: String)
    ensures
        name@ == export_file_name_spec(date@, attempt as nat),
{
    let mut name = String::from_str(date);
    if attempt == 0 {
        name.append("-vector-field-visualization.svg");
    } else {
        name.append("-vector-field-visualization-");
        push_decimal(&mut name, attempt);
        name.append(".svg");
    }
    name
}

/// Whether the attempt is worth a warning.
pub fn export_attempt_warns(attempt: usize) -> (warns: bool)
    ensures
        warns == (attempt > EXPORT_WARN_AFTER),
{
    attempt > EXPORT_WARN_AFTER
}

/// A number in decimal has at least one digit.
pub proof fn lemma_decimal_is_not_empty(n: nat)
    ensures
        decimal(n).len() >= 1,
    decreases n,
{
    if n >= 10 {
        lemma_decimal_is_not_empty(n / 10);
    }
}

/// Different numbers are written differently.
pub proof fn lemma_decimal_is_injective(a: nat, b: nat)
    requires
        decimal(a) == decimal(b),
    ensures
        a == b,
    decreases a,
{
    if a < 10 && b < 10 {
        assert(seq![digit_char(b)][0] == digit_char(b));
    } else if a >= 10 && b >= 10 {
        let front_a = decimal(a / 10);
        let front_b = decimal(b / 10);
        assert(front_a.push(digit_char(a % 10)).drop_last() =~= front_a);
        assert(front_b.push(digit_char(b % 10)).drop_last() =~= front_b);
        assert(front_b.push(digit_char(b % 10)).last() == digit_char(b % 10));
        lemma_decimal_is_injective(a / 10, b / 10);
    } else if a < 10 {
        lemma_decimal_is_not_empty(b / 10);
        assert(decimal(a).len() == 1);
    } else {
        lemma_decimal_is_not_empty(a / 10);
    }
}

/// No two attempts try the same name: going from attempt to attempt, a name that was found
/// taken is never tried again.
pub proof fn lemma_export_names_are_distinct(date: Seq<char>, a: nat, b: nat)
    requires
        a != b,
    ensures
        export_file_name_spec(date, a) != export_file_name_spec(date, b),
{
    reveal_strlit("-vector-field-visualization.svg");
    reveal_strlit("-vector-field-visualization-");
    reveal_strlit(".svg");
    let stem = "-vector-field-visualization-"@;
    let ending = ".svg"@;
    let name_a = export_file_name_spec(date, a);
    let name_b = export_file_name_spec(date, b);
    let at = (date.len() + 27) as int;
    if a == 0 {
        lemma_decimal_is_not_empty(b);
        assert(name_b[at] == stem[27]);
    } else if b == 0 {
        lemma_decimal_is_not_empty(a);
        assert(name_a[at] == stem[27]);
    } else if name_a == name_b {
        let digits_a = decimal(a);
        let digits_b = decimal(b);
        let from = (date.len() + stem.len()) as int;
        assert(name_b.len() == from + digits_b.len() + ending.len());
        assert forall|i: int| 0 <= i < digits_a.len() implies digits_a[i] == digits_b[i] by {
            assert(name_b[from + i] == digits_b[i]);
        }
        assert(digits_a =~= digits_b);
        lemma_decimal_is_injective(a, b);
    }
}

} // verus!

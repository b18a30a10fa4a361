//! Times as they are shown: hours, minutes and seconds.
use crate::ieee::Double;
use vstd::prelude::*;

verus! {

/// The character of a decimal digit.
pub open spec fn digit(d: nat) -> char {
    (48 + d) as char
}

/// A number in decimal digits, without leading zeros.
pub open spec fn decimal(n: nat) -> Seq<char>
    decreases n,
{
    if n < 10 {
        seq![digit(n)]
    } else {
        decimal(n / 10).push(digit(n % 10))
    }
}

/// A number in at least two decimal digits.
pub open spec fn two_digits(n: nat) -> Seq<char> {
    if n < 10 {
        seq!['0', digit(n)]
    } else {
        decimal(n)
    }
}

/// A number of whole seconds as minutes and seconds, preceded by hours where there are any.
pub open spec fn clock_text(total: nat) -> Seq<char> {
    let hours = total / 3600;
    let minutes = (total % 3600) / 60;
    let seconds = total % 60;
    if hours > 0 {
        two_digits(hours) + seq![':'] + two_digits(minutes) + seq![':'] + two_digits(seconds)
    } else {
        two_digits(minutes) + seq![':'] + two_digits(seconds)
    }
}

/// A time as it is shown. What is no time, or lies before the beginning, shows as the beginning.
pub open spec fn time_text(seconds: Double) -> Seq<char> {
    if seconds.nan() || seconds.value() < 0 {
        clock_text(0)
    } else {
        clock_text(seconds.whole_part())
    }
}

/// The present time and the whole length as they are shown side by side.
pub open spec fn progress_text(current: Double, total: Double) -> Seq<char> {
    time_text(current) + seq![' ', '/', ' '] + time_text(total)
}

/// The hours, minutes and seconds that are shown make up the whole time.
pub proof fn law_parts_make_the_whole(total: nat)
    ensures
        (total / 3600) * 3600 + ((total % 3600) / 60) * 60 + total % 60 == total,
        (total % 3600) / 60 < 60,
        total % 60 < 60,
{
}

/// The first digit of a number other than 0 is not 0, and a number below 100 has at most two.
proof fn lemma_decimal_shape(n: nat)
    ensures
        decimal(n).len() >= 1,
        n > 0 ==> decimal(n)[0] != '0',
        n < 10 <==> decimal(n).len() == 1,
        10 <= n < 100 <==> decimal(n).len() == 2,
    decreases n,
{
    if n >= 10 {
        lemma_decimal_shape(n / 10);
    }
}

/// Different numbers have different digits.
proof fn lemma_decimal_injective(a: nat, b: nat)
    requires
        decimal(a) == decimal(b),
    ensures
        a == b,
    decreases a,
{
    lemma_decimal_shape(a);
    lemma_decimal_shape(b);
    if a < 10 {
        assert(decimal(a)[0] == digit(a));
        assert(decimal(b)[0] == digit(b));
    } else {
        assert(decimal(a).drop_last() =~= decimal(a / 10));
        assert(decimal(b).drop_last() =~= decimal(b / 10));
        assert(decimal(a).last() == digit(a % 10));
        assert(decimal(b).last() == digit(b % 10));
        lemma_decimal_injective(a / 10, b / 10);
    }
}

/// Different numbers differ in at least two digits, and a number below 100 has just two.
proof fn lemma_two_digits(a: nat, b: nat)
    ensures
        two_digits(a).len() >= 2,
        a < 100 ==> two_digits(a).len() == 2,
        two_digits(a) == two_digits(b) ==> a == b,
{
    lemma_decimal_shape(a);
    lemma_decimal_shape(b);
    if two_digits(a) == two_digits(b) {
        if a < 10 && b < 10 {
            assert(two_digits(a)[1] == digit(a));
            assert(two_digits(b)[1] == digit(b));
        } else if a >= 10 && b >= 10 {
            lemma_decimal_injective(a, b);
        } else if a < 10 {
            assert(two_digits(a)[0] == '0');
        } else {
            assert(two_digits(b)[0] == '0');
        }
    }
}

/// Different whole seconds are shown differently.
pub proof fn law_clock_text_is_faithful(a: nat, b: nat)
    requires
        clock_text(a) == clock_text(b),
    ensures
        a == b,
{
    let (ha, ma, sa) = (a / 3600, (a % 3600) / 60, a % 60);
    let (hb, mb, sb) = (b / 3600, (b % 3600) / 60, b % 60);
    lemma_two_digits(ha, hb);
    lemma_two_digits(hb, ha);
    lemma_two_digits(ma, mb);
    lemma_two_digits(mb, ma);
    lemma_two_digits(sa, sb);
    lemma_two_digits(sb, sa);
    law_parts_make_the_whole(a);
    law_parts_make_the_whole(b);
    let ta = clock_text(a);
    let tb = clock_text(b);
    let len = ta.len() as int;
    assert(ha == 0 <==> hb == 0);
    assert(ta.subrange(len - 2, len) =~= two_digits(sa));
    assert(tb.subrange(len - 2, len) =~= two_digits(sb));
    assert(ta.subrange(len - 5, len - 3) =~= two_digits(ma));
    assert(tb.subrange(len - 5, len - 3) =~= two_digits(mb));
    if ha > 0 {
        assert(ta.subrange(0, len - 6) =~= two_digits(ha));
        assert(tb.subrange(0, len - 6) =~= two_digits(hb));
    }
}

/// One decimal digit.
fn digit_text(d: u64) -> (text: &'static str)
    requires
        d < 10,
    ensures
        text@ == seq![digit(d as nat)],
{
    proof {
        reveal_strlit("0");
        reveal_strlit("1");
        reveal_strlit("2");
        reveal_strlit("3");
        reveal_strlit("4");
        reveal_strlit("5");
        reveal_strlit("6");
        reveal_strlit("7");
        reveal_strlit("8");
        reveal_strlit("9");
    }
    let text = match d {
        0 => "0",
        1 => "1",
        2 => "2",
        3 => "3",
        4 => "4",
        5 => "5",
        6 => "6",
        7 => "7",
        8 => "8",
        _ => "9",
    };
    assert(text@ =~= seq![digit(d as nat)]);
    text
}

/// A number in decimal digits.
fn decimal_text(n: u64) -> (text: String)
    ensures
        text@ == decimal(n as nat),
    decreases n,
{
    if n < 10 {
        String::from_str(digit_text(n))
    } else {
        let mut text = decimal_text(n / 10);
        text.append(digit_text(n % 10));
        assert(text@ =~= decimal(n as nat));
        text
    }
}

/// A number in at least two decimal digits.
fn two_digit_text(n: u64) -> (text: String)
    ensures
        text@ == two_digits(n as nat),
{
    if n < 10 {
        proof {
            reveal_strlit("0");
        }
        let mut text = String::from_str("0");
        text.append(digit_text(n));
        assert(text@ =~= two_digits(n as nat));
        text
    } else {
        decimal_text(n)
    }
}

/// A time as it is shown, from seconds.
pub fn format_time(seconds: Double) -> (text: String)
    ensures
        text@ == time_text(seconds),
{
    proof {
        reveal_strlit(":");
        reveal_strlit("00:00");
    }
    if seconds.is_nan() || seconds.is_negative() {
        let text = String::from_str("00:00");
        assert(text@ =~= clock_text(0));
        return text;
    }
    let total_secs: u64 = seconds.truncate();
    let hours: u64 = total_secs / 3600;
    let mins: u64 = (total_secs % 3600) / 60;
    let secs: u64 = total_secs % 60;
    let mut text = if hours > 0 {
        let mut head = two_digit_text(hours);
        head.append(":");
        head.append(two_digit_text(mins).as_str());
        head
    } else {
        two_digit_text(mins)
    };
    text.append(":");
    text.append(two_digit_text(secs).as_str());
    assert(text@ =~= clock_text(total_secs as nat));
    text
}

/// The present time and the whole length side by side.
pub fn format_progress(current: Double, total: Double) -> (text: String)
    ensures
        text@ == progress_text(current, total),
{
    proof {
        reveal_strlit(" / ");
    }
    let mut text = format_time(current);
    text.append(" / ");
    text.append(format_time(total).as_str());
    assert(text@ =~= progress_text(current, total));
    text
}

/// The number that digits stand for.
pub open spec fn reading(digits: Seq<char>) -> nat
    decreases digits.len(),
{
    if digits.len() == 0 {
        0
    } else {
        (10 * reading(digits.drop_last()) + (digits.last() as nat - 48)) as nat
    }
}

/// Whether a text consists of decimal digits.
pub open spec fn all_digits(text: Seq<char>) -> bool {
    forall|i: int| 0 <= i < text.len() ==> '0' <= #[trigger] text[i] <= '9'
}

/// The digits of a number are read as that number.
pub proof fn law_digits_read_back(n: nat)
    ensures
        all_digits(decimal(n)),
        reading(decimal(n)) == n,
        all_digits(two_digits(n)),
        reading(two_digits(n)) == n,
    decreases n,
{
    reveal_with_fuel(reading, 3);
    if n < 10 {
        assert(decimal(n).drop_last() =~= Seq::<char>::empty());
        let text = two_digits(n);
        assert(text.drop_last() =~= seq!['0']);
        assert(text.drop_last().drop_last() =~= Seq::<char>::empty());
        assert(text.last() == digit(n));
    } else {
        law_digits_read_back(n / 10);
        let text = decimal(n);
        assert(text.drop_last() =~= decimal(n / 10));
        assert(text.last() == digit(n % 10));
        assert forall|i: int| 0 <= i < text.len() implies '0' <= #[trigger] text[i] <= '9' by {
            if i < text.len() - 1 {
                assert(text[i] == decimal(n / 10)[i]);
            }
        }
    }
}

/// A time that is shown reads back as itself: after the last colon stand the seconds and before it
/// the minutes, two digits and less than sixty each, and before another colon stand the hours where
/// there are any, without needless zeros.
pub proof fn law_clock_text_reads_back(total: nat)
    ensures
        ({
            let text = clock_text(total);
            let len = text.len() as int;
            let seconds = text.subrange(len - 2, len);
            let minutes = text.subrange(len - 5, len - 3);
            let hours = text.subrange(0, len - 6);
            &&& len >= 5
            &&& text[len - 3] == ':'
            &&& all_digits(seconds) && all_digits(minutes)
            &&& reading(seconds) < 60 && reading(minutes) < 60
            &&& total < 3600 ==> len == 5 && total == reading(minutes) * 60 + reading(seconds)
            &&& total >= 3600 ==> {
                &&& len >= 8
                &&& text[len - 6] == ':'
                &&& all_digits(hours)
                &&& len > 8 ==> hours[0] != '0'
                &&& total == reading(hours) * 3600 + reading(minutes) * 60 + reading(seconds)
            }
        }),
{
    let (h, m, s) = (total / 3600, (total % 3600) / 60, total % 60);
    law_digits_read_back(h);
    law_digits_read_back(m);
    law_digits_read_back(s);
    lemma_two_digits(h, h);
    lemma_two_digits(m, m);
    lemma_two_digits(s, s);
    lemma_decimal_shape(h);
    let text = clock_text(total);
    let len = text.len() as int;
    assert(text.subrange(len - 2, len) =~= two_digits(s));
    assert(text.subrange(len - 5, len - 3) =~= two_digits(m));
    if h > 0 {
        assert(text.subrange(0, len - 6) =~= two_digits(h));
    }
}

/// A time is shown by its whole seconds: what is not a number or lies below zero as the beginning,
/// and any other as the whole number of seconds that have passed.
pub proof fn law_time_is_shown_in_whole_seconds(seconds: Double)
    ensures
        seconds.nan() || seconds.value() < 0 ==> time_text(seconds) == seq!['0', '0', ':', '0', '0'],
        !seconds.nan() && seconds.value() >= 0 ==> time_text(seconds) == clock_text(
            seconds.whole_part(),
        ),
{
    assert(clock_text(0) =~= seq!['0', '0', ':', '0', '0']);
}

/// The two times stand side by side, the present one first, with a stroke between them.
pub proof fn law_progress_shows_both_times(current: Double, total: Double)
    ensures
        ({
            let text = progress_text(current, total);
            let (a, b) = (time_text(current), time_text(total));
            let len = a.len() as int;
            &&& text.len() == a.len() + 3 + b.len()
            &&& text.subrange(0, len) == a
            &&& text[len] == ' ' && text[len + 1] == '/' && text[len + 2] == ' '
            &&& text.subrange(len + 3, text.len() as int) == b
        }),
{
    let text = progress_text(current, total);
    let (a, b) = (time_text(current), time_text(total));
    assert(text.subrange(0, a.len() as int) =~= a);
    assert(text.subrange(a.len() as int + 3, text.len() as int) =~= b);
}

} // verus!

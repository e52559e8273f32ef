use vstd::prelude::*;
use crate::duration::{Duration, NANOS_PER_SEC};

verus! {

/// The character of a decimal digit.
pub open spec fn digit_char(d: nat) -> char {
    if d == 0 { '0' }
    else if d == 1 { '1' }
    else if d == 2 { '2' }
    else if d == 3 { '3' }
    else if d == 4 { '4' }
    else if d == 5 { '5' }
    else if d == 6 { '6' }
    else if d == 7 { '7' }
    else if d == 8 { '8' }
    else { '9' }
}

/// The decimal notation of `n`, without sign or leading zeros.
pub open spec fn decimal(n: nat) -> Seq<char>
    decreases n,
{
    if n < 10 {
        seq![digit_char(n)]
    } else {
        decimal(n / 10).push(digit_char(n % 10))
    }
}

/// The words of `parts`, separated by single spaces.
pub open spec fn join_words(parts: Seq<Seq<char>>) -> Seq<char>
    decreases parts.len(),
{
    if parts.len() == 0 {
        Seq::empty()
    } else if parts.len() == 1 {
        parts[0]
    } else {
        join_words(parts.drop_last()) + seq![' '] + parts.last()
    }
}

/// `value` followed by its unit, if `value` is not zero; nothing otherwise.
pub open spec fn unit_part(value: nat, unit: char) -> Seq<Seq<char>> {
    if value > 0 {
        seq![decimal(value).push(unit)]
    } else {
        Seq::empty()
    }
}

/// A number of seconds as hours, minutes and seconds ("1h 2m 3s"), each unit
/// left out where its value is zero, and "0s" for no time at all.
pub open spec fn seconds_text(secs: nat) -> Seq<char> {
    if secs == 0 {
        seq!['0', 's']
    } else {
        join_words(
            unit_part(secs / 3600, 'h') + unit_part((secs % 3600) / 60, 'm') + unit_part(
                secs % 60,
                's',
            ),
        )
    }
}

fn digit_str(d: u128) -> (r: &'static str)
    requires
        d < 10,
    ensures
        r@ == seq![digit_char(d as nat)],
{
    proof {
        reveal_strlit("0");
        reveal_strlit("1");
        reveal_strlit("2");
        reveal_strlit("3");
        reveal_strlit("4");
        reveal_strlit("5");
        reveal_strlit("6");
        reveal_strlit("7");
        reveal_strlit("8");
        reveal_strlit("9");
    }
    if d == 0 { "0" }
    else if d == 1 { "1" }
    else if d == 2 { "2" }
    else if d == 3 { "3" }
    else if d == 4 { "4" }
    else if d == 5 { "5" }
    else if d == 6 { "6" }
    else if d == 7 { "7" }
    else if d == 8 { "8" }
    else { "9" }
}

/// Appends the decimal notation of `n` to `out`.
pub fn push_decimal(out: &mut String, n: u128)
    ensures
        final(out)@ == old(out)@ + decimal(n as nat),
    decreases n,
{
    if n >= 10 {
        push_decimal(out, n / 10);
    }
    out.append(digit_str(n % 10));
    assert(final(out)@ =~= old(out)@ + decimal(n as nat));
}

/// The decimal notation of `n`.
pub fn decimal_string(n: u128) -> (r: String)
    ensures
        r@ == decimal(n as nat),
{
    let mut out = String::new();
    push_decimal(&mut out, n);
    assert(out@ =~= decimal(n as nat));
    out
}

/// Renders a number of whole seconds as hours, minutes and seconds.
pub fn format_seconds(total_seconds: u128) -> (r: String)
    ensures
        r@ == seconds_text(total_seconds as nat),
{
    if total_seconds == 0 {
        proof {
            reveal_strlit("0s");
        }
        return String::from_str("0s");
    }
    let hours = total_seconds / 3600;
    let minutes = (total_seconds % 3600) / 60;
    let seconds = total_seconds % 60;

    proof {
        reveal_strlit("h");
        reveal_strlit("m");
        reveal_strlit("s");
    }
    let mut parts: Vec<String> = Vec::new();
    if hours > 0 {
        let mut p = decimal_string(hours);
        p.append("h");
        assert(p@ =~= decimal(hours as nat).push('h'));
        parts.push(p);
    }
    assert(parts@.map_values(|p: String| p@) =~= unit_part(hours as nat, 'h'));
    if minutes > 0 {
        let mut p = decimal_string(minutes);
        p.append("m");
        assert(p@ =~= decimal(minutes as nat).push('m'));
        parts.push(p);
    }
    assert(parts@.map_values(|p: String| p@) =~= unit_part(hours as nat, 'h') + unit_part(
        minutes as nat,
        'm',
    ));
    if seconds > 0 {
        let mut p = decimal_string(seconds);
        p.append("s");
        assert(p@ =~= decimal(seconds as nat).push('s'));
        parts.push(p);
    }
    assert(parts@.map_values(|p: String| p@) =~= unit_part(hours as nat, 'h') + unit_part(
        minutes as nat,
        'm',
    ) + unit_part(seconds as nat, 's'));
    join_with_spaces(&parts)
}

/// Joins `parts` with single spaces between them.
pub fn join_with_spaces(parts: &Vec<String>) -> (r: String)
    ensures
        r@ == join_words(parts@.map_values(|p: String| p@)),
{
    let ghost words = parts@.map_values(|p: String| p@);
    let mut out = String::new();
    let mut i: usize = 0;
    while i < parts.len()
        invariant
            i <= parts.len(),
            words == parts@.map_values(|p: String| p@),
            out@ == join_words(words.subrange(0, i as int)),
        decreases parts.len() - i,
    {
        proof {
            reveal_strlit(" ");
        }
        if i > 0 {
            out.append(" ");
        }
        out.append(parts[i].as_str());
        proof {
            let pre = words.subrange(0, i as int);
            let post = words.subrange(0, i as int + 1);
            assert(post.drop_last() =~= pre);
            assert(post.last() == parts@[i as int]@);
            if i == 0 {
                assert(pre.len() == 0);
            }
        }
        i = i + 1;
    }
    assert(words.subrange(0, parts.len() as int) =~= words);
    out
}

/// Renders a duration's whole seconds as hours, minutes and seconds; the
/// fraction of a second is not shown.
pub fn format_duration(duration: Duration) -> (r: String)
    ensures
        r@ == seconds_text(duration.whole_secs()),
{
    format_seconds((duration.nanos / NANOS_PER_SEC) as u128)
}

} // verus!

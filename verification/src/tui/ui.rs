use vstd::prelude::*;

use crate::scanner::scanner::TrackAudio;

verus! {

/// The character that writes the decimal digit `d`.
pub open spec fn digit_char(d: int) -> char {
    if d == 0 {
        '0'
    } else if d == 1 {
        '1'
    } else if d == 2 {
        '2'
    } else if d == 3 {
        '3'
    } else if d == 4 {
        '4'
    } else if d == 5 {
        '5'
    } else if d == 6 {
        '6'
    } else if d == 7 {
        '7'
    } else if d == 8 {
        '8'
    } else {
        '9'
    }
}

/// The decimal notation of `n`, without leading zeros.
pub open spec fn decimal(n: nat) -> Seq<char>
    decreases n,
{
    if n < 10 {
        seq![digit_char(n as int)]
    } else {
        decimal(n / 10).push(digit_char((n % 10) as int))
    }
}

/// The decimal notation of `n`, padded with zeros to at least two digits.
pub open spec fn two_digits(n: nat) -> Seq<char> {
    if n < 10 {
        seq!['0'] + decimal(n)
    } else {
        decimal(n)
    }
}

/// `secs` written as minutes and seconds, `MM:SS`.
pub open spec fn time_text(secs: nat) -> Seq<char> {
    two_digits(secs / 60) + seq![':'] + two_digits(secs % 60)
}

/// Below 100 minutes the time reads `MM:SS`: five characters, the colon in
/// the middle.
pub proof fn lemma_time_text_shape(secs: nat)
    requires
        secs < 6000,
    ensures
        time_text(secs).len() == 5,
        time_text(secs)[2] == ':',
{
    lemma_two_digits_len(secs / 60);
    lemma_two_digits_len(secs % 60);
}

proof fn lemma_two_digits_len(n: nat)
    requires
        n < 100,
    ensures
        two_digits(n).len() == 2,
{
    reveal_with_fuel(decimal, 2);
}

/// Whether `c` is an ASCII decimal digit.
pub open spec fn is_digit(c: char) -> bool {
    '0' <= c && c <= '9'
}

/// Whether every character of `s` is an ASCII decimal digit.
pub open spec fn all_digits(s: Seq<char>) -> bool {
    forall|i: int| 0 <= i < s.len() ==> is_digit(#[trigger] s[i])
}

/// The number that a text of decimal digits denotes.
pub open spec fn digits_value(s: Seq<char>) -> int
    decreases s.len(),
{
    if s.len() == 0 {
        0
    } else {
        digits_value(s.drop_last()) * 10 + (s.last() as int - '0' as int)
    }
}

proof fn lemma_digit_char(d: int)
    requires
        0 <= d < 10,
    ensures
        is_digit(digit_char(d)),
        digit_char(d) as int - '0' as int == d,
{
    assert('0' as int == 48 && '1' as int == 49 && '2' as int == 50 && '3' as int == 51);
    assert('4' as int == 52 && '5' as int == 53 && '6' as int == 54 && '7' as int == 55);
    assert('8' as int == 56 && '9' as int == 57);
}

proof fn lemma_decimal_digits(n: nat)
    ensures
        decimal(n).len() >= 1,
        all_digits(decimal(n)),
        digits_value(decimal(n)) == n,
    decreases n,
{
    if n < 10 {
        lemma_digit_char(n as int);
        assert(decimal(n).drop_last() =~= Seq::<char>::empty());
        assert(digits_value(Seq::<char>::empty()) == 0);
    } else {
        lemma_decimal_digits(n / 10);
        lemma_digit_char((n % 10) as int);
        let d = decimal(n);
        assert(d.drop_last() =~= decimal(n / 10));
        assert(d.last() == digit_char((n % 10) as int));
        assert(n == (n / 10) * 10 + n % 10);
        assert forall|i: int| 0 <= i < d.len() implies is_digit(#[trigger] d[i]) by {
            if i < d.len() - 1 {
                assert(d[i] == decimal(n / 10)[i]);
            }
        }
    }
}

proof fn lemma_leading_zero(d: Seq<char>)
    ensures
        digits_value(seq!['0'] + d) == digits_value(d),
    decreases d.len(),
{
    let z = seq!['0'] + d;
    if d.len() == 0 {
        assert(z.drop_last() =~= Seq::<char>::empty());
        assert(z.last() == '0');
        assert(digits_value(Seq::<char>::empty()) == 0);
        assert(digits_value(d) == 0);
    } else {
        assert(z.drop_last() =~= seq!['0'] + d.drop_last());
        assert(z.last() == d.last());
        lemma_leading_zero(d.drop_last());
    }
}

proof fn lemma_two_digits_value(n: nat)
    ensures
        two_digits(n).len() >= 2,
        n < 100 ==> two_digits(n).len() == 2,
        all_digits(two_digits(n)),
        digits_value(two_digits(n)) == n,
{
    lemma_decimal_digits(n);
    if n < 10 {
        lemma_leading_zero(decimal(n));
        let t = two_digits(n);
        assert forall|i: int| 0 <= i < t.len() implies is_digit(#[trigger] t[i]) by {
            if i > 0 {
                assert(t[i] == decimal(n)[i - 1]);
            }
        }
    } else {
        reveal_with_fuel(decimal, 2);
        if n < 100 {
            lemma_decimal_digits(n / 10);
        }
    }
}

/// The time text reads back as the seconds it was made from: minutes (at
/// least two digits), a colon, and seconds (exactly two digits, below 60),
/// with minutes times 60 plus seconds giving `secs`.
pub proof fn lemma_time_text_parses_back(secs: nat)
    ensures
        ({
            let minutes = two_digits(secs / 60);
            let seconds = two_digits(secs % 60);
            &&& time_text(secs) == minutes + seq![':'] + seconds
            &&& minutes.len() >= 2
            &&& seconds.len() == 2
            &&& all_digits(minutes)
            &&& all_digits(seconds)
            &&& digits_value(seconds) < 60
            &&& digits_value(minutes) * 60 + digits_value(seconds) == secs
        }),
{
    lemma_two_digits_value(secs / 60);
    lemma_two_digits_value(secs % 60);
    assert(secs == (secs / 60) * 60 + secs % 60);
}

fn digit_str(d: u64) -> (s: &'static str)
    requires
        d < 10,
    ensures
        s@ == seq![digit_char(d as int)],
{
    match d {
        0 => {
            proof {
                reveal_strlit("0");
            }
            "0"
        },
        1 => {
            proof {
                reveal_strlit("1");
            }
            "1"
        },
        2 => {
            proof {
                reveal_strlit("2");
            }
            "2"
        },
        3 => {
            proof {
                reveal_strlit("3");
            }
            "3"
        },
        4 => {
            proof {
                reveal_strlit("4");
            }
            "4"
        },
        5 => {
            proof {
                reveal_strlit("5");
            }
            "5"
        },
        6 => {
            proof {
                reveal_strlit("6");
            }
            "6"
        },
        7 => {
            proof {
                reveal_strlit("7");
            }
            "7"
        },
        8 => {
            proof {
                reveal_strlit("8");
            }
            "8"
        },
        _ => {
            proof {
                reveal_strlit("9");
            }
            "9"
        },
    }
}

fn push_decimal(s: &mut String, n: u64)
    ensures
        final(s)@ == old(s)@ + decimal(n as nat),
    decreases n,
{
    if n >= 10 {
        push_decimal(s, n / 10);
    }
    s.append(digit_str(n % 10));
}

fn push_two_digits(s: &mut String, n: u64)
    ensures
        final(s)@ == old(s)@ + two_digits(n as nat),
{
    if n < 10 {
        proof {
            reveal_strlit("0");
        }
        s.append("0");
    }
    push_decimal(s, n);
}

/// Formats a number of seconds as `MM:SS`: minutes and seconds, each padded
/// with zeros to two digits (minutes past 99 take as many digits as they need).
pub fn format_time(secs: u64) -> (text: String)
    ensures
        text@ == time_text(secs as nat),
{
    let min = secs / 60;
    let sec = secs % 60;
    let mut text = String::new();
    push_two_digits(&mut text, min);
    proof {
        reveal_strlit(":");
    }
    text.append(":");
    push_two_digits(&mut text, sec);
    text
}

/// The controls shown beside the track title: a play sign where the output
/// is paused, a pause sign where it plays.
pub fn controls_icon(is_paused: bool) -> (icon: &'static str)
    ensures
        icon@ == (if is_paused {
            "\u{f04ae} \u{f040a} \u{f04ad}"@
        } else {
            "\u{f04ae} \u{f03e4} \u{f04ad}"@
        }),
{
    if is_paused {
        "\u{f04ae} \u{f040a} \u{f04ad}"
    } else {
        "\u{f04ae} \u{f03e4} \u{f04ad}"
    }
}

/// The cells of a song's row in the song table: artist, title, and length
/// as `MM:SS`.
pub fn song_row(song: &TrackAudio) -> (cells: (String, String, String))
    ensures
        cells.0@ == song.track_artist@,
        cells.1@ == song.track_title@,
        cells.2@ == time_text(song.track_duration as nat),
{
    (song.track_artist.clone(), song.track_title.clone(), format_time(song.track_duration))
}

/// The playing position and the track's length, as `MM:SS / MM:SS`.
pub fn progress_label(progress: u64, max: u64) -> (label: String)
    ensures
        label@ == time_text(progress as nat) + seq![' ', '/', ' '] + time_text(max as nat),
{
    let mut label = format_time(progress);
    proof {
        reveal_strlit(" / ");
    }
    label.append(" / ");
    label.append(format_time(max).as_str());
    label
}

} // verus!

//! Filenames and save locations.
//!
//! The clock and the platform's pictures directory come from trusted
//! wrappers; everything built from them — zero-padded decimal
//! rendering, the timestamped filename, the fallback directory — is
//! verified.

use vstd::prelude::*;
use vstd::string::StringExecFns;

verus! {

/// The decimal digit character for a value below ten.
pub open spec fn spec_dec_digit(d: int) -> char {
    if d == 0 {
        '0'
    } else if d == 1 {
        '1'
    } else if d == 2 {
        '2'
    } else if d == 3 {
        '3'
    } else if d == 4 {
        '4'
    } else if d == 5 {
        '5'
    } else if d == 6 {
        '6'
    } else if d == 7 {
        '7'
    } else if d == 8 {
        '8'
    } else {
        '9'
    }
}

/// The value rendered in decimal, zero-padded or truncated to exactly
/// `width` digits; meaningful for values below ten to the `width`.
pub open spec fn spec_padded_decimal(n: int, width: int) -> Seq<char>
    decreases width,
{
    if width <= 0 {
        Seq::empty()
    } else {
        spec_padded_decimal(n / 10, width - 1).push(spec_dec_digit(n % 10))
    }
}

/// The value rendered in decimal with no padding; `0` renders as one
/// digit.
pub open spec fn spec_decimal(n: int) -> Seq<char>
    decreases n,
{
    if n < 10 {
        seq![spec_dec_digit(n)]
    } else {
        spec_decimal(n / 10).push(spec_dec_digit(n % 10))
    }
}

/// A padded rendering always has exactly `width` characters.
pub proof fn lemma_padded_decimal_len(n: int, width: int)
    ensures
        spec_padded_decimal(n, width).len() == if width <= 0 {
            0
        } else {
            width
        },
    decreases width,
{
    if width > 0 {
        lemma_padded_decimal_len(n / 10, width - 1);
    }
}

/// The one-character string for a decimal digit.
fn digit_str(d: u32) -> (r: &'static str)
    requires
        d < 10,
    ensures
        r@ == seq![spec_dec_digit(d as int)],
{
    match d {
        0 => {
            proof {
                reveal_strlit("0");
                assert("0"@ =~= seq![spec_dec_digit(0)]);
            }
            "0"
        },
        1 => {
            proof {
                reveal_strlit("1");
                assert("1"@ =~= seq![spec_dec_digit(1)]);
            }
            "1"
        },
        2 => {
            proof {
                reveal_strlit("2");
                assert("2"@ =~= seq![spec_dec_digit(2)]);
            }
            "2"
        },
        3 => {
            proof {
                reveal_strlit("3");
                assert("3"@ =~= seq![spec_dec_digit(3)]);
            }
            "3"
        },
        4 => {
            proof {
                reveal_strlit("4");
                assert("4"@ =~= seq![spec_dec_digit(4)]);
            }
            "4"
        },
        5 => {
            proof {
                reveal_strlit("5");
                assert("5"@ =~= seq![spec_dec_digit(5)]);
            }
            "5"
        },
        6 => {
            proof {
                reveal_strlit("6");
                assert("6"@ =~= seq![spec_dec_digit(6)]);
            }
            "6"
        },
        7 => {
            proof {
                reveal_strlit("7");
                assert("7"@ =~= seq![spec_dec_digit(7)]);
            }
            "7"
        },
        8 => {
            proof {
                reveal_strlit("8");
                assert("8"@ =~= seq![spec_dec_digit(8)]);
            }
            "8"
        },
        _ => {
            proof {
                reveal_strlit("9");
                assert("9"@ =~= seq![spec_dec_digit(9)]);
            }
            "9"
        },
    }
}

/// Appends `n` in decimal, zero-padded to exactly `width` digits.
fn append_padded(s: &mut String, n: u32, width: u32)
    ensures
        final(s)@ == old(s)@ + spec_padded_decimal(n as int, width as int),
    decreases width,
{
    if width == 0 {
        proof {
            assert(s@ =~= s@ + spec_padded_decimal(n as int, 0));
        }
        return ;
    }
    append_padded(s, n / 10, width - 1);
    s.append(digit_str(n % 10));
    proof {
        assert(s@ =~= old(s)@ + spec_padded_decimal(n as int, width as int));
    }
}

/// Appends `n` in decimal with no padding.
fn append_decimal_u64(s: &mut String, n: u64)
    ensures
        final(s)@ == old(s)@ + spec_decimal(n as int),
    decreases n,
{
    if n < 10 {
        s.append(digit_str(n as u32));
        proof {
            assert(s@ =~= old(s)@ + spec_decimal(n as int));
        }
        return ;
    }
    append_decimal_u64(s, n / 10);
    s.append(digit_str((n % 10) as u32));
    proof {
        assert(s@ =~= old(s)@ + spec_decimal(n as int));
    }
}

/// The timestamped filename text: the prefix, an underscore, the date
/// as `YYYYMMDD`, an underscore, and the time as `HHMMSS`.
pub open spec fn spec_timestamp_filename(
    prefix: Seq<char>,
    year: int,
    month: int,
    day: int,
    hour: int,
    minute: int,
    second: int,
) -> Seq<char> {
    prefix + "_"@ + spec_padded_decimal(year, 4) + spec_padded_decimal(month, 2)
        + spec_padded_decimal(day, 2) + "_"@ + spec_padded_decimal(hour, 2) + spec_padded_decimal(
        minute,
        2,
    ) + spec_padded_decimal(second, 2)
}

/// Renders a timestamped filename from calendar parts: the prefix,
/// then the date and time, each field zero-padded.
pub fn format_timestamp_filename(
    prefix: &str,
    year: u32,
    month: u32,
    day: u32,
    hour: u32,
    minute: u32,
    second: u32,
) -> (r: String)
    requires
        year <= 9999,
        1 <= month <= 12,
        1 <= day <= 31,
        hour <= 23,
        minute <= 59,
        second <= 59,
    ensures
        r@ == spec_timestamp_filename(
            prefix@,
            year as int,
            month as int,
            day as int,
            hour as int,
            minute as int,
            second as int,
        ),
        r@.len() == prefix@.len() + 16,
{
    let mut s = String::from_str(prefix);
    s.append("_");
    append_padded(&mut s, year, 4);
    append_padded(&mut s, month, 2);
    append_padded(&mut s, day, 2);
    s.append("_");
    append_padded(&mut s, hour, 2);
    append_padded(&mut s, minute, 2);
    append_padded(&mut s, second, 2);
    proof {
        reveal_strlit("_");
        lemma_padded_decimal_len(year as int, 4);
        lemma_padded_decimal_len(month as int, 2);
        lemma_padded_decimal_len(day as int, 2);
        lemma_padded_decimal_len(hour as int, 2);
        lemma_padded_decimal_len(minute as int, 2);
        lemma_padded_decimal_len(second as int, 2);
        assert(s@ =~= spec_timestamp_filename(
            prefix@,
            year as int,
            month as int,
            day as int,
            hour as int,
            minute as int,
            second as int,
        ));
    }
    s
}

/// Relies on `chrono::Local::now` with the `Datelike` and `Timelike`
/// accessors: the local calendar date and clock time, within the
/// field ranges chrono documents.
#[verifier::external_body]
fn local_time_parts() -> (t: (i32, u32, u32, u32, u32, u32))
    ensures
        1 <= t.1 <= 12,
        1 <= t.2 <= 31,
        t.3 <= 23,
        t.4 <= 59,
        t.5 <= 59,
{
    let now = chrono::Local::now();
    (
        chrono::Datelike::year(&now),
        chrono::Datelike::month(&now),
        chrono::Datelike::day(&now),
        chrono::Timelike::hour(&now),
        chrono::Timelike::minute(&now),
        chrono::Timelike::second(&now),
    )
}

/// Relies on `chrono::Utc::now` and `timestamp_millis`: the current
/// time in milliseconds since the epoch.
#[verifier::external_body]
fn now_millis() -> (r: i64) {
    chrono::Utc::now().timestamp_millis()
}

/// Relies on `dirs::picture_dir`: the platform's pictures directory,
/// if one is configured, rendered lossily as text.
#[verifier::external_body]
fn picture_dir_string() -> (r: Option<String>) {
    match dirs::picture_dir() {
        Some(p) => Some(p.to_string_lossy().into_owned()),
        None => None,
    }
}

/// Generates a unique filename from the current local time: the
/// prefix, an underscore, then `YYYYMMDD_HHMMSS` for some in-range
/// calendar date and clock time.  Years outside the four-digit range
/// are clamped into it.
pub fn generate_filename(prefix: &str) -> (r: String)
    ensures
        r@.len() == prefix@.len() + 16,
        r@.subrange(0, prefix@.len() as int) == prefix@,
        exists|y: int, mo: int, d: int, h: int, mi: int, s: int|
            {
                &&& 0 <= y <= 9999
                &&& 1 <= mo <= 12
                &&& 1 <= d <= 31
                &&& 0 <= h <= 23
                &&& 0 <= mi <= 59
                &&& 0 <= s <= 59
                &&& r@ == spec_timestamp_filename(prefix@, y, mo, d, h, mi, s)
            },
{
    let (year, month, day, hour, minute, second) = local_time_parts();
    let y: u32 = if year < 0 {
        0
    } else if year > 9999 {
        9999
    } else {
        year as u32
    };
    let r = format_timestamp_filename(prefix, y, month, day, hour, minute, second);
    proof {
        assert(r@.subrange(0, prefix@.len() as int) =~= prefix@);
        assert(r@ == spec_timestamp_filename(
            prefix@,
            y as int,
            month as int,
            day as int,
            hour as int,
            minute as int,
            second as int,
        ));
    }
    r
}

/// Picks the save directory: the platform's pictures directory where
/// one exists, else the temporary directory.
pub fn default_save_directory(picture_dir: Option<String>) -> (r: String)
    ensures
        match picture_dir {
            Some(d) => r == d,
            None => r@ == "/tmp"@,
        },
{
    match picture_dir {
        Some(d) => d,
        None => String::from_str("/tmp"),
    }
}

/// The default directory screenshots are saved to: the platform's
/// pictures directory, with the temporary directory as fallback.
pub fn get_default_save_path() -> String {
    default_save_directory(picture_dir_string())
}

/// The text of a millisecond timestamp: a minus sign for negative
/// values, then the decimal magnitude.
pub open spec fn spec_millis_text(millis: int) -> Seq<char> {
    if millis < 0 {
        seq!['-'] + spec_decimal(-millis)
    } else {
        spec_decimal(millis)
    }
}

/// The filename for a temporary sticky-note image carrying the given
/// millisecond timestamp.
pub fn temp_image_filename(millis: i64) -> (r: String)
    ensures
        r@ == "justsnap_sticky_"@ + spec_millis_text(millis as int) + ".png"@,
{
    let mut s = String::from_str("justsnap_sticky_");
    if millis < 0 {
        s.append("-");
        let magnitude: u64 = (-(millis as i128)) as u64;
        append_decimal_u64(&mut s, magnitude);
        proof {
            reveal_strlit("-");
            assert(s@ =~= "justsnap_sticky_"@ + spec_millis_text(millis as int));
        }
    } else {
        append_decimal_u64(&mut s, millis as u64);
    }
    s.append(".png");
    proof {
        assert(s@ =~= "justsnap_sticky_"@ + spec_millis_text(millis as int) + ".png"@);
    }
    s
}

/// A temporary sticky-note image filename stamped with the current
/// time.
pub fn temp_image_filename_now() -> (r: String)
    ensures
        r@.len() >= "justsnap_sticky_"@.len() + ".png"@.len() + 1,
{
    let millis = now_millis();
    let r = temp_image_filename(millis);
    proof {
        if millis < 0 {
            lemma_decimal_len_positive((-(millis as int)));
        } else {
            lemma_decimal_len_positive(millis as int);
        }
    }
    r
}

/// A decimal rendering has at least one character.
proof fn lemma_decimal_len_positive(n: int)
    ensures
        spec_decimal(n).len() >= 1,
    decreases n,
{
}

} // verus!

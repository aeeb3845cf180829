//! Names for downloaded wallpaper images: `wallpaper_<timestamp>.jpg`,
//! with the timestamp rendered in decimal.

use vstd::prelude::*;
use vstd::string::StringExecFns;

verus! {

/// The decimal digit characters.
pub open spec fn digit_char(d: int) -> char
    recommends
        0 <= d < 10,
{
    if d == 0 {
        '0'
    } else if d == 1 {
        '1'
    } else if d == 2 {
        '2'
    } else if d == 3 {
        '3'
    } else if d == 4 {
        '4'
    } else if d == 5 {
        '5'
    } else if d == 6 {
        '6'
    } else if d == 7 {
        '7'
    } else if d == 8 {
        '8'
    } else {
        '9'
    }
}

/// A natural number written in decimal, most significant digit first and
/// without leading zeros (zero itself is written `0`).
pub open spec fn decimal_of(n: nat) -> Seq<char>
    decreases n,
{
    if n < 10 {
        seq![digit_char(n as int)]
    } else {
        decimal_of((n / 10) as nat).push(digit_char((n % 10) as int))
    }
}

/// An integer written in decimal, with a leading minus sign when negative.
pub open spec fn signed_decimal_of(t: int) -> Seq<char> {
    if t >= 0 {
        decimal_of(t as nat)
    } else {
        seq!['-'] + decimal_of((-t) as nat)
    }
}

/// Appends one decimal digit to a string.
fn push_digit(s: &mut String, d: u64)
    requires
        d < 10,
    ensures
        final(s)@ == old(s)@ + seq![digit_char(d as int)],
{
    match d {
        0 => {
            s.append("0");
            proof {
                reveal_strlit("0");
                assert("0"@ =~= seq!['0']);
            }
        },
        1 => {
            s.append("1");
            proof {
                reveal_strlit("1");
                assert("1"@ =~= seq!['1']);
            }
        },
        2 => {
            s.append("2");
            proof {
                reveal_strlit("2");
                assert("2"@ =~= seq!['2']);
            }
        },
        3 => {
            s.append("3");
            proof {
                reveal_strlit("3");
                assert("3"@ =~= seq!['3']);
            }
        },
        4 => {
            s.append("4");
            proof {
                reveal_strlit("4");
                assert("4"@ =~= seq!['4']);
            }
        },
        5 => {
            s.append("5");
            proof {
                reveal_strlit("5");
                assert("5"@ =~= seq!['5']);
            }
        },
        6 => {
            s.append("6");
            proof {
                reveal_strlit("6");
                assert("6"@ =~= seq!['6']);
            }
        },
        7 => {
            s.append("7");
            proof {
                reveal_strlit("7");
                assert("7"@ =~= seq!['7']);
            }
        },
        8 => {
            s.append("8");
            proof {
                reveal_strlit("8");
                assert("8"@ =~= seq!['8']);
            }
        },
        _ => {
            s.append("9");
            proof {
                reveal_strlit("9");
                assert("9"@ =~= seq!['9']);
            }
        },
    }
}

/// Appends a natural number in decimal.
fn append_decimal(s: &mut String, n: u64)
    ensures
        final(s)@ == old(s)@ + decimal_of(n as nat),
    decreases n,
{
    if n >= 10 {
        append_decimal(s, n / 10);
        push_digit(s, n % 10);
        proof {
            assert(old(s)@ + decimal_of((n / 10) as nat) + seq![digit_char((n % 10) as int)]
                =~= old(s)@ + decimal_of(n as nat));
        }
    } else {
        push_digit(s, n);
    }
}

/// The name a downloaded wallpaper image is saved under, stamped with the
/// Unix timestamp of the download.
pub open spec fn temp_image_name(ts: int) -> Seq<char> {
    "wallpaper_"@ + signed_decimal_of(ts) + ".jpg"@
}

/// Renders the file name for a downloaded wallpaper image taken at the
/// given Unix timestamp.
pub fn temp_image_file_name(ts: i64) -> (s: String)
    ensures
        s@ == temp_image_name(ts as int),
{
    let mut s = "wallpaper_".to_owned();
    if ts >= 0 {
        append_decimal(&mut s, ts as u64);
    } else {
        s.append("-");
        proof {
            reveal_strlit("-");
            assert("-"@ =~= seq!['-']);
        }
        let magnitude: u64 = ((-(ts + 1)) as u64) + 1;
        proof {
            assert(magnitude as int == -(ts as int));
        }
        append_decimal(&mut s, magnitude);
        proof {
            assert("wallpaper_"@ + seq!['-'] + decimal_of(magnitude as nat) =~= "wallpaper_"@
                + signed_decimal_of(ts as int));
        }
    }
    let s = s.concat(".jpg");
    proof {
        assert("wallpaper_"@ + signed_decimal_of(ts as int) + ".jpg"@ =~= s@);
    }
    s
}

/// Relies on `chrono::Utc::now` and `DateTime::timestamp`: the clock's
/// current time as a Unix timestamp in seconds. The result depends on the
/// clock, so nothing is promised of its value.
#[verifier::external_body]
fn now_unix_timestamp() -> (ts: i64) {
    chrono::Utc::now().timestamp()
}

/// Builds the file name for a wallpaper image downloaded now: whatever
/// moment the clock reports, the name is that timestamp's.
pub fn downloaded_wallpaper_file_name() -> (s: String)
    ensures
        exists|ts: int| s@ == temp_image_name(ts),
{
    let ts = now_unix_timestamp();
    let s = temp_image_file_name(ts);
    proof {
        assert(s@ == temp_image_name(ts as int));
    }
    s
}

} // verus!

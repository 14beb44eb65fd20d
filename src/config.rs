use vstd::prelude::*;
use vstd::string::StrSliceExecFns;

verus! {

/// The host's settings: how much to enlarge each pixel, how long to pause
/// between steps, whether compatibility quirks are on, and which program to
/// run.
pub struct Config {
    /// Side of a screen pixel, in window pixels.
    pub scale: u8,
    /// Whether compatibility quirks are enabled.
    pub quirks: bool,
    /// Pause between steps, in milliseconds.
    pub delay: u8,
    /// Path of the program image.
    pub filename: String,
}

/// A setting that could not be read.
#[derive(Debug, Clone, Copy, PartialEq, Eq, Structural)]
pub enum ConfigError {
    /// The pause between steps is not a number from 0 to 255.
    InvalidDelay,
    /// The scale factor is not a number from 0 to 255.
    InvalidScale,
}

/// Scale factor used when none is given.
pub const DEFAULT_SCALE: u8 = 5;

/// Pause between steps used when none is given.
pub const DEFAULT_DELAY: u8 = 1;

/// The value of a string of decimal digits.
pub open spec fn digits_value(s: Seq<char>) -> int
    decreases s.len(),
{
    if s.len() == 0 {
        0
    } else {
        digits_value(s.drop_last()) * 10 + (s.last() as int - '0' as int)
    }
}

/// The number a string denotes as an unsigned byte: an optional `+`, then
/// one or more decimal digits whose value is at most 255. Anything else,
/// surrounding spaces included, denotes nothing.
pub open spec fn parsed_u8(s: Seq<char>) -> Option<u8> {
    let d = if s.len() > 0 && s[0] == '+' {
        s.drop_first()
    } else {
        s
    };
    if d.len() > 0 && all_digits(d) && digits_value(d) <= 255 {
        Some(digits_value(d) as u8)
    } else {
        None
    }
}

/// Whether every character of `d` is a decimal digit.
pub open spec fn all_digits(d: Seq<char>) -> bool {
    forall|k: int| 0 <= k < d.len() ==> '0' <= #[trigger] d[k] <= '9'
}

/// The value of a string of digits is at least that of any of its
/// prefixes, and never negative.
proof fn lemma_prefix_value(d: Seq<char>, n: int)
    requires
        all_digits(d),
        0 <= n <= d.len(),
    ensures
        0 <= digits_value(d.subrange(0, n)) <= digits_value(d),
    decreases d.len(),
{
    if n == d.len() {
        assert(d.subrange(0, n) =~= d);
        if d.len() > 0 {
            lemma_prefix_value(d.drop_last(), 0);
        }
    } else {
        let e = d.drop_last();
        assert(all_digits(e));
        lemma_prefix_value(e, n);
        assert(e.subrange(0, n) =~= d.subrange(0, n));
    }
}

/// Reads an unsigned byte written in decimal, as `parsed_u8` describes.
fn parse_u8(s: &str) -> (r: Option<u8>)
    ensures
        r == parsed_u8(s@),
{
    let len = s.unicode_len();
    let mut start: usize = 0;
    if len > 0 && s.get_char(0) == '+' {
        start = 1;
    }
    let ghost d = if s@.len() > 0 && s@[0] == '+' {
        s@.drop_first()
    } else {
        s@
    };
    assert(d =~= s@.subrange(start as int, len as int));
    if start >= len {
        return None;
    }
    let mut value: u32 = 0;
    let mut k: usize = start;
    while k < len
        invariant
            start < len,
            len == s@.len(),
            start <= k <= len,
            d == s@.subrange(start as int, len as int),
            d == (if s@.len() > 0 && s@[0] == '+' {
                s@.drop_first()
            } else {
                s@
            }),
            value <= 255,
            all_digits(d.subrange(0, k - start)),
            value == digits_value(d.subrange(0, k - start)),
        decreases len - k,
    {
        let c = s.get_char(k);
        assert(d[k - start] == c);
        if !('0' <= c && c <= '9') {
            assert(!all_digits(d));
            return None;
        }
        let ghost prefix = d.subrange(0, k - start);
        let ghost next = d.subrange(0, k + 1 - start);
        assert(next.drop_last() =~= prefix);
        assert(all_digits(next));
        value = value * 10 + (c as u32 - '0' as u32);
        k = k + 1;
        if value > 255 {
            proof {
                if all_digits(d) {
                    lemma_prefix_value(d, k - start);
                }
            }
            return None;
        }
    }
    assert(d.subrange(0, k - start) =~= d);
    Some(value as u8)
}

/// The value of a setting given as `arg`, or `default` when absent.
pub open spec fn setting(arg: Option<&str>, default: u8) -> Option<u8> {
    match arg {
        Some(text) => parsed_u8(text@),
        None => Some(default),
    }
}

impl Config {
    /// Settings from the program path and the scale and delay arguments as
    /// given (absent ones take their defaults, 5 and 1). The delay is
    /// checked first. Quirks are off.
    pub fn new(filename: String, scale: Option<&str>, delay: Option<&str>) -> (r: Result<
        Config,
        ConfigError,
    >)
        ensures
            setting(delay, 1) is None ==> (r matches Err(e) && e == ConfigError::InvalidDelay),
            setting(delay, 1) is Some && setting(scale, 5) is None ==> (r matches Err(e) && e
                == ConfigError::InvalidScale),
            setting(delay, 1) is Some && setting(scale, 5) is Some ==> (r matches Ok(c) && c.delay
                == setting(delay, 1)->Some_0 && c.scale == setting(scale, 5)->Some_0
                && c.filename@ == filename@ && !c.quirks),
    {
        let delay = match delay {
            Some(text) => parse_u8(text),
            None => Some(DEFAULT_DELAY),
        };
        let delay = match delay {
            Some(d) => d,
            None => {
                return Err(ConfigError::InvalidDelay);
            },
        };
        let scale = match scale {
            Some(text) => parse_u8(text),
            None => Some(DEFAULT_SCALE),
        };
        let scale = match scale {
            Some(s) => s,
            None => {
                return Err(ConfigError::InvalidScale);
            },
        };
        Ok(Config { scale, quirks: false, delay, filename })
    }
}

} // verus!

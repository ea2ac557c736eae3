use crate::errors::AiError;
use vstd::prelude::*;

verus! {

/// The model used for general chat when none is configured.
pub const DEFAULT_MODEL: &'static str = "mistral-small-2506";

/// The fast model used for extraction when none is configured.
pub const DEFAULT_OPTION_MODEL: &'static str = "open-mistral-7b";

/// The token limit when none is configured, or the configured one is not a number.
pub const DEFAULT_MAX_TOKENS: u32 = 1000;

/// The temperature when none is configured: 0.7, as the bits of an `f32`.
pub const DEFAULT_TEMPERATURE_BITS: u32 = 1060320051;

/// The settings of the assistant, fixed once loaded.
pub struct AppConfig {
    pub mistral_api_key: String,
    pub model: String,
    pub max_tokens: u32,
    /// The sampling temperature, as the IEEE 754 bits of an `f32`.
    pub temperature_bits: u32,
    pub option_model: String,
}

/// The value of a decimal digit.
pub open spec fn digit_value(c: char) -> nat {
    (c as u32 - '0' as u32) as nat
}

pub open spec fn is_digit(c: char) -> bool {
    '0' <= c && c <= '9'
}

/// The number that a run of decimal digits writes.
pub open spec fn digits_value(s: Seq<char>) -> nat
    decreases s.len(),
{
    if s.len() == 0 {
        0
    } else {
        digits_value(s.drop_last()) * 10 + digit_value(s.last())
    }
}

/// Every character of `d` is a decimal digit.
pub open spec fn all_digits(d: Seq<char>) -> bool {
    forall|i: int| 0 <= i < d.len() ==> is_digit(#[trigger] d[i])
}

/// The digits of an unsigned number's text: all of it, or what follows one `+`.
pub open spec fn unsigned_digits(s: Seq<char>) -> Seq<char> {
    if s.len() > 0 && s[0] == '+' {
        s.drop_first()
    } else {
        s
    }
}

/// What reading `s` as a `u32` gives: its value when it is an optional `+`
/// followed by at least one decimal digit and nothing else, and the value fits.
pub open spec fn u32_of_text(s: Seq<char>) -> Option<u32> {
    let d = unsigned_digits(s);
    if d.len() > 0 && all_digits(d) && digits_value(d) <= u32::MAX {
        Some(digits_value(d) as u32)
    } else {
        None
    }
}

/// Reads a text as an unsigned 32-bit number.
pub fn parse_u32(s: &str) -> (r: Option<u32>)
    ensures
        r == u32_of_text(s@),
{
    let n = s.unicode_len();
    let mut start: usize = 0;
    if n > 0 && s.get_char(0) == '+' {
        start = 1;
    }
    let ghost d = unsigned_digits(s@);
    assert(d =~= s@.subrange(start as int, n as int));
    if start == n {
        return None;
    }
    let mut value: u32 = 0;
    let mut i: usize = start;
    while i < n
        invariant
            start <= i <= n,
            n == s@.len(),
            d == s@.subrange(start as int, n as int),
            d == unsigned_digits(s@),
            forall|k: int| 0 <= k < i - start ==> is_digit(#[trigger] d[k]),
            value as nat == digits_value(d.subrange(0, i - start)),
        decreases n - i,
    {
        let c = s.get_char(i);
        let ghost prefix = d.subrange(0, i - start + 1);
        assert(prefix.drop_last() =~= d.subrange(0, i - start));
        assert(prefix.last() == c);
        assert(d[i - start] == c);
        if c < '0' || c > '9' {
            assert(!is_digit(d[i - start]));
            assert(!all_digits(d));
            return None;
        }
        let v = (c as u32) - ('0' as u32);
        if value > (u32::MAX - v) / 10 {
            proof {
                assert(value * 10 + v > u32::MAX) by (nonlinear_arith)
                    requires
                        value > (u32::MAX - v) / 10,
                        v <= 9,
                ;
                assert(digit_value(c) == v);
                assert(digits_value(prefix) == value * 10 + v);
                lemma_digits_value_grows(d, (i - start + 1) as int);
            }
            return None;
        }
        value = value * 10 + v;
        i = i + 1;
    }
    assert(d.subrange(0, (n - start) as int) =~= d);
    Some(value)
}

/// A longer run of digits is worth at least as much as its prefix.
proof fn lemma_digits_value_grows(d: Seq<char>, k: int)
    requires
        0 <= k <= d.len(),
    ensures
        digits_value(d) >= digits_value(d.subrange(0, k)),
    decreases d.len() - k,
{
    if k < d.len() {
        lemma_digits_value_grows(d, k + 1);
        let p = d.subrange(0, k + 1);
        assert(p.drop_last() =~= d.subrange(0, k));
    } else {
        assert(d.subrange(0, k) =~= d);
    }
}

impl AppConfig {
    /// Builds the settings from what the environment holds: the key is required,
    /// every other value falls back to its default when absent, and a token
    /// limit that is not a number counts as absent.
    pub fn from_values(
        api_key: Option<String>,
        model: Option<String>,
        max_tokens: Option<String>,
        temperature_bits: Option<u32>,
        option_model: Option<String>,
    ) -> (r: Result<AppConfig, AiError>)
        ensures
            api_key is None <==> r == Err::<AppConfig, AiError>(AiError::MissingCredential),
            api_key is Some <==> r is Ok,
            r matches Ok(c) ==> {
                &&& api_key == Some(c.mistral_api_key)
                &&& c.model@ == (match model {
                    Some(m) => m@,
                    None => DEFAULT_MODEL@,
                })
                &&& c.max_tokens == (match max_tokens {
                    Some(t) => match u32_of_text(t@) {
                        Some(v) => v,
                        None => DEFAULT_MAX_TOKENS,
                    },
                    None => DEFAULT_MAX_TOKENS,
                })
                &&& c.temperature_bits == (match temperature_bits {
                    Some(t) => t,
                    None => DEFAULT_TEMPERATURE_BITS,
                })
                &&& c.option_model@ == (match option_model {
                    Some(m) => m@,
                    None => DEFAULT_OPTION_MODEL@,
                })
            },
    {
        let mistral_api_key = match api_key {
            Some(k) => k,
            None => {
                return Err(AiError::MissingCredential);
            },
        };
        let model = match model {
            Some(m) => m,
            None => String::from_str(DEFAULT_MODEL),
        };
        let max_tokens = match max_tokens {
            Some(t) => match parse_u32(t.as_str()) {
                Some(v) => v,
                None => DEFAULT_MAX_TOKENS,
            },
            None => DEFAULT_MAX_TOKENS,
        };
        let temperature_bits = match temperature_bits {
            Some(t) => t,
            None => DEFAULT_TEMPERATURE_BITS,
        };
        let option_model = match option_model {
            Some(m) => m,
            None => String::from_str(DEFAULT_OPTION_MODEL),
        };
        Ok(AppConfig { mistral_api_key, model, max_tokens, temperature_bits, option_model })
    }
}

} // verus!

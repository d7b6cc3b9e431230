//! Runtime configuration: applies the documented fallback for every
//! setting the environment leaves unset, and parses the rate limit.

use vstd::prelude::*;
use vstd::string::StrSliceExecFns;
use vstd::string::StringExecFns;

verus! {

/// Rate limit applied when the configured value is absent or malformed.
pub const DEFAULT_API_RATE_LIMIT: u32 = 100;

/// Settings the service runs with.
#[derive(Clone, Debug)]
pub struct Config {
    pub database_url: String,
    pub redis_url: String,
    pub model_path: String,
    pub jwt_secret: String,
    pub football_api_key: String,
    pub api_rate_limit: u32,
}

/// A decimal digit.
pub open spec fn spec_is_digit(c: char) -> bool {
    48 <= c as int <= 57
}

/// Whether every character is a decimal digit.
pub open spec fn spec_all_digits(s: Seq<char>) -> bool {
    forall|i: int| 0 <= i < s.len() ==> spec_is_digit(#[trigger] s[i])
}

/// The number a digit sequence denotes in base ten.
pub open spec fn spec_decimal_value(s: Seq<char>) -> int
    decreases s.len(),
{
    if s.len() == 0 {
        0
    } else {
        spec_decimal_value(s.drop_last()) * 10 + (s.last() as int - 48)
    }
}

/// A digit sequence denotes a nonnegative number.
proof fn lemma_decimal_value_nonneg(s: Seq<char>)
    requires
        spec_all_digits(s),
    ensures
        spec_decimal_value(s) >= 0,
    decreases s.len(),
{
    if s.len() > 0 {
        assert(spec_all_digits(s.drop_last()));
        lemma_decimal_value_nonneg(s.drop_last());
    }
}

/// Reading more digits never shrinks the denoted number.
proof fn lemma_decimal_value_prefix_le(s: Seq<char>, k: int)
    requires
        spec_all_digits(s),
        0 <= k <= s.len(),
    ensures
        spec_decimal_value(s.take(k)) <= spec_decimal_value(s),
    decreases s.len() - k,
{
    if k == s.len() {
        assert(s.take(k) =~= s);
    } else {
        assert(s.take(k + 1).drop_last() =~= s.take(k));
        assert(spec_all_digits(s.take(k)));
        lemma_decimal_value_nonneg(s.take(k));
        lemma_decimal_value_prefix_le(s, k + 1);
    }
}

/// Parses a base-ten unsigned number.
///
/// `Some` exactly when the text is nonempty, all digits, and the denoted
/// number fits in a `u32`; the result is then that number.
pub fn parse_u32(s: &str) -> (r: Option<u32>)
    ensures
        r is Some <==> s@.len() > 0 && spec_all_digits(s@) && spec_decimal_value(s@) <= u32::MAX,
        r is Some ==> r->0 == spec_decimal_value(s@),
{
    let n = s.unicode_len();
    if n == 0 {
        return None;
    }
    let mut acc: u64 = 0;
    let mut i: usize = 0;
    while i < n
        invariant
            0 < n == s@.len(),
            i <= n,
            spec_all_digits(s@.take(i as int)),
            acc == spec_decimal_value(s@.take(i as int)),
            acc <= u32::MAX,
        decreases n - i,
    {
        let c = s.get_char(i);
        let d = c as u32;
        if d < 48 || d > 57 {
            return None;
        }
        proof {
            assert(s@.take(i + 1int).drop_last() =~= s@.take(i as int));
            assert(s@.take(i + 1int).last() == s@[i as int]);
        }
        acc = acc * 10 + (d - 48) as u64;
        i = i + 1;
        if acc > u32::MAX as u64 {
            proof {
                if spec_all_digits(s@) {
                    assert(s@.take(i as int) =~= s@.take(i as int));
                    lemma_decimal_value_prefix_le(s@, i as int);
                }
            }
            return None;
        }
    }
    proof {
        assert(s@.take(n as int) =~= s@);
    }
    Some(acc as u32)
}

/// The rate limit a configured text stands for: the number it denotes,
/// or the default when it is absent or not a `u32` numeral.
pub open spec fn spec_rate_limit_of(v: Option<String>) -> int {
    match v {
        Some(s) => {
            if s@.len() > 0 && spec_all_digits(s@) && spec_decimal_value(s@) <= u32::MAX {
                spec_decimal_value(s@)
            } else {
                DEFAULT_API_RATE_LIMIT as int
            }
        },
        None => DEFAULT_API_RATE_LIMIT as int,
    }
}

impl Config {
    /// Assembles the configuration from raw environment values, applying
    /// the documented default wherever a value is absent; a present but
    /// malformed rate limit also falls back to the default rather than
    /// failing. The caller must already hold a JWT secret: there is no
    /// default for it.
    pub fn resolve(
        database_url: Option<String>,
        redis_url: Option<String>,
        model_path: Option<String>,
        jwt_secret: String,
        football_api_key: Option<String>,
        api_rate_limit: Option<String>,
    ) -> (c: Config)
        ensures
            c.database_url@ == match database_url {
                Some(s) => s@,
                None => "postgres://localhost/premier_league"@,
            },
            c.redis_url@ == match redis_url {
                Some(s) => s@,
                None => "redis://localhost:6379"@,
            },
            c.model_path@ == match model_path {
                Some(s) => s@,
                None => "./models/predictor.onnx"@,
            },
            c.jwt_secret@ == jwt_secret@,
            c.football_api_key@ == match football_api_key {
                Some(s) => s@,
                None => Seq::<char>::empty(),
            },
            c.api_rate_limit == spec_rate_limit_of(api_rate_limit),
    {
        let api_rate_limit: u32 = match api_rate_limit {
            Some(s) => match parse_u32(s.as_str()) {
                Some(v) => v,
                None => DEFAULT_API_RATE_LIMIT,
            },
            None => DEFAULT_API_RATE_LIMIT,
        };
        Config {
            database_url: match database_url {
                Some(s) => s,
                None => String::from_str("postgres://localhost/premier_league"),
            },
            redis_url: match redis_url {
                Some(s) => s,
                None => String::from_str("redis://localhost:6379"),
            },
            model_path: match model_path {
                Some(s) => s,
                None => String::from_str("./models/predictor.onnx"),
            },
            jwt_secret,
            football_api_key: match football_api_key {
                Some(s) => s,
                None => String::new(),
            },
            api_rate_limit,
        }
    }
}

} // verus!

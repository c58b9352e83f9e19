//! Service configuration assembled from raw environment values.
//!
//! The boundary layer reads the process environment; this module holds the
//! verified part: decimal parsing, defaulting, the empty-key filter, and the
//! kilobyte scaling of the request-size cap.

use vstd::prelude::*;

verus! {

/// Runtime configuration of the simulation service.
#[derive(Debug, Clone)]
pub struct Config {
    pub port: u16,
    pub etherscan_key: Option<String>,
    pub api_key: Option<String>,
    pub max_request_size: u64,
}

/// A raw configuration value that could not be understood.
#[derive(Clone, Copy, PartialEq, Eq, Structural, Debug)]
pub enum ConfigError {
    /// The port value is not a decimal number within `u16` range.
    InvalidPort,
    /// The request-size value is not a decimal number whose kilobyte
    /// scaling fits in `u64`.
    InvalidMaxRequestSize,
}

pub open spec fn is_dec_digit(c: char) -> bool {
    '0' <= c && c <= '9'
}

pub open spec fn dec_digit_val(c: char) -> int {
    c as int - '0' as int
}

/// A non-empty string of decimal digits.
pub open spec fn is_dec_string(s: Seq<char>) -> bool {
    s.len() > 0 && forall|i: int| 0 <= i < s.len() ==> is_dec_digit(#[trigger] s[i])
}

/// The number a digit string denotes, most significant digit first.
pub open spec fn dec_value(s: Seq<char>) -> int
    decreases s.len(),
{
    if s.len() == 0 {
        0
    } else {
        dec_value(s.drop_last()) * 10 + dec_digit_val(s.last())
    }
}

pub proof fn lemma_dec_value_nonneg(s: Seq<char>)
    requires
        forall|i: int| 0 <= i < s.len() ==> is_dec_digit(#[trigger] s[i]),
    ensures
        dec_value(s) >= 0,
    decreases s.len(),
{
    if s.len() > 0 {
        assert(forall|i: int|
            0 <= i < s.drop_last().len() ==> is_dec_digit(#[trigger] s.drop_last()[i]));
        lemma_dec_value_nonneg(s.drop_last());
    }
}

/// Extending a digit string can only grow its value.
pub proof fn lemma_dec_value_prefix_le(s: Seq<char>, i: int)
    requires
        forall|k: int| 0 <= k < s.len() ==> is_dec_digit(#[trigger] s[k]),
        0 <= i <= s.len(),
    ensures
        dec_value(s.take(i)) <= dec_value(s),
    decreases s.len() - i,
{
    if i < s.len() {
        lemma_dec_value_prefix_le(s, i + 1);
        let t = s.take(i + 1);
        assert(t.drop_last() =~= s.take(i));
        assert(dec_value(t) == dec_value(s.take(i)) * 10 + dec_digit_val(t.last()));
        lemma_dec_value_nonneg(s.take(i));
        assert(forall|k: int| 0 <= k < t.len() ==> is_dec_digit(#[trigger] t[k]));
        assert(dec_value(s.take(i)) <= dec_value(t));
    } else {
        assert(s.take(i) =~= s);
    }
}

/// A decimal unsigned integer as `u16`/`u64` parsing reads it: an
/// optional leading `+` followed by at least one digit.
pub open spec fn is_uint_string(s: Seq<char>) -> bool {
    if s.len() > 0 && s[0] == '+' {
        is_dec_string(s.skip(1))
    } else {
        is_dec_string(s)
    }
}

/// The number such a string denotes, the optional sign carrying no value.
pub open spec fn uint_value(s: Seq<char>) -> int {
    if s.len() > 0 && s[0] == '+' {
        dec_value(s.skip(1))
    } else {
        dec_value(s)
    }
}

/// Parses a decimal string — an optional leading `+` then digits — into a
/// `u64`; `None` exactly when the text is not such a string or its value
/// does not fit.
pub fn parse_u64(s: &str) -> (r: Option<u64>)
    ensures
        r is Some <==> is_uint_string(s@) && uint_value(s@) <= u64::MAX,
        r is Some ==> r->0 == uint_value(s@),
{
    let n = s.unicode_len();
    if n == 0 {
        return None;
    }
    let start: usize = if s.get_char(0) == '+' {
        1
    } else {
        0
    };
    let ghost d = s@.skip(start as int);
    proof {
        if start == 0 {
            assert(d =~= s@);
        }
    }
    if n == start {
        // a bare sign carries no digits
        return None;
    }
    let mut acc: u64 = 0;
    let mut i: usize = start;
    while i < n
        invariant
            n == s@.len(),
            start <= i <= n,
            start < n,
            start == 0 || start == 1,
            start == 1 <==> (s@.len() > 0 && s@[0] == '+'),
            d == s@.skip(start as int),
            start == 0 ==> d == s@,
            d.len() == n - start,
            forall|k: int| 0 <= k < i - start ==> is_dec_digit(#[trigger] d[k]),
            acc == dec_value(d.take(i - start)),
        decreases n - i,
    {
        let c = s.get_char(i);
        proof {
            assert(d[i - start] == s@[i as int]);
        }
        if c < '0' || c > '9' {
            proof {
                assert(!is_dec_digit(d[i - start]));
                assert(!is_dec_string(d));
            }
            return None;
        }
        let dv: u32 = c as u32 - 48;
        assert(dv == dec_digit_val(d[i - start]));
        proof {
            assert(d.take(i - start + 1).drop_last() =~= d.take(i - start));
        }
        if acc > (u64::MAX - dv as u64) / 10 {
            proof {
                lemma_dec_value_nonneg(d.take(i - start));
                assert(dec_value(d.take(i - start + 1)) == acc * 10 + dv);
                assert(dec_value(d.take(i - start + 1)) > u64::MAX) by {
                    assert(acc >= (u64::MAX - dv as u64) / 10 + 1);
                    assert(acc * 10 >= ((u64::MAX - dv as u64) / 10 + 1) * 10) by (nonlinear_arith)
                        requires
                            acc >= (u64::MAX - dv as u64) / 10 + 1,
                    ;
                }
                if is_dec_string(d) {
                    lemma_dec_value_prefix_le(d, i - start + 1);
                }
            }
            return None;
        }
        acc = acc * 10 + dv as u64;
        i = i + 1;
    }
    proof {
        assert(d.take((n - start) as int) =~= d);
    }
    Some(acc)
}

/// Drops a key that is absent or empty, as the service treats a blank
/// credential as none at all.
pub fn filter_key(key: Option<String>) -> (r: Option<String>)
    ensures
        match key {
            Some(k) => {
                if k@.len() == 0 {
                    r is None
                } else {
                    r is Some && r->0@ == k@
                }
            },
            None => r is None,
        },
{
    match key {
        Some(k) => {
            if k.as_str().unicode_len() == 0 {
                None
            } else {
                Some(k)
            }
        },
        None => None,
    }
}

/// What the port value parses to: the default when absent, otherwise the
/// decimal value when it fits a `u16`.
pub open spec fn port_of(raw: Option<Seq<char>>) -> Option<u16> {
    match raw {
        None => Some(8080u16),
        Some(s) => {
            if is_uint_string(s) && uint_value(s) <= u16::MAX {
                Some(uint_value(s) as u16)
            } else {
                None
            }
        },
    }
}

/// Parses the port value; the default port when absent.
pub fn parse_port(raw: Option<&str>) -> (r: Result<u16, ConfigError>)
    ensures
        match port_of(raw_view(raw)) {
            Some(p) => r == Ok::<u16, ConfigError>(p),
            None => r == Err::<u16, ConfigError>(ConfigError::InvalidPort),
        },
{
    match raw {
        None => Ok(8080),
        Some(s) => {
            match parse_u64(s) {
                Some(v) => {
                    if v <= u16::MAX as u64 {
                        Ok(v as u16)
                    } else {
                        Err(ConfigError::InvalidPort)
                    }
                },
                None => Err(ConfigError::InvalidPort),
            }
        },
    }
}

pub open spec fn raw_view(raw: Option<&str>) -> Option<Seq<char>> {
    match raw {
        None => None,
        Some(s) => Some(s@),
    }
}

/// What the request-size value parses to, scaled to bytes: the default of
/// sixteen kilobytes when absent, otherwise the decimal value times 1024
/// when that product fits a `u64`.
pub open spec fn max_request_size_of(raw: Option<Seq<char>>) -> Option<u64> {
    match raw {
        None => Some((16 * 1024) as u64),
        Some(s) => {
            if is_uint_string(s) && uint_value(s) * 1024 <= u64::MAX {
                Some((uint_value(s) * 1024) as u64)
            } else {
                None
            }
        },
    }
}

/// Parses the request-size cap, given in kilobytes; the default when absent.
pub fn parse_max_request_size(raw: Option<&str>) -> (r: Result<u64, ConfigError>)
    ensures
        match max_request_size_of(raw_view(raw)) {
            Some(m) => r == Ok::<u64, ConfigError>(m),
            None => r == Err::<u64, ConfigError>(ConfigError::InvalidMaxRequestSize),
        },
{
    match raw {
        None => Ok(16 * 1024),
        Some(s) => {
            match parse_u64(s) {
                Some(v) => {
                    if v <= u64::MAX / 1024 {
                        assert(v * 1024 <= u64::MAX) by (nonlinear_arith)
                            requires
                                v <= u64::MAX / 1024,
                        ;
                        Ok(v * 1024)
                    } else {
                        proof {
                            assert(v * 1024 > u64::MAX) by (nonlinear_arith)
                                requires
                                    v > u64::MAX / 1024,
                            ;
                        }
                        Err(ConfigError::InvalidMaxRequestSize)
                    }
                },
                None => Err(ConfigError::InvalidMaxRequestSize),
            }
        },
    }
}

/// Assembles the configuration from the raw environment values, the port
/// checked first. Credentials that are absent or empty are dropped.
pub fn build_config(
    port_raw: Option<String>,
    etherscan_key: Option<String>,
    api_key: Option<String>,
    max_request_size_raw: Option<String>,
) -> (r: Result<Config, ConfigError>)
    ensures
        match port_of(owned_view(port_raw)) {
            None => r == Err::<Config, ConfigError>(ConfigError::InvalidPort),
            Some(p) => match max_request_size_of(owned_view(max_request_size_raw)) {
                None => r == Err::<Config, ConfigError>(ConfigError::InvalidMaxRequestSize),
                Some(m) => {
                    &&& r is Ok
                    &&& r->Ok_0.port == p
                    &&& r->Ok_0.max_request_size == m
                    &&& key_view(r->Ok_0.etherscan_key) == filtered_key(owned_view(etherscan_key))
                    &&& key_view(r->Ok_0.api_key) == filtered_key(owned_view(api_key))
                },
            },
        },
{
    let port = match parse_port(as_deref(&port_raw)) {
        Ok(p) => p,
        Err(e) => {
            return Err(e);
        },
    };
    let max_request_size = match parse_max_request_size(as_deref(&max_request_size_raw)) {
        Ok(m) => m,
        Err(e) => {
            return Err(e);
        },
    };
    Ok(Config {
        port,
        etherscan_key: filter_key(etherscan_key),
        api_key: filter_key(api_key),
        max_request_size,
    })
}

pub open spec fn owned_view(raw: Option<String>) -> Option<Seq<char>> {
    match raw {
        None => None,
        Some(s) => Some(s@),
    }
}

pub open spec fn key_view(key: Option<String>) -> Option<Seq<char>> {
    match key {
        None => None,
        Some(s) => Some(s@),
    }
}

/// The key that survives the blank filter, if any.
pub open spec fn filtered_key(key: Option<Seq<char>>) -> Option<Seq<char>> {
    match key {
        Some(s) => if s.len() == 0 {
            None
        } else {
            Some(s)
        },
        None => None,
    }
}

fn as_deref(raw: &Option<String>) -> (r: Option<&str>)
    ensures
        raw_view(r) == owned_view(*raw),
{
    match raw {
        Some(s) => Some(s.as_str()),
        None => None,
    }
}

} // verus!

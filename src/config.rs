//! Process configuration, built from the values the environment provides.
use crate::constants::{DEFAULT_MAX_CONSUMER_COUNT, DEFAULT_MAX_REDIS_POOL_SIZE};
use vstd::prelude::*;

verus! {

/// Whether a character is an ASCII decimal digit.
pub open spec fn is_digit(c: char) -> bool {
    '0' <= c && c <= '9'
}

/// The number that a non-empty run of decimal digits denotes.
pub open spec fn digits_value(s: Seq<char>) -> int
    decreases s.len(),
{
    if s.len() == 0 {
        0
    } else {
        digits_value(s.drop_last()) * 10 + (s.last() as int - '0' as int)
    }
}

/// Whether every character is a decimal digit.
pub open spec fn all_digits(t: Seq<char>) -> bool {
    forall|i: int| 0 <= i < t.len() ==> is_digit(#[trigger] t[i])
}

/// The text after an optional leading `+`.
pub open spec fn unsigned_part(s: Seq<char>) -> Seq<char> {
    if s.len() > 0 && s[0] == '+' {
        s.drop_first()
    } else {
        s
    }
}

/// What `usize` parsing accepts: an optional `+`, then one or more decimal
/// digits whose value fits in a `usize`.
pub open spec fn usize_parse(s: Seq<char>) -> Option<int> {
    let t = unsigned_part(s);
    if t.len() > 0 && all_digits(t) && digits_value(t) <= usize::MAX {
        Some(digits_value(t))
    } else {
        None
    }
}

proof fn lemma_digits_value_nonneg(t: Seq<char>)
    requires
        all_digits(t),
    ensures
        digits_value(t) >= 0,
    decreases t.len(),
{
    if t.len() > 0 {
        lemma_digits_value_nonneg(t.drop_last());
    }
}

proof fn lemma_digits_value_prefix(t: Seq<char>, j: int)
    requires
        all_digits(t),
        0 <= j <= t.len(),
    ensures
        digits_value(t.subrange(0, j)) <= digits_value(t),
    decreases t.len(),
{
    if j == t.len() {
        assert(t.subrange(0, j) =~= t);
    } else {
        let init = t.drop_last();
        lemma_digits_value_prefix(init, j);
        lemma_digits_value_nonneg(init);
        assert(init.subrange(0, j) =~= t.subrange(0, j));
    }
}

/// Parses a `usize` as `str::parse` does: an optional `+`, then one or more
/// decimal digits whose value fits.
pub fn parse_usize(s: &str) -> (r: Option<usize>)
    ensures
        r matches Some(n) ==> usize_parse(s@) == Some(n as int),
        r is None ==> usize_parse(s@) is None,
{
    let n = s.unicode_len();
    let mut start: usize = 0;
    if n > 0 && s.get_char(0) == '+' {
        start = 1;
    }
    proof {
        if n > 0 {
            assert(s@[0] == s@.index(0));
        }
    }
    let ghost t = unsigned_part(s@);
    proof {
        assert(t =~= s@.subrange(start as int, n as int));
    }
    if start >= n {
        return None;
    }
    let mut i: usize = start;
    let mut v: usize = 0;
    while i < n
        invariant
            n == s@.len(),
            start < n,
            start <= i <= n,
            t == s@.subrange(start as int, n as int),
            t == unsigned_part(s@),
            forall|k: int| 0 <= k < i - start ==> is_digit(#[trigger] t[k]),
            v as int == digits_value(t.subrange(0, i - start)),
        decreases n - i,
    {
        let c = s.get_char(i);
        proof {
            assert(t[i - start] == c);
        }
        if !('0' <= c && c <= '9') {
            proof {
                assert(!is_digit(t[i - start]));
                assert(!all_digits(t));
            }
            return None;
        }
        let d: usize = (c as u32 - '0' as u32) as usize;
        proof {
            assert(t.subrange(0, i - start + 1).drop_last() =~= t.subrange(0, i - start));
            assert(t.subrange(0, i - start + 1).last() == c);
        }
        if v > (usize::MAX - d) / 10 {
            proof {
                assert(v * 10 + d > usize::MAX);
                assert(digits_value(t.subrange(0, i - start + 1)) == v * 10 + d);
                if all_digits(t) {
                    lemma_digits_value_prefix(t, i - start + 1);
                    assert(digits_value(t) > usize::MAX);
                }
            }
            return None;
        }
        v = v * 10 + d;
        i += 1;
    }
    proof {
        assert(t.subrange(0, t.len() as int) =~= t);
    }
    Some(v)
}

/// The value of an optional setting: its parsed number, or `default` when it
/// is absent or not a number.
pub open spec fn setting_value(v: Option<Seq<char>>, default: int) -> int {
    match v {
        Some(s) => match usize_parse(s) {
            Some(n) => n,
            None => default,
        },
        None => default,
    }
}

fn setting_or(v: &Option<String>, default: usize) -> (r: usize)
    ensures
        r == setting_value(
            match v {
                Some(s) => Some(s@),
                None => None,
            },
            default as int,
        ),
{
    match v {
        Some(s) => match parse_usize(s.as_str()) {
            Some(n) => n,
            None => default,
        },
        None => default,
    }
}

/// Broker settings.
#[derive(Debug, Clone)]
pub struct RedisConfig {
    /// Connection string of the broker.
    pub redis_conn_str: String,
    /// Cap on the number of broker connections.
    pub max_redis_pool_size: usize,
    /// Number of consumers started per stream.
    pub max_consumer_count: usize,
}

/// Settings of the whole process.
#[derive(Debug, Clone)]
pub struct AppConfig {
    /// Connection string of the relational store, handed to the HTTP layer.
    pub postgresql_conn_str: String,
    pub redis: RedisConfig,
}

impl AppConfig {
    /// The configuration from the two connection strings and the optional
    /// overrides of the pool size and of the connection cap. An override
    /// that is absent or not a number gives way to the default.
    pub fn from_values(
        postgresql_conn_str: String,
        redis_conn_str: String,
        max_consumer_count: Option<String>,
        max_redis_pool_size: Option<String>,
    ) -> (r: AppConfig)
        ensures
            r.postgresql_conn_str == postgresql_conn_str,
            r.redis.redis_conn_str == redis_conn_str,
            r.redis.max_consumer_count == setting_value(
                match max_consumer_count {
                    Some(s) => Some(s@),
                    None => None,
                },
                DEFAULT_MAX_CONSUMER_COUNT as int,
            ),
            r.redis.max_redis_pool_size == setting_value(
                match max_redis_pool_size {
                    Some(s) => Some(s@),
                    None => None,
                },
                DEFAULT_MAX_REDIS_POOL_SIZE as int,
            ),
    {
        let consumers = setting_or(&max_consumer_count, DEFAULT_MAX_CONSUMER_COUNT);
        let pool = setting_or(&max_redis_pool_size, DEFAULT_MAX_REDIS_POOL_SIZE);
        AppConfig {
            postgresql_conn_str,
            redis: RedisConfig { redis_conn_str, max_redis_pool_size: pool, max_consumer_count: consumers },
        }
    }
}

} // verus!

use vstd::prelude::*;
use crate::error::AppError;

verus! {

/// Where the service stores its data, where it listens, and which origin
/// may call it.
#[derive(Debug)]
pub struct Config {
    pub database_url: String,
    pub host: String,
    pub port: u16,
    pub cors_origin: String,
}

pub const DEFAULT_DATABASE_URL: &'static str = "sqlite:./data/realestate.db";

pub const DEFAULT_HOST: &'static str = "0.0.0.0";

pub const DEFAULT_PORT: u16 = 3000;

pub const DEFAULT_CORS_ORIGIN: &'static str = "http://localhost:5173";

pub open spec fn is_digit(c: char) -> bool {
    '0' <= c <= '9'
}

/// The number that a run of decimal digits denotes.
pub open spec fn digits_value(s: Seq<char>) -> nat
    decreases s.len(),
{
    if s.len() == 0 {
        0
    } else {
        digits_value(s.drop_last()) * 10 + (s.last() as nat - '0' as nat) as nat
    }
}

/// The text after an optional leading `+`.
pub open spec fn port_digits(s: Seq<char>) -> Seq<char> {
    if s.len() > 0 && s[0] == '+' {
        s.skip(1)
    } else {
        s
    }
}

pub open spec fn all_digits(d: Seq<char>) -> bool {
    forall|i: int| 0 <= i < d.len() ==> is_digit(#[trigger] d[i])
}

/// A port number as text: decimal digits, at least one, after an optional
/// `+`, denoting at most 65535.
pub open spec fn port_of(s: Seq<char>) -> Option<u16> {
    let d = port_digits(s);
    if d.len() > 0 && all_digits(d) && digits_value(d) <= 65535 {
        Some(digits_value(d) as u16)
    } else {
        None
    }
}

proof fn lemma_digits_value_grows(s: Seq<char>, i: int)
    requires
        0 <= i <= s.len(),
        forall|k: int| 0 <= k < s.len() ==> is_digit(#[trigger] s[k]),
    ensures
        digits_value(s.subrange(0, i)) <= digits_value(s),
    decreases s.len() - i,
{
    if i < s.len() {
        lemma_digits_value_grows(s, i + 1);
        assert(s.subrange(0, i + 1).drop_last() =~= s.subrange(0, i));
    } else {
        assert(s.subrange(0, i) =~= s);
    }
}

/// Reads a port number.
pub fn parse_port(s: &str) -> (r: Option<u16>)
    ensures
        r == port_of(s@),
{
    let n = s.unicode_len();
    let start: usize = if n > 0 && s.get_char(0) == '+' {
        1
    } else {
        0
    };
    let ghost d = port_digits(s@);
    assert(d =~= s@.subrange(start as int, n as int));
    if start == n {
        return None;
    }
    let mut value: u32 = 0;
    let mut i: usize = start;
    while i < n
        invariant
            start <= i <= n,
            n == s@.len(),
            d == s@.subrange(start as int, n as int),
            d == port_digits(s@),
            forall|k: int| start <= k < i ==> is_digit(#[trigger] s@[k]),
            value == digits_value(s@.subrange(start as int, i as int)),
            value <= 65535,
        decreases n - i,
    {
        let c = s.get_char(i);
        assert(d[i - start] == c);
        if !('0' <= c && c <= '9') {
            assert(!all_digits(d));
            return None;
        }
        let next = value * 10 + (c as u32 - '0' as u32);
        assert(s@.subrange(start as int, i + 1).drop_last() =~= s@.subrange(start as int, i as int));
        assert(next == digits_value(s@.subrange(start as int, i + 1)));
        if next > 65535 {
            proof {
                if all_digits(d) {
                    lemma_digits_value_grows(d, i + 1 - start);
                    assert(d.subrange(0, i + 1 - start) =~= s@.subrange(start as int, i + 1));
                }
            }
            return None;
        }
        value = next;
        i += 1;
    }
    assert(d.subrange(0, d.len() as int) =~= d);
    assert forall|k: int| 0 <= k < d.len() implies is_digit(#[trigger] d[k]) by {
        assert(d[k] == s@[k + start]);
    }
    Some(value as u16)
}

impl Config {
    /// The configuration from its settings, each optional: an unset one takes
    /// its default. A port that does not read as a port is a
    /// configuration error.
    pub fn from_values(
        database_url: Option<String>,
        host: Option<String>,
        port: Option<String>,
        cors_origin: Option<String>,
    ) -> (r: Result<Config, AppError>)
        ensures
            match port {
                Some(p) => port_of(p@) is None <==> r is Err,
                None => r is Ok,
            },
            r is Err ==> r->Err_0 is Config,
            r is Ok ==> {
                let c = r->Ok_0;
                &&& c.database_url@ == match database_url {
                    Some(u) => u@,
                    None => DEFAULT_DATABASE_URL@,
                }
                &&& c.host@ == match host {
                    Some(h) => h@,
                    None => DEFAULT_HOST@,
                }
                &&& c.port == match port {
                    Some(p) => port_of(p@).unwrap(),
                    None => DEFAULT_PORT,
                }
                &&& c.cors_origin@ == match cors_origin {
                    Some(o) => o@,
                    None => DEFAULT_CORS_ORIGIN@,
                }
            },
    {
        let port = match port {
            Some(p) => match parse_port(p.as_str()) {
                Some(n) => n,
                None => {
                    return Err(AppError::Config(String::from_str("Invalid PORT")));
                },
            },
            None => DEFAULT_PORT,
        };
        Ok(Config {
            database_url: match database_url {
                Some(u) => u,
                None => String::from_str(DEFAULT_DATABASE_URL),
            },
            host: match host {
                Some(h) => h,
                None => String::from_str(DEFAULT_HOST),
            },
            port,
            cors_origin: match cors_origin {
                Some(o) => o,
                None => String::from_str(DEFAULT_CORS_ORIGIN),
            },
        })
    }
}

} // verus!

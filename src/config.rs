use vstd::prelude::*;

use crate::token::AuthConfig;

verus! {

/// Process configuration, read once at startup and handed to each component.
/// Durations are in seconds.
#[derive(Clone, Debug)]
pub struct EnvConfig {
    pub database_url: String,
    pub access_secret: String,
    pub refresh_secret: String,
    pub access_token_duration: i64,
    pub refresh_token_duration: i64,
    pub redis_host: String,
    pub redis_port: u16,
    pub redis_password: Option<String>,
    pub email_host: String,
    pub email_user: String,
    pub email_password: String,
    pub email_port: String,
    pub server_address: String,
    pub smtp_from: String,
    pub app_name: String,
    pub secret_key: String,
}

impl EnvConfig {
    /// The part of the configuration that token issuance and secret hashing use.
    pub fn auth_config(&self, password_cost: u32) -> (r: AuthConfig)
        ensures
            r.access_secret@ == self.access_secret@,
            r.refresh_secret@ == self.refresh_secret@,
            r.access_token_duration == self.access_token_duration,
            r.refresh_token_duration == self.refresh_token_duration,
            r.password_cost == password_cost,
    {
        AuthConfig {
            access_secret: self.access_secret.clone(),
            refresh_secret: self.refresh_secret.clone(),
            access_token_duration: self.access_token_duration,
            refresh_token_duration: self.refresh_token_duration,
            password_cost,
        }
    }
}

pub open spec fn digit_char(d: nat) -> char {
    if d == 0 { '0' } else if d == 1 { '1' } else if d == 2 { '2' } else if d == 3 { '3' }
    else if d == 4 { '4' } else if d == 5 { '5' } else if d == 6 { '6' } else if d == 7 { '7' }
    else if d == 8 { '8' } else { '9' }
}

/// The decimal digits of `n`, without leading zeros.
pub open spec fn decimal(n: nat) -> Seq<char>
    decreases n,
{
    if n < 10 {
        seq![digit_char(n)]
    } else {
        decimal(n / 10) + seq![digit_char(n % 10)]
    }
}

fn digit_str(d: u64) -> (r: &'static str)
    requires
        d < 10,
    ensures
        r@ == seq![digit_char(d as nat)],
{
    let s = if d == 0 { "0" } else if d == 1 { "1" } else if d == 2 { "2" } else if d == 3 { "3" }
        else if d == 4 { "4" } else if d == 5 { "5" } else if d == 6 { "6" } else if d == 7 { "7" }
        else if d == 8 { "8" } else { "9" };
    proof {
        reveal_strlit("0");
        reveal_strlit("1");
        reveal_strlit("2");
        reveal_strlit("3");
        reveal_strlit("4");
        reveal_strlit("5");
        reveal_strlit("6");
        reveal_strlit("7");
        reveal_strlit("8");
        reveal_strlit("9");
    }
    assert(s@ =~= seq![digit_char(d as nat)]);
    s
}

/// Renders `n` in decimal.
pub fn to_decimal(n: u64) -> (r: String)
    ensures
        r@ == decimal(n as nat),
    decreases n,
{
    if n < 10 {
        String::from_str(digit_str(n))
    } else {
        let mut s = to_decimal(n / 10);
        s.append(digit_str(n % 10));
        s
    }
}

pub open spec fn is_digit_char(c: char) -> bool {
    '0' <= c && c <= '9'
}

/// The value of a string of decimal digits (leading zeros allowed).
pub open spec fn digits_value(s: Seq<char>) -> nat
    decreases s.len(),
{
    if s.len() == 0 {
        0
    } else {
        digits_value(s.drop_last()) * 10 + ((s.last() as u32 - '0' as u32) as nat)
    }
}

/// `s` is a non-empty string of decimal digits.
pub open spec fn is_number(s: Seq<char>) -> bool {
    s.len() > 0 && forall|i: int| 0 <= i < s.len() ==> is_digit_char(#[trigger] s[i])
}

proof fn lemma_digits_value_grows(s: Seq<char>, j: int, k: int)
    requires
        0 <= j <= k <= s.len(),
        forall|i: int| 0 <= i < s.len() ==> is_digit_char(#[trigger] s[i]),
    ensures
        digits_value(s.take(j)) <= digits_value(s.take(k)),
    decreases k - j,
{
    if j < k {
        lemma_digits_value_grows(s, j, k - 1);
        assert(s.take(k).drop_last() =~= s.take(k - 1));
    }
}

/// Reads a non-empty string of decimal digits; `None` for anything else or a value
/// beyond 64 bits.
pub fn parse_decimal(s: &str) -> (r: Option<u64>)
    ensures
        r is Some <==> is_number(s@) && digits_value(s@) <= u64::MAX,
        r matches Some(n) ==> n == digits_value(s@),
{
    let len = s.unicode_len();
    if len == 0 {
        return None;
    }
    let mut n: u64 = 0;
    let mut i: usize = 0;
    while i < len
        invariant
            len == s@.len(),
            i <= len,
            forall|j: int| 0 <= j < i ==> is_digit_char(#[trigger] s@[j]),
            n == digits_value(s@.take(i as int)),
        decreases len - i,
    {
        let c = s.get_char(i);
        assert(s@.take(i + 1).drop_last() =~= s@.take(i as int));
        if !('0' <= c && c <= '9') {
            return None;
        }
        let d = (c as u32 - '0' as u32) as u64;
        if n > (u64::MAX - d) / 10 {
            proof {
                if is_number(s@) {
                    lemma_digits_value_grows(s@, i + 1, s@.len() as int);
                    assert(s@.take(s@.len() as int) =~= s@);
                }
            }
            return None;
        }
        n = n * 10 + d;
        i = i + 1;
    }
    assert(s@.take(len as int) =~= s@);
    Some(n)
}

/// A lifetime in seconds: a positive number that fits in 63 bits.
pub fn parse_duration(s: &str) -> (r: Option<i64>)
    ensures
        r is Some <==> is_number(s@) && 0 < digits_value(s@) <= i64::MAX,
        r matches Some(n) ==> n == digits_value(s@),
{
    match parse_decimal(s) {
        Some(n) => {
            if n > 0 && n <= i64::MAX as u64 {
                Some(n as i64)
            } else {
                None
            }
        },
        None => None,
    }
}

/// A TCP port number.
pub fn parse_port(s: &str) -> (r: Option<u16>)
    ensures
        r is Some <==> is_number(s@) && digits_value(s@) <= u16::MAX,
        r matches Some(n) ==> n == digits_value(s@),
{
    match parse_decimal(s) {
        Some(n) => {
            if n <= u16::MAX as u64 {
                Some(n as u16)
            } else {
                None
            }
        },
        None => None,
    }
}

/// The connection URL of the key-value store: `redis://[:password@]host:port/`.
pub open spec fn redis_url_spec(host: Seq<char>, port: u16, password: Option<Seq<char>>) -> Seq<char> {
    match password {
        Some(pw) => "redis://:"@ + pw + "@"@ + host + ":"@ + decimal(port as nat) + "/"@,
        None => "redis://"@ + host + ":"@ + decimal(port as nat) + "/"@,
    }
}

pub fn redis_url(host: &str, port: u16, password: Option<&str>) -> (r: String)
    ensures
        r@ == redis_url_spec(host@, port, match password { Some(p) => Some(p@), None => None }),
{
    let port_str = to_decimal(port as u64);
    let mut url = match password {
        Some(pw) => {
            let mut u = String::from_str("redis://:");
            u.append(pw);
            u.append("@");
            u
        },
        None => String::from_str("redis://"),
    };
    url.append(host);
    url.append(":");
    url.append(port_str.as_str());
    url.append("/");
    url
}

#[verifier::external_type_specification]
#[verifier::external_body]
pub struct ExRedisClient(redis::Client);

#[verifier::external_type_specification]
#[verifier::external_body]
pub struct ExRedisError(redis::RedisError);

/// Relies on `redis::Client::open`: checks the URL without connecting.
#[verifier::external_body]
fn open_client(url: &str) -> (r: Result<redis::Client, redis::RedisError>) {
    redis::Client::open(url)
}

/// A client of the key-value store, not yet connected.
pub struct RedisClient {
    pub client: redis::Client,
}

impl RedisClient {
    /// A client for the store that the configuration names.
    pub fn new(config: &EnvConfig) -> (r: Result<RedisClient, redis::RedisError>) {
        let password = match &config.redis_password {
            Some(pw) => Some(pw.as_str()),
            None => None,
        };
        let url = redis_url(config.redis_host.as_str(), config.redis_port, password);
        match open_client(url.as_str()) {
            Ok(client) => Ok(RedisClient { client }),
            Err(e) => Err(e),
        }
    }
}

} // verus!

use vstd::prelude::*;

use rand::Rng;

use crate::store::lookup;

verus! {

/// The namespace of one-time codes in the key-value store.
pub const OTP_PREFIX: &'static str = "otp:";

/// The length of the codes sent by email.
pub const OTP_LENGTH: usize = 6;

pub open spec fn is_code_char(c: char) -> bool {
    ('A' <= c && c <= 'Z') || ('a' <= c && c <= 'z') || ('0' <= c && c <= '9')
}

/// A well-formed code: `length` ASCII letters and digits.
pub open spec fn is_code(s: Seq<char>, length: nat) -> bool {
    s.len() == length && forall|i: int| 0 <= i < s.len() ==> is_code_char(#[trigger] s[i])
}

/// The store key of the outstanding code for `email`.
pub open spec fn otp_key_spec(email: Seq<char>) -> Seq<char> {
    OTP_PREFIX@ + email
}

/// The store `m` holds `code` as the outstanding code for `email`.
pub open spec fn otp_accepts(m: Map<Seq<char>, Seq<char>>, email: Seq<char>, code: Seq<char>) -> bool {
    lookup(m, otp_key_spec(email)) == Some(code)
}

/// Relies on rand 0.9: `rng().sample_iter(&Alphanumeric).take(length)` draws `length`
/// characters uniformly from the 62 ASCII letters and digits.
#[verifier::external_body]
fn random_alphanumeric(length: usize) -> (r: String)
    ensures
        is_code(r@, length as nat),
{
    rand::rng().sample_iter(&rand::distr::Alphanumeric).take(length).map(char::from).collect()
}

/// The store key under which the outstanding code for `email` lives.
pub fn otp_key(email: &str) -> (r: String)
    ensures
        r@ == otp_key_spec(email@),
{
    let mut key = String::from_str(OTP_PREFIX);
    key.append(email);
    key
}

/// Generates and checks email one-time codes.
pub struct OtpEmail;

impl OtpEmail {
    pub fn init() -> (r: OtpEmail) {
        OtpEmail
    }

    /// A uniformly random code of `length` ASCII letters and digits.
    pub fn generate_code(&self, length: usize) -> (r: String)
        ensures
            is_code(r@, length as nat),
    {
        random_alphanumeric(length)
    }

    /// A fresh code and the time, in seconds since the epoch, at which it stops being
    /// valid, `validity_minutes` after `now`.
    pub fn create_otp_at(&self, length: usize, validity_minutes: u64, now: u64) -> (r: (String, u64))
        requires
            now + validity_minutes * 60 <= u64::MAX,
        ensures
            is_code(r.0@, length as nat),
            r.1 == now + validity_minutes * 60,
    {
        let code = self.generate_code(length);
        (code, now + validity_minutes * 60)
    }

    /// A fresh code and its expiry relative to the current time; `None` when the expiry
    /// does not fit in 64 bits.
    pub fn create_otp(&self, length: usize, validity_minutes: u64) -> (r: Option<(String, u64)>)
        ensures
            r matches Some(p) ==> is_code(p.0@, length as nat),
            validity_minutes > u64::MAX / 60 ==> r is None,
            validity_minutes <= i64::MAX / 60 ==> r is Some,
    {
        let now = crate::token::now_unix();
        if validity_minutes > u64::MAX / 60 {
            return None;
        }
        let now = now as u64;
        if now > u64::MAX - validity_minutes * 60 {
            return None;
        }
        Some(self.create_otp_at(length, validity_minutes, now))
    }

    /// A supplied code is accepted exactly when it equals the stored one. Codes of equal
    /// length are compared in full, whatever position first differs.
    pub fn verify_otp(&self, email: &str, existing: &str, user_input_code: &str) -> (r: bool)
        ensures
            r == (existing@ == user_input_code@),
    {
        let n = existing.unicode_len();
        if n != user_input_code.unicode_len() {
            return false;
        }
        let mut diff: u32 = 0;
        let mut i: usize = 0;
        assert(existing@.take(0) =~= user_input_code@.take(0));
        while i < n
            invariant
                n == existing@.len(),
                n == user_input_code@.len(),
                i <= n,
                (diff == 0) == (existing@.take(i as int) =~= user_input_code@.take(i as int)),
            decreases n - i,
        {
            let a = existing.get_char(i);
            let b = user_input_code.get_char(i);
            assert(existing@.take(i + 1) == existing@.take(i as int).push(a));
            assert(user_input_code@.take(i + 1) == user_input_code@.take(i as int).push(b));
            let x: u32 = (a as u32) ^ (b as u32);
            let d: u32 = diff;
            assert((d | x) == 0 <==> (d == 0 && x == 0)) by (bit_vector);
            let (au, bu) = (a as u32, b as u32);
            assert((au ^ bu) == 0 <==> au == bu) by (bit_vector);
            diff = diff | x;
            proof {
                let p = existing@.take(i as int);
                let q = user_input_code@.take(i as int);
                if p.push(a) =~= q.push(b) {
                    assert(p.push(a)[i as int] == q.push(b)[i as int]);
                    assert(p =~= q) by {
                        assert forall|j: int| 0 <= j < p.len() implies p[j] == q[j] by {
                            assert(p.push(a)[j] == q.push(b)[j]);
                        }
                    }
                }
            }
            i = i + 1;
        }
        assert(existing@.take(n as int) =~= existing@);
        assert(user_input_code@.take(n as int) =~= user_input_code@);
        diff == 0
    }
}

pub fn email_otp() -> (r: OtpEmail) {
    OtpEmail::init()
}

/// A stored code is accepted once; after its record is deleted the same code is refused.
pub proof fn lemma_otp_single_use(m: Map<Seq<char>, Seq<char>>, email: Seq<char>, code: Seq<char>)
    requires
        otp_accepts(m, email, code),
    ensures
        !otp_accepts(m.remove(otp_key_spec(email)), email, code),
{
}

} // verus!

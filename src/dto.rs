use vstd::prelude::*;

use validator::ValidateEmail;

use vstd::string::StringSliceAdditionalSpecFns;
use vstd::utf8::encode_utf8;

verus! {

/// `validator`'s email check (the HTML5 form of an address, with length limits on
/// both parts) accepts the text.
pub uninterp spec fn email_valid(s: Seq<char>) -> bool;

/// Relies on `validator::ValidateEmail::validate_email` on a `&str`: a function of the
/// text alone; the empty text is refused.
#[verifier::external_body]
fn check_email(s: &str) -> (r: bool)
    ensures
        r == email_valid(s@),
        s@.len() == 0 ==> !r,
{
    s.validate_email()
}

pub const MSG_NAME_EMPTY: &'static str = "Name cannot be empty";

pub const MSG_EMAIL_FORMAT: &'static str = "Invalid email format";

pub const MSG_EMAIL_INVALID: &'static str = "email is invalid";

pub const MSG_PASSWORD_LENGTH: &'static str = "Password must be at least 8 characters long";

pub const MSG_PASSWORD_COMPLEXITY: &'static str =
    "Password must have at least 8 characters, uppercase, lowercase, number, and special character";

pub const MSG_TOKEN_EMPTY: &'static str = "Token cannot be empty";

pub const MSG_OTP_LENGTH: &'static str = "OTP must be exactly 6 digits";

pub open spec fn is_lower(c: char) -> bool {
    'a' <= c && c <= 'z'
}

pub open spec fn is_upper(c: char) -> bool {
    'A' <= c && c <= 'Z'
}

pub open spec fn is_digit(c: char) -> bool {
    '0' <= c && c <= '9'
}

/// At least eight bytes in UTF-8, with an ASCII lowercase letter, an ASCII uppercase
/// letter, an ASCII digit, and a character that is none of those.
pub open spec fn strong_password(pw: Seq<char>) -> bool {
    &&& encode_utf8(pw).len() >= 8
    &&& exists|i: int| 0 <= i < pw.len() && is_lower(#[trigger] pw[i])
    &&& exists|i: int| 0 <= i < pw.len() && is_upper(#[trigger] pw[i])
    &&& exists|i: int| 0 <= i < pw.len() && is_digit(#[trigger] pw[i])
    &&& exists|i: int| 0 <= i < pw.len() && !is_lower(#[trigger] pw[i]) && !is_upper(pw[i]) && !is_digit(pw[i])
}

fn validate_password(pw: &str) -> (r: bool)
    ensures
        r == strong_password(pw@),
{
    let bytes = pw.as_bytes().len();
    assert(pw.spec_bytes() == encode_utf8(pw@));
    if bytes < 8 {
        return false;
    }
    let n = pw.unicode_len();
    let mut has_lower = false;
    let mut has_upper = false;
    let mut has_digit = false;
    let mut has_symbol = false;
    let mut i: usize = 0;
    while i < n
        invariant
            n == pw@.len(),
            i <= n,
            has_lower == exists|j: int| 0 <= j < i && is_lower(#[trigger] pw@[j]),
            has_upper == exists|j: int| 0 <= j < i && is_upper(#[trigger] pw@[j]),
            has_digit == exists|j: int| 0 <= j < i && is_digit(#[trigger] pw@[j]),
            has_symbol == exists|j: int| 0 <= j < i && !is_lower(#[trigger] pw@[j]) && !is_upper(pw@[j]) && !is_digit(pw@[j]),
        decreases n - i,
    {
        let c = pw.get_char(i);
        if 'a' <= c && c <= 'z' {
            has_lower = true;
        } else if 'A' <= c && c <= 'Z' {
            has_upper = true;
        } else if '0' <= c && c <= '9' {
            has_digit = true;
        } else {
            has_symbol = true;
        }
        i = i + 1;
    }
    has_lower && has_upper && has_digit && has_symbol
}

/// Checks the complexity rule; the error is the rule's code.
pub fn password_validator(password: &str) -> (r: Result<(), String>)
    ensures
        r is Ok <==> strong_password(password@),
        r matches Err(code) ==> code@ == "password_complexity"@,
{
    if !validate_password(password) {
        return Err(String::from_str("password_complexity"));
    }
    Ok(())
}

/// The messages of the checks that failed on one field, in the order the checks are listed.
#[derive(Clone, Debug)]
pub struct FieldError {
    pub field: String,
    pub messages: Vec<String>,
}

pub open spec fn field_error_view(e: FieldError) -> (Seq<char>, Seq<Seq<char>>) {
    (e.field@, e.messages@.map_values(|m: String| m@))
}

pub open spec fn errors_view(errs: Seq<FieldError>) -> Seq<(Seq<char>, Seq<Seq<char>>)> {
    errs.map_values(|e: FieldError| field_error_view(e))
}

/// The entry of one field: present only when some check on it failed.
pub open spec fn field_entry(field: Seq<char>, msgs: Seq<Seq<char>>) -> Seq<(Seq<char>, Seq<Seq<char>>)> {
    if msgs.len() == 0 {
        Seq::empty()
    } else {
        seq![(field, msgs)]
    }
}

pub open spec fn msg_if(failed: bool, msg: Seq<char>) -> Seq<Seq<char>> {
    if failed {
        seq![msg]
    } else {
        Seq::empty()
    }
}

pub open spec fn name_msgs(name: Seq<char>) -> Seq<Seq<char>> {
    msg_if(name.len() < 1, MSG_NAME_EMPTY@)
}

pub open spec fn email_msgs(email: Seq<char>, msg: Seq<char>) -> Seq<Seq<char>> {
    msg_if(!email_valid(email), msg)
}

pub open spec fn password_msgs(pw: Seq<char>) -> Seq<Seq<char>> {
    msg_if(pw.len() < 8, MSG_PASSWORD_LENGTH@) + msg_if(!strong_password(pw), MSG_PASSWORD_COMPLEXITY@)
}

pub open spec fn otp_msgs(otp: Seq<char>) -> Seq<Seq<char>> {
    msg_if(otp.len() != 6, MSG_OTP_LENGTH@)
}

fn one_if(failed: bool, msg: &str) -> (r: Vec<String>)
    ensures
        r@.map_values(|m: String| m@) == msg_if(failed, msg@),
{
    let mut v: Vec<String> = Vec::new();
    if failed {
        v.push(String::from_str(msg));
        assert(v@.map_values(|m: String| m@) =~= seq![msg@]);
    } else {
        assert(v@.map_values(|m: String| m@) =~= Seq::<Seq<char>>::empty());
    }
    v
}

fn email_messages(email: &str, msg: &str) -> (r: Vec<String>)
    ensures
        r@.map_values(|m: String| m@) == email_msgs(email@, msg@),
{
    one_if(!check_email(email), msg)
}

fn password_messages(pw: &str) -> (r: Vec<String>)
    ensures
        r@.map_values(|m: String| m@) == password_msgs(pw@),
{
    let mut v = one_if(pw.unicode_len() < 8, MSG_PASSWORD_LENGTH);
    let ghost first = v@;
    let mut w = one_if(!validate_password(pw), MSG_PASSWORD_COMPLEXITY);
    let ghost second = w@;
    v.append(&mut w);
    assert(v@ =~= first + second);
    assert(v@.map_values(|m: String| m@) =~= first.map_values(|m: String| m@) + second.map_values(|m: String| m@));
    v
}

/// Appends the entry of `field` when `messages` is not empty.
fn add_field(errs: &mut Vec<FieldError>, field: &str, messages: Vec<String>)
    ensures
        errors_view(final(errs)@) == errors_view(old(errs)@) + field_entry(field@, messages@.map_values(|m: String| m@)),
{
    if messages.len() > 0 {
        let e = FieldError { field: String::from_str(field), messages };
        errs.push(e);
        assert(errors_view(errs@) =~= errors_view(old(errs)@) + seq![field_error_view(e)]);
    } else {
        assert(messages@.map_values(|m: String| m@) =~= Seq::<Seq<char>>::empty());
        assert(errors_view(errs@) =~= errors_view(old(errs)@) + Seq::<(Seq<char>, Seq<Seq<char>>)>::empty());
    }
}

fn finish(errs: Vec<FieldError>) -> (r: Result<(), Vec<FieldError>>)
    ensures
        r is Ok <==> errs@.len() == 0,
        r matches Err(v) ==> v@ == errs@,
{
    if errs.len() == 0 {
        Ok(())
    } else {
        Err(errs)
    }
}

pub open spec fn register_errors(name: Seq<char>, email: Seq<char>, password: Seq<char>) -> Seq<(Seq<char>, Seq<Seq<char>>)> {
    field_entry("name"@, name_msgs(name)) + field_entry("email"@, email_msgs(email, MSG_EMAIL_FORMAT@))
        + field_entry("password"@, password_msgs(password))
}

pub open spec fn login_errors(email: Seq<char>, password: Seq<char>) -> Seq<(Seq<char>, Seq<Seq<char>>)> {
    field_entry("email"@, email_msgs(email, MSG_EMAIL_INVALID@)) + field_entry("password"@, password_msgs(password))
}

pub open spec fn logout_errors(refresh_token: Seq<char>) -> Seq<(Seq<char>, Seq<Seq<char>>)> {
    field_entry("refresh_token"@, msg_if(refresh_token.len() < 1, MSG_TOKEN_EMPTY@))
}

pub open spec fn send_otp_errors(email: Seq<char>) -> Seq<(Seq<char>, Seq<Seq<char>>)> {
    field_entry("email"@, email_msgs(email, MSG_EMAIL_FORMAT@))
}

pub open spec fn verify_email_errors(email: Seq<char>, otp: Seq<char>) -> Seq<(Seq<char>, Seq<Seq<char>>)> {
    field_entry("email"@, email_msgs(email, MSG_EMAIL_FORMAT@)) + field_entry("otp"@, otp_msgs(otp))
}

pub open spec fn forgot_password_errors(email: Seq<char>, password: Seq<char>, otp: Seq<char>) -> Seq<(Seq<char>, Seq<Seq<char>>)> {
    field_entry("email"@, email_msgs(email, MSG_EMAIL_FORMAT@)) + field_entry("password"@, password_msgs(password))
        + field_entry("otp"@, otp_msgs(otp))
}

/// The field checks; `Err` lists the failing fields in declaration order.
pub open spec fn checked(r: Result<(), Vec<FieldError>>, expected: Seq<(Seq<char>, Seq<Seq<char>>)>) -> bool {
    &&& r is Ok <==> expected.len() == 0
    &&& r matches Err(v) ==> errors_view(v@) == expected
}

#[derive(Clone, Debug)]
pub struct RegisterDto {
    pub name: String,
    pub email: String,
    pub password: String,
}

#[derive(Clone, Debug)]
pub struct LoginDto {
    pub email: String,
    pub password: String,
}

#[derive(Clone, Debug)]
pub struct LogoutDto {
    pub refresh_token: String,
}

#[derive(Clone, Debug)]
pub struct SendOtpDto {
    pub email: String,
}

#[derive(Clone, Debug)]
pub struct VerifyEmailDto {
    pub email: String,
    pub otp: String,
}

#[derive(Clone, Debug)]
pub struct ForgotPasswordDto {
    pub email: String,
    pub password: String,
    pub otp: String,
}

impl RegisterDto {
    pub fn validate(&self) -> (r: Result<(), Vec<FieldError>>)
        ensures
            checked(r, register_errors(self.name@, self.email@, self.password@)),
    {
        let mut errs: Vec<FieldError> = Vec::new();
        assert(errors_view(errs@) =~= Seq::<(Seq<char>, Seq<Seq<char>>)>::empty());
        add_field(&mut errs, "name", one_if(self.name.as_str().unicode_len() < 1, MSG_NAME_EMPTY));
        add_field(&mut errs, "email", email_messages(self.email.as_str(), MSG_EMAIL_FORMAT));
        add_field(&mut errs, "password", password_messages(self.password.as_str()));
        assert(errors_view(errs@) =~= register_errors(self.name@, self.email@, self.password@));
        finish(errs)
    }
}

impl LoginDto {
    pub fn validate(&self) -> (r: Result<(), Vec<FieldError>>)
        ensures
            checked(r, login_errors(self.email@, self.password@)),
    {
        let mut errs: Vec<FieldError> = Vec::new();
        assert(errors_view(errs@) =~= Seq::<(Seq<char>, Seq<Seq<char>>)>::empty());
        add_field(&mut errs, "email", email_messages(self.email.as_str(), MSG_EMAIL_INVALID));
        add_field(&mut errs, "password", password_messages(self.password.as_str()));
        assert(errors_view(errs@) =~= login_errors(self.email@, self.password@));
        finish(errs)
    }
}

impl LogoutDto {
    pub fn validate(&self) -> (r: Result<(), Vec<FieldError>>)
        ensures
            checked(r, logout_errors(self.refresh_token@)),
    {
        let mut errs: Vec<FieldError> = Vec::new();
        assert(errors_view(errs@) =~= Seq::<(Seq<char>, Seq<Seq<char>>)>::empty());
        add_field(&mut errs, "refresh_token", one_if(self.refresh_token.as_str().unicode_len() < 1, MSG_TOKEN_EMPTY));
        assert(errors_view(errs@) =~= logout_errors(self.refresh_token@));
        finish(errs)
    }
}

impl SendOtpDto {
    pub fn validate(&self) -> (r: Result<(), Vec<FieldError>>)
        ensures
            checked(r, send_otp_errors(self.email@)),
    {
        let mut errs: Vec<FieldError> = Vec::new();
        assert(errors_view(errs@) =~= Seq::<(Seq<char>, Seq<Seq<char>>)>::empty());
        add_field(&mut errs, "email", email_messages(self.email.as_str(), MSG_EMAIL_FORMAT));
        assert(errors_view(errs@) =~= send_otp_errors(self.email@));
        finish(errs)
    }
}

impl VerifyEmailDto {
    pub fn validate(&self) -> (r: Result<(), Vec<FieldError>>)
        ensures
            checked(r, verify_email_errors(self.email@, self.otp@)),
    {
        let mut errs: Vec<FieldError> = Vec::new();
        assert(errors_view(errs@) =~= Seq::<(Seq<char>, Seq<Seq<char>>)>::empty());
        add_field(&mut errs, "email", email_messages(self.email.as_str(), MSG_EMAIL_FORMAT));
        add_field(&mut errs, "otp", one_if(self.otp.as_str().unicode_len() != 6, MSG_OTP_LENGTH));
        assert(errors_view(errs@) =~= verify_email_errors(self.email@, self.otp@));
        finish(errs)
    }
}

impl ForgotPasswordDto {
    pub fn validate(&self) -> (r: Result<(), Vec<FieldError>>)
        ensures
            checked(r, forgot_password_errors(self.email@, self.password@, self.otp@)),
    {
        let mut errs: Vec<FieldError> = Vec::new();
        assert(errors_view(errs@) =~= Seq::<(Seq<char>, Seq<Seq<char>>)>::empty());
        add_field(&mut errs, "email", email_messages(self.email.as_str(), MSG_EMAIL_FORMAT));
        add_field(&mut errs, "password", password_messages(self.password.as_str()));
        add_field(&mut errs, "otp", one_if(self.otp.as_str().unicode_len() != 6, MSG_OTP_LENGTH));
        assert(errors_view(errs@) =~= forgot_password_errors(self.email@, self.password@, self.otp@));
        finish(errs)
    }
}

/// `field: m1, m2` for one field.
pub open spec fn format_field(e: (Seq<char>, Seq<Seq<char>>)) -> Seq<char> {
    e.0 + ": "@ + join(e.1, ", "@)
}

/// The parts separated by `sep`.
pub open spec fn join(parts: Seq<Seq<char>>, sep: Seq<char>) -> Seq<char>
    decreases parts.len(),
{
    if parts.len() == 0 {
        Seq::empty()
    } else if parts.len() == 1 {
        parts[0]
    } else {
        join(parts.drop_last(), sep) + sep + parts.last()
    }
}

fn join_strings(parts: &Vec<String>, sep: &str) -> (r: String)
    ensures
        r@ == join(parts@.map_values(|m: String| m@), sep@),
{
    let ghost views = parts@.map_values(|m: String| m@);
    let mut out = String::new();
    let mut i: usize = 0;
    while i < parts.len()
        invariant
            i <= parts@.len(),
            views == parts@.map_values(|m: String| m@),
            out@ == join(views.take(i as int), sep@),
        decreases parts@.len() - i,
    {
        assert(views.take(i as int + 1).drop_last() =~= views.take(i as int));
        if i > 0 {
            out.append(sep);
        }
        out.append(parts[i].as_str());
        i = i + 1;
    }
    assert(views.take(i as int) =~= views);
    out
}

/// One line for all failing fields: `field: m1, m2; other: m3`.
pub fn format_validation_errors(errors: &Vec<FieldError>) -> (r: String)
    ensures
        r@ == join(errors_view(errors@).map_values(|e: (Seq<char>, Seq<Seq<char>>)| format_field(e)), "; "@),
{
    let ghost views = errors_view(errors@).map_values(|e: (Seq<char>, Seq<Seq<char>>)| format_field(e));
    let mut out = String::new();
    let mut i: usize = 0;
    while i < errors.len()
        invariant
            i <= errors@.len(),
            views == errors_view(errors@).map_values(|e: (Seq<char>, Seq<Seq<char>>)| format_field(e)),
            out@ == join(views.take(i as int), "; "@),
        decreases errors@.len() - i,
    {
        assert(views.take(i as int + 1).drop_last() =~= views.take(i as int));
        if i > 0 {
            out.append("; ");
        }
        let e = &errors[i];
        let mut line = String::from_str(e.field.as_str());
        line.append(": ");
        let msgs = join_strings(&e.messages, ", ");
        line.append(msgs.as_str());
        out.append(line.as_str());
        i = i + 1;
    }
    assert(views.take(i as int) =~= views);
    out
}

} // verus!

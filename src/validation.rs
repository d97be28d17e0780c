use vstd::prelude::*;
use crate::model::{CreateVerificationRequest, GetPhoneRequest};

verus! {

/// A field that failed validation.
#[derive(Clone, Copy, Debug, PartialEq, Eq, Structural)]
pub enum FieldError {
    /// The username is not 2 to 100 characters long.
    Username,
    /// The verification code is not 4 to 8 characters long.
    VerificationCode,
}

/// Usernames are 2 to 100 characters long.
pub open spec fn username_ok(username: Seq<char>) -> bool {
    2 <= username.len() <= 100
}

/// Verification codes are 4 to 8 characters long.
pub open spec fn code_ok(code: Seq<char>) -> bool {
    4 <= code.len() <= 8
}

/// The failures of an upsert request, username first.
pub open spec fn request_errors(username: Seq<char>, code: Seq<char>) -> Seq<FieldError> {
    (if username_ok(username) {
        Seq::<FieldError>::empty()
    } else {
        seq![FieldError::Username]
    }) + (if code_ok(code) {
        Seq::<FieldError>::empty()
    } else {
        seq![FieldError::VerificationCode]
    })
}

/// The text of one failure.
pub open spec fn message_of(e: FieldError) -> Seq<char> {
    match e {
        FieldError::Username => "用户名长度必须在2-100字符之间"@,
        FieldError::VerificationCode => "验证码长度必须在4-8字符之间"@,
    }
}

/// The texts of `errors`, joined by ", ".
pub open spec fn joined_messages(errors: Seq<FieldError>) -> Seq<char>
    decreases errors.len(),
{
    if errors.len() == 0 {
        Seq::<char>::empty()
    } else if errors.len() == 1 {
        message_of(errors[0])
    } else {
        joined_messages(errors.drop_last()) + ", "@ + message_of(errors.last())
    }
}

impl FieldError {
    /// The text of this failure.
    pub fn message(&self) -> (r: String)
        ensures
            r@ == message_of(*self),
    {
        match self {
            FieldError::Username => String::from_str("用户名长度必须在2-100字符之间"),
            FieldError::VerificationCode => String::from_str("验证码长度必须在4-8字符之间"),
        }
    }
}

/// Whether `username` has an accepted length.
pub fn validate_username(username: &str) -> (r: bool)
    ensures
        r == username_ok(username@),
{
    let n = username.unicode_len();
    2 <= n && n <= 100
}

/// Whether `code` has an accepted length.
pub fn validate_code(code: &str) -> (r: bool)
    ensures
        r == code_ok(code@),
{
    let n = code.unicode_len();
    4 <= n && n <= 8
}

impl CreateVerificationRequest {
    /// Checks the field lengths; on failure, the fields that failed, username
    /// first.
    pub fn validate(&self) -> (r: Result<(), Vec<FieldError>>)
        ensures
            r is Ok <==> username_ok(self.username@) && code_ok(self.verification_code@),
            r matches Err(errors) ==> errors@ == request_errors(
                self.username@,
                self.verification_code@,
            ) && errors@.len() > 0,
    {
        let mut errors: Vec<FieldError> = Vec::new();
        if !validate_username(self.username.as_str()) {
            errors.push(FieldError::Username);
        }
        if !validate_code(self.verification_code.as_str()) {
            errors.push(FieldError::VerificationCode);
        }
        assert(errors@ =~= request_errors(self.username@, self.verification_code@));
        if errors.len() == 0 {
            Ok(())
        } else {
            Err(errors)
        }
    }
}

impl GetPhoneRequest {
    /// Checks the username's length.
    pub fn validate(&self) -> (r: Result<(), Vec<FieldError>>)
        ensures
            r is Ok <==> username_ok(self.username@),
            r matches Err(errors) ==> errors@ == seq![FieldError::Username],
    {
        if validate_username(self.username.as_str()) {
            Ok(())
        } else {
            let mut errors: Vec<FieldError> = Vec::new();
            errors.push(FieldError::Username);
            assert(errors@ =~= seq![FieldError::Username]);
            Err(errors)
        }
    }
}

/// The texts of `errors`, joined by ", ", for the response.
pub fn validation_message(errors: &Vec<FieldError>) -> (r: String)
    ensures
        r@ == joined_messages(errors@),
{
    let mut out = String::new();
    let mut i: usize = 0;
    while i < errors.len()
        invariant
            i <= errors@.len(),
            out@ == joined_messages(errors@.subrange(0, i as int)),
        decreases errors@.len() - i,
    {
        let ghost next = errors@.subrange(0, i as int + 1);
        proof {
            assert(next.drop_last() =~= errors@.subrange(0, i as int));
            assert(next.last() == errors@[i as int]);
        }
        if i > 0 {
            out.append(", ");
        }
        let m = errors[i].message();
        out.append(m.as_str());
        proof {
            if i == 0 {
                assert(out@ =~= message_of(next[0]));
            } else {
                assert(out@ =~= joined_messages(next.drop_last()) + ", "@ + message_of(next.last()));
            }
        }
        i = i + 1;
    }
    assert(errors@.subrange(0, errors@.len() as int) =~= errors@);
    out
}

} // verus!

use phone_verification::model::{CreateVerificationRequest, GetPhoneRequest};
use phone_verification::validation::{validate_code, validate_username, validation_message, FieldError};

fn request(username: &str, code: &str) -> CreateVerificationRequest {
    CreateVerificationRequest {
        phone: "13800000000".to_string(),
        username: username.to_string(),
        verification_code: code.to_string(),
    }
}

#[test]
fn username_bounds() {
    assert!(!validate_username("a"));
    assert!(validate_username("ab"));
    assert!(validate_username(&"x".repeat(100)));
    assert!(!validate_username(&"x".repeat(101)));
    assert!(!validate_username(""));
}

#[test]
fn username_counts_characters() {
    assert!(validate_username("张三"));
    assert!(!validate_username("张"));
    assert!(validate_username(&"张".repeat(100)));
}

#[test]
fn code_bounds() {
    assert!(!validate_code("123"));
    assert!(validate_code("1234"));
    assert!(validate_code("12345678"));
    assert!(!validate_code("123456789"));
}

#[test]
fn create_request_errors() {
    assert_eq!(request("alice", "1234").validate(), Ok(()));
    assert_eq!(request("a", "1234").validate(), Err(vec![FieldError::Username]));
    assert_eq!(request("alice", "12").validate(), Err(vec![FieldError::VerificationCode]));
    assert_eq!(
        request("a", "123456789").validate(),
        Err(vec![FieldError::Username, FieldError::VerificationCode])
    );
}

#[test]
fn phone_request_errors() {
    let ok = GetPhoneRequest { username: "alice".to_string() };
    assert_eq!(ok.validate(), Ok(()));
    let long = GetPhoneRequest { username: "y".repeat(101) };
    assert_eq!(long.validate(), Err(vec![FieldError::Username]));
}

#[test]
fn joined_messages() {
    assert_eq!(validation_message(&vec![]), "");
    assert_eq!(validation_message(&vec![FieldError::Username]), "用户名长度必须在2-100字符之间");
    assert_eq!(
        validation_message(&vec![FieldError::Username, FieldError::VerificationCode]),
        "用户名长度必须在2-100字符之间, 验证码长度必须在4-8字符之间"
    );
    assert_eq!(FieldError::VerificationCode.message(), "验证码长度必须在4-8字符之间");
}

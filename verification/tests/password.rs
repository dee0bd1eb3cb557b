use auth_service::domain::{Password, PasswordError, Secret};
use fake::faker::internet::en::Password as FakePassword;
use fake::Fake;

#[test]
fn test_valid_password() {
    let password = Password::parse(Secret::new("Test123!".to_string()));
    assert!(password.is_ok());
    assert_eq!(password.unwrap().as_ref().expose_secret(), "Test123!");
}

#[test]
fn test_valid_complex_password() {
    let password = Password::parse(Secret::new("MyS3cur3P@ssw0rd!".to_string()));
    assert!(password.is_ok());
    assert_eq!(password.unwrap().as_ref().expose_secret(), "MyS3cur3P@ssw0rd!");
}

#[test]
fn test_password_too_short() {
    let password = Password::parse(Secret::new("Test1!".to_string()));
    assert!(password.is_err());
    assert_eq!(
        password.unwrap_err().to_string(),
        "Password must be at least 8 characters long"
    );
}

#[test]
fn test_password_exactly_8_chars() {
    let password = Password::parse(Secret::new("Test123!".to_string()));
    assert!(password.is_ok());
}

#[test]
fn test_password_missing_uppercase() {
    let password = Password::parse(Secret::new("test123!".to_string()));
    assert!(password.is_err());
    assert_eq!(
        password.unwrap_err().to_string(),
        "Password must contain at least one uppercase letter"
    );
}

#[test]
fn test_password_missing_lowercase() {
    let password = Password::parse(Secret::new("TEST123!".to_string()));
    assert!(password.is_err());
    assert_eq!(
        password.unwrap_err().to_string(),
        "Password must contain at least one lowercase letter"
    );
}

#[test]
fn test_password_missing_number() {
    let password = Password::parse(Secret::new("TestTest!".to_string()));
    assert!(password.is_err());
    assert_eq!(
        password.unwrap_err().to_string(),
        "Password must contain at least one number"
    );
}

#[test]
fn test_password_missing_special_char() {
    let password = Password::parse(Secret::new("TestTest123".to_string()));
    assert!(password.is_err());
    assert_eq!(
        password.unwrap_err().to_string(),
        "Password must contain at least one special character"
    );
}

#[test]
fn test_empty_password() {
    let password = Password::parse(Secret::new("".to_string()));
    assert!(password.is_err());
    assert_eq!(
        password.unwrap_err().to_string(),
        "Password must be at least 8 characters long"
    );
}

#[test]
fn password_test_as_ref_trait() {
    let password = Password::parse(Secret::new("Test123!".to_string())).unwrap();
    let password_secret: &Secret = password.as_ref();
    assert_eq!(password_secret.expose_secret(), "Test123!");
}

#[test]
fn test_fake_generated_passwords() {
    for _ in 0..10 {
        let fake_password: String = FakePassword(8..20).fake();
        let compliant_password = format!("As{}1!", fake_password);
        let password = Password::parse(Secret::new(compliant_password.clone()));
        match password {
            Ok(p) => assert_eq!(p.as_ref().expose_secret(), &compliant_password),
            Err(e) => panic!(
                "Failed to parse password: {} - Error: {}",
                compliant_password,
                e.to_string()
            ),
        }
    }
}

#[test]
fn password_length_counts_characters_not_bytes() {
    // seven characters, more than eight bytes
    let password = Password::parse(Secret::new("Aa1!ééé".to_string()));
    assert_eq!(password.unwrap_err(), PasswordError::TooShort);
    // eight characters
    let password = Password::parse(Secret::new("Aa1!éééé".to_string()));
    assert!(password.is_ok());
}

#[test]
fn password_checks_are_reported_in_order() {
    assert_eq!(Password::judge(false, false, false, false, false), Err(PasswordError::TooShort));
    assert_eq!(
        Password::judge(true, false, false, false, false),
        Err(PasswordError::MissingUppercase)
    );
    assert_eq!(
        Password::judge(true, true, false, false, false),
        Err(PasswordError::MissingLowercase)
    );
    assert_eq!(Password::judge(true, true, true, false, false), Err(PasswordError::MissingNumber));
    assert_eq!(
        Password::judge(true, true, true, true, false),
        Err(PasswordError::MissingSpecialChar)
    );
    assert_eq!(Password::judge(true, true, true, true, true), Ok(()));
    assert_eq!(Password::judge(false, true, true, true, true), Err(PasswordError::TooShort));
}

#[test]
fn password_error_messages() {
    assert_eq!(
        PasswordError::TooShort.to_string(),
        "Password must be at least 8 characters long"
    );
    assert_eq!(
        PasswordError::MissingUppercase.to_string(),
        "Password must contain at least one uppercase letter"
    );
    assert_eq!(
        PasswordError::MissingLowercase.to_string(),
        "Password must contain at least one lowercase letter"
    );
    assert_eq!(
        PasswordError::MissingNumber.to_string(),
        "Password must contain at least one number"
    );
    assert_eq!(
        PasswordError::MissingSpecialChar.to_string(),
        "Password must contain at least one special character"
    );
}

#[test]
fn a_space_counts_as_special_character() {
    assert!(Password::parse(Secret::new("Test 1234".to_string())).is_ok());
}

#[test]
fn stored_hashes_skip_the_strength_checks() {
    let password = Password::from_hash("weak".to_string());
    assert_eq!(password.to_hash(), "weak");
    assert!(password == Password::from_hash("weak".to_string()));
    assert!(password != Password::from_hash("other".to_string()));
    assert!(password.clone() == password);
}

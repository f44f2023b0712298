use gh_activity::username::validate_username;

#[test]
fn accepts_simple_username() {
    assert_eq!(validate_username("octocat"), Ok("octocat".to_string()));
}

#[test]
fn accepts_single_character() {
    assert_eq!(validate_username("a"), Ok("a".to_string()));
}

#[test]
fn accepts_hyphen_underscore_digits() {
    assert_eq!(
        validate_username("dev-user_42"),
        Ok("dev-user_42".to_string())
    );
}

#[test]
fn accepts_thirty_nine_characters() {
    let name = "a".repeat(39);
    assert_eq!(validate_username(&name), Ok(name.clone()));
}

#[test]
fn rejects_empty_string() {
    assert_eq!(
        validate_username(""),
        Err(" is an invalid GitHub username".to_string())
    );
}

#[test]
fn rejects_forty_characters() {
    let name = "a".repeat(40);
    assert_eq!(
        validate_username(&name),
        Err(format!("{} is an invalid GitHub username", name))
    );
}

#[test]
fn rejects_space() {
    assert_eq!(
        validate_username("bad name"),
        Err("bad name is an invalid GitHub username".to_string())
    );
}

#[test]
fn rejects_punctuation() {
    assert!(validate_username("user!").is_err());
    assert!(validate_username("user.name").is_err());
    assert!(validate_username("user@host").is_err());
}

#[test]
fn rejects_non_ascii_letter() {
    assert!(validate_username("na\u{ef}ve").is_err());
}

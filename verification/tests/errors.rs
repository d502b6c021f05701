use coral::error::{CoralError, PigError};

#[test]
fn pig_error_messages_name_the_failure() {
    assert_eq!(PigError::NoSelect.message(), "no SELECT found in input");
    assert_eq!(
        PigError::Unsupported("UNION".to_string()).message(),
        "unsupported shape: UNION"
    );
    assert_eq!(
        PigError::Parse("Expected: an expression".to_string()).message(),
        "parse error: Expected: an expression"
    );
}

#[test]
fn coral_error_messages_carry_their_prefix() {
    assert_eq!(
        CoralError::Parse("bad token".to_string()).message(),
        "parse error: bad token"
    );
    assert_eq!(
        CoralError::Unsupported("LATERAL".to_string()).message(),
        "unsupported construct: LATERAL"
    );
}

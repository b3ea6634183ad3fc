use lockdown::bundle::{json_from_serializer, render_bundle, serialize_cookies, CredentialBundle};
use lockdown::errors::LockdownError;

#[test]
fn record_has_one_line_per_field() {
    let bundle = CredentialBundle {
        x_password: "AAAAbbbb1234".to_string(),
        email_password: "CCCCdddd5678".to_string(),
        auth_tokens_json: "\"ct0=1; auth_token=2\"".to_string(),
    };
    let record = render_bundle(&bundle);
    assert_eq!(
        record,
        "X_PASSWORD=AAAAbbbb1234\n\
         EMAIL_PASSWORD=CCCCdddd5678\n\
         X_AUTH_TOKENS=\"ct0=1; auth_token=2\"\n"
    );
}

#[test]
fn cookies_are_serialized_as_a_json_string() {
    let cookies = "ct0=abc; auth_token=def".to_string();
    let json = serialize_cookies(&cookies).unwrap();
    assert_eq!(json, "\"ct0=abc; auth_token=def\"");
}

#[test]
fn serializer_outcome_is_mapped_exactly() {
    assert_eq!(json_from_serializer(Some("\"x\"".to_string())), Ok("\"x\"".to_string()));
    assert_eq!(json_from_serializer(None), Err(LockdownError::IOError));
}

#[test]
fn duplicate_preserves_every_field() {
    let bundle = CredentialBundle {
        x_password: "p1".to_string(),
        email_password: "p2".to_string(),
        auth_tokens_json: "\"c\"".to_string(),
    };
    let copy = bundle.duplicate();
    assert_eq!(copy.x_password, bundle.x_password);
    assert_eq!(copy.email_password, bundle.email_password);
    assert_eq!(copy.auth_tokens_json, bundle.auth_tokens_json);
}

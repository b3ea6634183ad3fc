//! Form bodies and HTTP status classification for the secondary provider.
//!
//! The two protected POST endpoints take form-encoded key/value pairs; which
//! keys are sent, with which values and in which order, is part of the
//! protocol and is verified here.

use vstd::prelude::*;

verus! {

/// The fields of the login form: the anti-forgery token, the account email
/// and its current password.
pub open spec fn login_form_view(
    token: Seq<char>,
    email: Seq<char>,
    password: Seq<char>,
) -> Seq<(Seq<char>, Seq<char>)> {
    seq![("_token"@, token), ("email"@, email), ("password"@, password)]
}

/// The fields of the change-password form: the anti-forgery token, the
/// current password, and the new password stated twice.
pub open spec fn change_password_form_view(
    token: Seq<char>,
    current_password: Seq<char>,
    new_password: Seq<char>,
) -> Seq<(Seq<char>, Seq<char>)> {
    seq![
        ("_token"@, token),
        ("current_password"@, current_password),
        ("password"@, new_password),
        ("password_confirmation"@, new_password),
    ]
}

/// Build the login form body.
pub fn login_form(token: &String, email: &String, password: &String) -> (r: Vec<
    (String, String),
>)
    ensures
        r.deep_view() == login_form_view(token@, email@, password@),
{
    let mut r: Vec<(String, String)> = Vec::new();
    r.push(("_token".to_owned(), token.clone()));
    r.push(("email".to_owned(), email.clone()));
    r.push(("password".to_owned(), password.clone()));
    proof {
        assert(r.deep_view() =~= login_form_view(token@, email@, password@));
    }
    r
}

/// Build the change-password form body.
pub fn change_password_form(
    token: &String,
    current_password: &String,
    new_password: &String,
) -> (r: Vec<(String, String)>)
    ensures
        r.deep_view() == change_password_form_view(token@, current_password@, new_password@),
{
    let mut r: Vec<(String, String)> = Vec::new();
    r.push(("_token".to_owned(), token.clone()));
    r.push(("current_password".to_owned(), current_password.clone()));
    r.push(("password".to_owned(), new_password.clone()));
    r.push(("password_confirmation".to_owned(), new_password.clone()));
    proof {
        assert(r.deep_view() =~= change_password_form_view(
            token@,
            current_password@,
            new_password@,
        ));
    }
    r
}

/// An HTTP status that does not end the run: anything but a client error
/// (400 to 499) or a server error (500 to 599).
pub open spec fn success_status(status: u16) -> bool {
    !(400 <= status && status <= 599)
}

/// Classify an HTTP status code.
pub fn is_success_status(status: u16) -> (r: bool)
    ensures
        r == success_status(status),
{
    !(400 <= status && status <= 599)
}

} // verus!

//! The credential bundle and its serialized record.
//!
//! The bundle is the write-once artifact of a successful run: both new
//! secrets plus the primary session's cookie string, rendered as one
//! `key=value` line each.  Persisting the record to disk is the caller's
//! task; its exact text is fixed here.

use crate::errors::LockdownError;
use vstd::prelude::*;
use vstd::string::StringExecFns;

verus! {

/// The secrets and session state produced by one completed lockdown run.
#[derive(Debug)]
pub struct CredentialBundle {
    /// The new primary-provider password.
    pub x_password: String,
    /// The new secondary-provider (email) password.
    pub email_password: String,
    /// The primary session's cookie string, as a JSON document.
    pub auth_tokens_json: String,
}

/// The mathematical image of a credential bundle.
#[verifier::ext_equal]
pub struct BundleView {
    pub x_password: Seq<char>,
    pub email_password: Seq<char>,
    pub auth_tokens_json: Seq<char>,
}

impl View for CredentialBundle {
    type V = BundleView;

    open spec fn view(&self) -> BundleView {
        BundleView {
            x_password: self.x_password@,
            email_password: self.email_password@,
            auth_tokens_json: self.auth_tokens_json@,
        }
    }
}

impl CredentialBundle {
    /// A second bundle holding the same three values.
    pub fn duplicate(&self) -> (r: CredentialBundle)
        ensures
            r@ == self@,
    {
        let r = CredentialBundle {
            x_password: self.x_password.clone(),
            email_password: self.email_password.clone(),
            auth_tokens_json: self.auth_tokens_json.clone(),
        };
        proof {
            assert(r@ =~= self@);
        }
        r
    }
}

/// The text of the persisted record: three `key=value` lines, one per field.
pub open spec fn bundle_record(b: BundleView) -> Seq<char> {
    "X_PASSWORD="@ + b.x_password + "\n"@ + "EMAIL_PASSWORD="@ + b.email_password + "\n"@
        + "X_AUTH_TOKENS="@ + b.auth_tokens_json + "\n"@
}

/// Render the bundle as the exact text of its durable record.
pub fn render_bundle(bundle: &CredentialBundle) -> (r: String)
    ensures
        r@ == bundle_record(bundle@),
{
    let mut r = String::new();
    r.append("X_PASSWORD=");
    r.append(bundle.x_password.as_str());
    r.append("\n");
    r.append("EMAIL_PASSWORD=");
    r.append(bundle.email_password.as_str());
    r.append("\n");
    r.append("X_AUTH_TOKENS=");
    r.append(bundle.auth_tokens_json.as_str());
    r.append("\n");
    proof {
        assert(r@ =~= bundle_record(bundle@));
    }
    r
}

/// The JSON document that the outside serializer produces for a string.
/// The result depends on the serialized string alone.
pub uninterp spec fn json_string_of(s: Seq<char>) -> Seq<char>;

/// Relies on `serde_json::to_string`: serializing a string always succeeds
/// (it fails only for a failing `Serialize` impl or a map with non-string
/// keys, and a string is neither; the bytes go into a `Vec<u8>` sink that
/// never errors) and yields its JSON document, a function of the string
/// alone.
#[verifier::external_body]
fn cookie_json(cookies: &String) -> (r: Option<String>)
    ensures
        r is Some,
        r matches Some(j) ==> j@ == json_string_of(cookies@),
{
    serde_json::to_string(cookies).ok()
}

/// What the serializer's outcome means for the run: a produced document is
/// returned as is, a failure is the `IOError` error.
pub fn json_from_serializer(produced: Option<String>) -> (r: Result<String, LockdownError>)
    ensures
        produced matches Some(j) ==> (r matches Ok(o) && o == j),
        produced is None ==> (r matches Err(e) && e == LockdownError::IOError),
{
    match produced {
        Some(j) => Ok(j),
        None => Err(LockdownError::IOError),
    }
}

/// Serialize the primary session's cookie string as a JSON document.
/// Serializing a plain string cannot fail, so success is owed.
pub fn serialize_cookies(cookies: &String) -> (r: Result<String, LockdownError>)
    ensures
        r is Ok,
        r matches Ok(j) ==> j@ == json_string_of(cookies@),
{
    json_from_serializer(cookie_json(cookies))
}

} // verus!

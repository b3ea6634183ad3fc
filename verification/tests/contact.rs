use lockdown::contact::{check_contact_surface, ContactSurface};

fn surface(emails: &[&str], phones: &[&str]) -> ContactSurface {
    ContactSurface {
        emails: emails.iter().map(|e| e.to_string()).collect(),
        phone_numbers: phones.iter().map(|p| p.to_string()).collect(),
    }
}

#[test]
fn single_expected_email_and_no_phones_passes() {
    let s = surface(&["a@b.com"], &[]);
    assert!(check_contact_surface(&s, &"a@b.com".to_string()));
}

#[test]
fn extra_email_is_rejected() {
    let s = surface(&["a@b.com", "c@d.com"], &[]);
    assert!(!check_contact_surface(&s, &"a@b.com".to_string()));
}

#[test]
fn any_phone_number_is_rejected() {
    let s = surface(&["a@b.com"], &["+15551234567"]);
    assert!(!check_contact_surface(&s, &"a@b.com".to_string()));
}

#[test]
fn wrong_email_is_rejected() {
    let s = surface(&["x@y.com"], &[]);
    assert!(!check_contact_surface(&s, &"a@b.com".to_string()));
}

#[test]
fn no_email_at_all_is_rejected() {
    let s = surface(&[], &[]);
    assert!(!check_contact_surface(&s, &"a@b.com".to_string()));
}

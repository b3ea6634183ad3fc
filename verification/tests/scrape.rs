use lockdown::errors::LockdownError;
use lockdown::scrape::{extract_csrf_token, token_from_scrape};

#[test]
fn token_is_scraped_from_hidden_input() {
    let html = "<html><body><form>\
                <input type=\"hidden\" name=\"_token\" value=\"abc123\">\
                </form></body></html>";
    assert_eq!(extract_csrf_token(html).unwrap(), "abc123");
}

#[test]
fn token_is_scraped_among_other_inputs() {
    let html = "<html><body><form>\
                <input type=\"text\" name=\"email\" value=\"a@b.com\">\
                <input type=\"hidden\" name=\"other\" value=\"zzz\">\
                <input type=\"hidden\" name=\"_token\" value=\"tok-7\">\
                </form></body></html>";
    assert_eq!(extract_csrf_token(html).unwrap(), "tok-7");
}

#[test]
fn missing_token_input_is_token_not_found() {
    let html = "<html><body><p>no form here</p></body></html>";
    assert_eq!(extract_csrf_token(html), Err(LockdownError::TokenNotFound));
}

#[test]
fn hidden_input_without_value_is_token_not_found() {
    let html = "<html><body><form>\
                <input type=\"hidden\" name=\"_token\">\
                </form></body></html>";
    assert_eq!(extract_csrf_token(html), Err(LockdownError::TokenNotFound));
}

#[test]
fn scrape_outcome_is_mapped_exactly() {
    assert_eq!(token_from_scrape(Some("t".to_string())), Ok("t".to_string()));
    assert_eq!(token_from_scrape(None), Err(LockdownError::TokenNotFound));
}

use lockdown::grants::{filter_revocable, revocation_tokens, ThirdPartyGrant};

fn grant(app_id: &str, token: &str) -> ThirdPartyGrant {
    ThirdPartyGrant { app_id: app_id.to_string(), token: token.to_string() }
}

#[test]
fn allowlisted_grant_is_excluded_from_revocation() {
    let grants = vec![grant("1", "t1"), grant("29459355", "t-own"), grant("2", "t2")];
    let allow = "29459355".to_string();
    let revocable = filter_revocable(&grants, &allow);
    assert_eq!(revocable.len(), 2);
    assert_eq!(revocable[0].app_id, "1");
    assert_eq!(revocable[1].app_id, "2");
}

#[test]
fn revocation_tokens_follow_the_filter_in_order() {
    let grants = vec![grant("1", "t1"), grant("29459355", "t-own"), grant("2", "t2")];
    let allow = "29459355".to_string();
    assert_eq!(revocation_tokens(&grants, &allow), vec!["t1".to_string(), "t2".to_string()]);
}

#[test]
fn empty_grant_set_yields_no_revocations() {
    let grants: Vec<ThirdPartyGrant> = Vec::new();
    let allow = "29459355".to_string();
    assert!(filter_revocable(&grants, &allow).is_empty());
    assert!(revocation_tokens(&grants, &allow).is_empty());
}

#[test]
fn all_grants_revocable_when_none_is_allowlisted() {
    let grants = vec![grant("5", "t5"), grant("6", "t6")];
    let allow = "29459355".to_string();
    assert_eq!(revocation_tokens(&grants, &allow), vec!["t5".to_string(), "t6".to_string()]);
}

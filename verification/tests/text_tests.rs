use ecom_api::middleware::bearer_token;
use ecom_api::text::{lowercase, remove_occurrences};

#[test]
fn removes_bearer_prefix() {
    assert_eq!(remove_occurrences("Bearer abc.def.ghi", "Bearer "), "abc.def.ghi");
    assert_eq!(bearer_token("Bearer abc.def.ghi"), "abc.def.ghi");
}

#[test]
fn removes_every_occurrence() {
    assert_eq!(remove_occurrences("xBearer yBearer z", "Bearer "), "xyz");
    assert_eq!(remove_occurrences("aaa", "aa"), "a");
}

#[test]
fn removal_resumes_after_each_match() {
    assert_eq!(remove_occurrences("BeaBearer rer x", "Bearer "), "Bearer x");
}

#[test]
fn nothing_to_remove() {
    assert_eq!(remove_occurrences("token", "Bearer "), "token");
    assert_eq!(remove_occurrences("", "Bearer "), "");
    assert_eq!(remove_occurrences("token", ""), "token");
}

#[test]
fn removal_keeps_non_ascii() {
    assert_eq!(remove_occurrences("éBearer ü", "Bearer "), "éü");
}

#[test]
fn lowercase_maps_unicode() {
    assert_eq!(lowercase("Invalid Token"), "invalid token");
    assert_eq!(lowercase("ÀB"), "àb");
}

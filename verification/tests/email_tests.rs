use mail_client::email::{
    email_domain, email_local_part, plain_auth_response, resolve_username,
};

#[test]
fn local_part_is_text_before_at() {
    assert_eq!(email_local_part("user@example.org"), "user");
}

#[test]
fn domain_is_text_after_at() {
    assert_eq!(email_domain("user@example.org"), "example.org");
}

#[test]
fn parts_without_at_are_whole_address() {
    assert_eq!(email_local_part("localhost"), "localhost");
    assert_eq!(email_domain("localhost"), "localhost");
}

#[test]
fn parts_with_several_ats_use_first_and_last() {
    assert_eq!(email_local_part("a@b@c"), "a");
    assert_eq!(email_domain("a@b@c"), "c");
}

#[test]
fn parts_of_empty_address_are_empty() {
    assert_eq!(email_local_part(""), "");
    assert_eq!(email_domain(""), "");
}

#[test]
fn parts_at_edges() {
    assert_eq!(email_local_part("@example.org"), "");
    assert_eq!(email_domain("user@"), "");
}

#[test]
fn parts_match_split_on_unicode() {
    let email = "jörg@bücher.de";
    assert_eq!(email_local_part(email), email.split('@').next().unwrap());
    assert_eq!(email_domain(email), email.split('@').last().unwrap());
}

#[test]
fn single_at_address_is_local_at_domain() {
    let email = "dont@dox.myself";
    let joined = format!("{}@{}", email_local_part(email), email_domain(email));
    assert_eq!(joined, email);
}

#[test]
fn username_email_address() {
    assert_eq!(
        resolve_username("%EMAILADDRESS%", "user@example.org"),
        Some("user@example.org".to_string())
    );
}

#[test]
fn username_local_part() {
    assert_eq!(
        resolve_username("%EMAILLOCALPART%", "user@example.org"),
        Some("user".to_string())
    );
}

#[test]
fn username_domain() {
    assert_eq!(
        resolve_username("%EMAILDOMAIN%", "user@example.org"),
        Some("example.org".to_string())
    );
}

#[test]
fn username_unsupported_template() {
    assert_eq!(resolve_username("user", "user@example.org"), None);
    assert_eq!(resolve_username("%emailaddress%", "user@example.org"), None);
    assert_eq!(resolve_username("", "user@example.org"), None);
}

#[test]
fn plain_response_layout() {
    assert_eq!(plain_auth_response("user@example.org", "secret"), "\0user@example.org\0secret");
}

#[test]
fn plain_response_empty_credentials() {
    assert_eq!(plain_auth_response("", ""), "\0\0");
}

#[test]
fn plain_response_tells_credentials_apart() {
    let a = plain_auth_response("ab", "c");
    let b = plain_auth_response("a", "bc");
    assert_ne!(a, b);
    let parts: Vec<&str> = a.split('\0').collect();
    assert_eq!(parts, vec!["", "ab", "c"]);
}

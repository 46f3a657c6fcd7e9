use pan_transfer::auth::AuthContext;
use pan_transfer::headers::auth_headers;

#[test]
fn request_headers_carry_the_fixed_set() {
    let hs = auth_headers("Bearer tok-1", "uuid-77");
    let expected = vec![
        ("authorization", "Bearer tok-1"),
        ("platform", "android"),
        ("app-version", "61"),
        ("x-app-version", "2.4.0"),
        ("x-channel", "1004"),
        ("devicetype", "M2101K9C"),
        ("devicename", "Xiaomi"),
        ("osversion", "Android_7.1.2"),
        ("loginuuid", "uuid-77"),
        ("content-type", "application/json"),
    ];
    assert_eq!(hs.len(), expected.len());
    for (got, want) in hs.iter().zip(expected.iter()) {
        assert_eq!(got.0, want.0);
        assert_eq!(got.1, want.1);
    }
}

#[test]
fn auth_context_starts_unauthenticated() {
    let ctx = AuthContext::new("client-1".to_string());
    assert_eq!(ctx.current_credential(), "");
    assert_eq!(ctx.client_identifier(), "client-1");
}

#[test]
fn credential_can_be_replaced_and_cleared() {
    let mut ctx = AuthContext::new("client-1".to_string());
    ctx.set_credential("Bearer abc".to_string());
    assert_eq!(ctx.current_credential(), "Bearer abc");
    ctx.clear_credential();
    assert_eq!(ctx.current_credential(), "");
    assert_eq!(ctx.client_identifier(), "client-1");
}

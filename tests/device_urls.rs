use pi_tray::piapi_handler::{push_decimal, AuthPiHoleAPI, DeviceCall};

fn api() -> AuthPiHoleAPI {
    AuthPiHoleAPI::new("http://pi.hole".to_string(), "SECRET-REDACTED".to_string())
}

#[test]
fn status_url_names_the_status_query() {
    assert_eq!(
        api().status_url(),
        "http://pi.hole/admin/api.php?status&auth=SECRET-REDACTED"
    );
}

#[test]
fn enable_url_names_the_enable_query() {
    assert_eq!(
        api().enable_url(),
        "http://pi.hole/admin/api.php?enable&auth=SECRET-REDACTED"
    );
}

#[test]
fn disable_for_zero_has_no_duration() {
    let url = api().disable_url(0);
    assert_eq!(url, "http://pi.hole/admin/api.php?disable&auth=SECRET-REDACTED");
    assert!(!url.contains("=0"));
}

#[test]
fn disable_for_thirty_carries_the_duration() {
    let url = api().disable_url(30);
    assert_eq!(url, "http://pi.hole/admin/api.php?disable=30&auth=SECRET-REDACTED");
    assert!(url.contains("disable=30"));
}

#[test]
fn disable_for_five_minutes() {
    assert_eq!(
        api().url(DeviceCall::Disable(300)),
        "http://pi.hole/admin/api.php?disable=300&auth=SECRET-REDACTED"
    );
}

#[test]
fn url_agrees_with_the_named_builders() {
    let a = api();
    assert_eq!(a.url(DeviceCall::Status), a.status_url());
    assert_eq!(a.url(DeviceCall::Enable), a.enable_url());
    assert_eq!(a.url(DeviceCall::Disable(10)), a.disable_url(10));
}

#[test]
fn dashboard_url_is_the_admin_page() {
    assert_eq!(api().dashboard_url(), "http://pi.hole/admin");
}

#[test]
fn empty_host_and_key() {
    let a = AuthPiHoleAPI::new(String::new(), String::new());
    assert_eq!(a.status_url(), "/admin/api.php?status&auth=");
}

#[test]
fn decimal_rendering() {
    let cases: Vec<(u64, &str)> = vec![
        (0, "0"),
        (7, "7"),
        (10, "10"),
        (300, "300"),
        (1_000_000, "1000000"),
        (u64::MAX, "18446744073709551615"),
    ];
    for (n, expected) in cases {
        let mut s = String::from("x");
        push_decimal(&mut s, n);
        assert_eq!(s, format!("x{}", expected));
    }
}

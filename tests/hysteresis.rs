use pi_tray::piapi_handler::AuthPiHoleAPI;
use pi_tray::supervisor::Supervisor;
use pi_tray::tray_handler::{DisplayState, TrayIcon};

fn reply(status: &str) -> Vec<(String, String)> {
    vec![
        ("gravity".to_string(), "ok".to_string()),
        ("status".to_string(), status.to_string()),
    ]
}

fn supervisor(limit: u8) -> Supervisor {
    Supervisor::new(
        AuthPiHoleAPI::new("http://pi.hole".to_string(), "k".to_string()),
        TrayIcon::new("Pi-Hole", limit),
    )
}

#[test]
fn fresh_indicator() {
    let t = TrayIcon::new("Pi-Hole", 2);
    assert!(!t.is_enabled());
    assert!(!t.is_unreachable());
    assert_eq!(t.max_fail(), 2);
    assert_eq!(t.title(), "Pi-Hole");
}

#[test]
fn fail_counts_up_to_the_limit_then_holds() {
    let mut t = TrayIcon::new("t", 2);
    assert_eq!(t.fail(), Ok(1));
    assert_eq!(t.fail(), Err(2));
    assert!(t.is_unreachable());
    assert_eq!(t.fail(), Err(2));
    assert_eq!(t.fail(), Err(2));
    t.pass();
    assert!(!t.is_unreachable());
    assert_eq!(t.fail(), Ok(1));
}

#[test]
fn limit_one_is_reached_by_the_first_failure() {
    let mut t = TrayIcon::new("t", 1);
    assert_eq!(t.fail(), Err(1));
    assert!(t.is_unreachable());
}

#[test]
fn fail_reports_the_limit_after_the_final_failure_of_a_run() {
    let mut t = TrayIcon::new("t", 3);
    assert_eq!(t.fail(), Ok(1));
    assert_eq!(t.fail(), Ok(2));
    t.pass();
    assert_eq!(t.fail(), Ok(1));
    assert_eq!(t.fail(), Ok(2));
    assert_eq!(t.fail(), Err(3));
    assert!(t.is_unreachable());
}

#[test]
fn largest_limit() {
    let mut t = TrayIcon::new("t", 255);
    for i in 1..=254u16 {
        assert_eq!(t.fail(), Ok(i as u8));
    }
    assert_eq!(t.fail(), Err(255));
    assert_eq!(t.fail(), Err(255));
    assert!(t.is_unreachable());
}

#[test]
fn show_reports_only_real_changes() {
    let mut t = TrayIcon::new("t", 3);
    assert!(!t.show_disabled());
    assert!(t.show_enabled());
    assert!(!t.show_enabled());
    assert!(t.is_enabled());
    assert!(t.show_disabled());
    assert!(!t.is_enabled());
}

#[test]
fn test_counts_the_outcome_of_the_call() {
    let mut t = TrayIcon::new("t", 2);
    let failing = || -> Result<u32, String> { Err("down".to_string()) };
    let working = || -> Result<u32, String> { Ok(7) };
    assert_eq!(t.test(failing), Err(1));
    assert_eq!(t.test(failing), Err(2));
    assert_eq!(t.test(failing), Err(2));
    assert_eq!(t.test(working), Ok(7));
    assert!(!t.is_unreachable());
    assert_eq!(t.test(failing), Err(1));
}

#[test]
fn success_sets_label_and_icon() {
    let mut s = supervisor(2);
    let fx = s.on_poll(Some(&reply("enabled")));
    assert_eq!(fx.label.as_deref(), Some("Status: enabled"));
    assert_eq!(fx.icon, Some(DisplayState::Enabled));
    assert!(!fx.unreachable);
    let again = s.on_poll(Some(&reply("enabled")));
    assert_eq!(again.label.as_deref(), Some("Status: enabled"));
    assert_eq!(again.icon, None);
    let off = s.on_poll(Some(&reply("disabled")));
    assert_eq!(off.label.as_deref(), Some("Status: disabled"));
    assert_eq!(off.icon, Some(DisplayState::Disabled));
}

#[test]
fn limit_three_with_a_success_in_between() {
    let mut s = supervisor(3);
    s.on_poll(Some(&reply("enabled")));
    let polls: Vec<Option<Vec<(String, String)>>> =
        vec![None, None, Some(reply("enabled")), None, None, None];
    let mut flips = Vec::new();
    for p in polls.iter() {
        let fx = s.on_poll(p.as_ref());
        flips.push(fx.unreachable);
    }
    assert_eq!(flips, vec![false, false, false, false, false, true]);
    assert!(s.tray.is_unreachable());
    assert!(!s.tray.is_enabled());
}

#[test]
fn failures_beyond_the_limit_keep_the_state() {
    let mut s = supervisor(3);
    s.on_poll(Some(&reply("enabled")));
    for _ in 0..2 {
        s.on_poll(None);
    }
    let fx = s.on_poll(None);
    assert!(fx.unreachable);
    assert_eq!(fx.icon, Some(DisplayState::Disabled));
    for _ in 0..5 {
        let fx = s.on_poll(None);
        assert!(!fx.unreachable);
        assert_eq!(fx.icon, None);
        assert_eq!(fx.label, None);
        assert!(s.tray.is_unreachable());
    }
}

#[test]
fn repeated_successes_keep_the_state() {
    let mut s = supervisor(3);
    s.on_poll(Some(&reply("disabled")));
    for _ in 0..4 {
        let fx = s.on_poll(Some(&reply("disabled")));
        assert_eq!(fx.icon, None);
        assert!(!fx.unreachable);
        assert!(!s.tray.is_enabled());
    }
}

#[test]
fn limit_two_flips_after_the_second_failure() {
    let mut s = supervisor(2);
    s.on_poll(Some(&reply("enabled")));
    let first = s.on_poll(None);
    assert!(!first.unreachable);
    assert_eq!(first.icon, None);
    assert!(s.tray.is_enabled());
    let second = s.on_poll(None);
    assert!(second.unreachable);
    assert_eq!(second.icon, Some(DisplayState::Disabled));
    assert!(!s.tray.is_enabled());
}

#[test]
fn reply_without_status_counts_as_failure() {
    let mut s = supervisor(2);
    s.on_poll(Some(&reply("enabled")));
    let empty: Vec<(String, String)> = Vec::new();
    assert!(!s.on_poll(Some(&empty)).unreachable);
    let fx = s.on_poll(Some(&empty));
    assert!(fx.unreachable);
    assert_eq!(fx.label, None);
}

#[test]
fn unexpected_status_counts_as_failure() {
    let mut s = supervisor(1);
    let fx = s.on_poll(Some(&reply("paused")));
    assert!(fx.unreachable);
    assert_eq!(fx.label, None);
    assert_eq!(fx.icon, None);
}

#[test]
fn first_status_pair_decides() {
    let mut s = supervisor(2);
    let pairs = vec![
        ("status".to_string(), "disabled".to_string()),
        ("status".to_string(), "enabled".to_string()),
    ];
    let fx = s.on_poll(Some(&pairs));
    assert_eq!(fx.label.as_deref(), Some("Status: disabled"));
}

use statsdump::{parse_interval_secs, parse_u64_dec, select_options, AppOptions, Domain};

#[test]
fn parse_u64_accepts_plain_and_signed_literals() {
    assert_eq!(parse_u64_dec("0"), Some(0));
    assert_eq!(parse_u64_dec("5"), Some(5));
    assert_eq!(parse_u64_dec("+5"), Some(5));
    assert_eq!(parse_u64_dec("007"), Some(7));
    assert_eq!(parse_u64_dec("18446744073709551615"), Some(u64::MAX));
}

#[test]
fn parse_u64_rejects_malformed_and_overflowing_literals() {
    assert_eq!(parse_u64_dec(""), None);
    assert_eq!(parse_u64_dec("+"), None);
    assert_eq!(parse_u64_dec("abc"), None);
    assert_eq!(parse_u64_dec("5s"), None);
    assert_eq!(parse_u64_dec(" 5"), None);
    assert_eq!(parse_u64_dec("-5"), None);
    assert_eq!(parse_u64_dec("1e3"), None);
    assert_eq!(parse_u64_dec("18446744073709551616"), None);
    assert_eq!(parse_u64_dec("99999999999999999999999"), None);
}

#[test]
fn invalid_interval_falls_back_to_default_with_warning() {
    // a non-numeric interval is replaced by the 5 s default, with a warning owed
    assert_eq!(parse_interval_secs(Some("abc")), (5, true));
    match select_options(Some(Domain::Sys), None, Some("abc")) {
        (AppOptions::SysStats { id, interval_secs }, warned) => {
            assert_eq!(interval_secs, 5);
            assert!(warned);
            assert_eq!(id, "localhost");
        }
        _ => panic!("expected the host-stats domain"),
    }
}

#[test]
fn valid_interval_is_used_without_warning() {
    assert_eq!(parse_interval_secs(Some("30")), (30, false));
    assert_eq!(parse_interval_secs(None), (5, false));
    match select_options(Some(Domain::Mount), None, Some("30")) {
        (AppOptions::MountStats { interval_secs }, warned) => {
            assert_eq!(interval_secs, 30);
            assert!(!warned);
        }
        _ => panic!("expected the mount-stats domain"),
    }
}

#[test]
fn operator_id_overrides_default() {
    match select_options(Some(Domain::Sys), Some("web-7".to_string()), None) {
        (AppOptions::SysStats { id, interval_secs }, warned) => {
            assert_eq!(id, "web-7");
            assert_eq!(interval_secs, 5);
            assert!(!warned);
        }
        _ => panic!("expected the host-stats domain"),
    }
}

#[test]
fn no_domain_selected_is_a_stop() {
    match select_options(None, None, Some("30")) {
        (AppOptions::Stop, warned) => assert!(!warned),
        _ => panic!("expected a stop"),
    }
}

#[test]
fn proc_domain_selection() {
    match select_options(Some(Domain::Proc), None, Some("2")) {
        (AppOptions::FdStats { interval_secs }, warned) => {
            assert_eq!(interval_secs, 2);
            assert!(!warned);
        }
        _ => panic!("expected the process-stats domain"),
    }
}

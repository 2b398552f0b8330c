use mtgo_capture::admin::check_windivert_driver;
use mtgo_capture::admin::is_running_as_admin;
use mtgo_capture::admin::DriverProbe;
use mtgo_capture::admin::PrivilegeProbe;
use mtgo_capture::error::CaptureError;
use mtgo_capture::filter::analyze_and_suggest_refined_filter;
use mtgo_capture::filter::mtgo_filter;
use mtgo_capture::session::check_admin_privileges;

fn empty_probe() -> DriverProbe {
    DriverProbe {
        exe_dir_known: false,
        exe_dll64: false,
        exe_dll32: false,
        exe_sys64: false,
        exe_sys32: false,
        drivers_sys64: false,
        drivers_sys32: false,
    }
}

fn pair_in_app_dir() -> DriverProbe {
    DriverProbe { exe_dir_known: true, exe_dll64: true, exe_sys64: true, ..empty_probe() }
}

fn elevated() -> PrivilegeProbe {
    PrivilegeProbe {
        query_succeeded: true,
        token_elevated: true,
        failure_cause: String::new(),
    }
}

fn unelevated() -> PrivilegeProbe {
    PrivilegeProbe { token_elevated: false, ..elevated() }
}

fn query_failed(cause: &str) -> PrivilegeProbe {
    PrivilegeProbe {
        query_succeeded: false,
        token_elevated: false,
        failure_cause: String::from(cause),
    }
}

#[test]
fn admin_check_reports_the_token() {
    assert_eq!(is_running_as_admin(&elevated()), Ok(true));
    assert_eq!(is_running_as_admin(&unelevated()), Ok(false));
}

#[test]
fn admin_check_reports_query_failure() {
    let r = is_running_as_admin(&query_failed("token query failed"));
    assert_eq!(
        r,
        Err(CaptureError::PrivilegeDetectionFailed(String::from("token query failed")))
    );
}

#[test]
fn driver_found_with_pair_in_app_dir() {
    assert_eq!(check_windivert_driver(&pair_in_app_dir()), Ok(true));
}

#[test]
fn driver_found_with_32bit_pair_in_app_dir() {
    let probe = DriverProbe {
        exe_dir_known: true,
        exe_dll32: true,
        exe_sys32: true,
        ..empty_probe()
    };
    assert_eq!(check_windivert_driver(&probe), Ok(true));
}

#[test]
fn driver_found_with_sys_in_system_dir_only() {
    let probe = DriverProbe { drivers_sys64: true, ..empty_probe() };
    assert_eq!(check_windivert_driver(&probe), Ok(true));
}

#[test]
fn driver_missing_everywhere_fails() {
    let r = check_windivert_driver(&empty_probe());
    assert!(matches!(r, Err(CaptureError::WinDivertDriverNotFound)));
}

#[test]
fn dll_without_sys_in_app_dir_is_not_enough() {
    let probe = DriverProbe { exe_dir_known: true, exe_dll64: true, ..empty_probe() };
    let r = check_windivert_driver(&probe);
    assert!(matches!(r, Err(CaptureError::WinDivertDriverNotFound)));
}

#[test]
fn sys_without_dll_in_app_dir_is_not_enough() {
    let probe = DriverProbe { exe_dir_known: true, exe_sys64: true, ..empty_probe() };
    let r = check_windivert_driver(&probe);
    assert!(matches!(r, Err(CaptureError::WinDivertDriverNotFound)));
}

#[test]
fn admin_privileges_summary_when_gate_satisfied() {
    let status = check_admin_privileges(&elevated(), &pair_in_app_dir()).unwrap();
    assert!(status.is_admin);
    assert!(status.can_capture);
    assert!(status.windivert_driver_found);
}

#[test]
fn admin_privileges_summary_when_driver_missing() {
    let r = check_admin_privileges(&elevated(), &empty_probe());
    assert_eq!(
        r.unwrap_err(),
        "WinDivert driver not found. Please download WinDivert 2.2.2-A from https://reqrypt.org/windivert.html and place WinDivert.dll and WinDivert64.sys in the application directory."
    );
}

#[test]
fn admin_privileges_summary_without_elevation() {
    let status = check_admin_privileges(&unelevated(), &pair_in_app_dir()).unwrap();
    assert!(!status.is_admin);
    assert!(!status.can_capture);
    assert!(status.windivert_driver_found);
}

#[test]
fn admin_privileges_summary_when_query_fails() {
    let r = check_admin_privileges(&query_failed("no token"), &pair_in_app_dir());
    assert_eq!(
        r.unwrap_err(),
        "Failed to detect administrator privileges: no token"
    );
}

#[test]
fn error_messages_are_descriptive() {
    assert_eq!(
        CaptureError::RequiresAdminPrivileges.message(),
        "Application requires Administrator privileges to capture network traffic. Please restart the application as Administrator."
    );
    assert_eq!(
        CaptureError::PrivilegeDetectionFailed(String::from("token query failed")).message(),
        "Failed to detect administrator privileges: token query failed"
    );
    assert_eq!(
        CaptureError::DriverBlocked.message(),
        "WinDivert driver installation blocked: WinDivert64.sys may be blocked by antivirus. Please add it to the antivirus allowlist."
    );
    assert_eq!(
        CaptureError::WinDivertInitFailed(String::from("access denied")).message(),
        "Failed to initialize WinDivert handle: access denied"
    );
    assert_eq!(
        CaptureError::ChannelError(String::from("closed")).message(),
        "Packet capture channel error: closed"
    );
    assert_eq!(
        CaptureError::CaptureLoopError(String::from("boom")).message(),
        "Capture loop error: boom"
    );
}

#[test]
fn coarse_filter_text() {
    assert_eq!(mtgo_filter(), "outbound and tcp");
}

#[test]
fn small_sample_keeps_coarse_filter() {
    let mut pairs: Vec<(String, u16)> = Vec::new();
    for _ in 0..99 {
        pairs.push((String::from("10.0.0.1"), 443));
    }
    assert_eq!(analyze_and_suggest_refined_filter(pairs), "outbound and tcp");
}

#[test]
fn empty_sample_keeps_coarse_filter() {
    assert_eq!(analyze_and_suggest_refined_filter(Vec::new()), "outbound and tcp");
}

#[test]
fn refinement_names_top_five_by_frequency() {
    let mut pairs: Vec<(String, u16)> = Vec::new();
    let spread: [(&str, u16, usize); 7] = [
        ("10.0.0.3", 80, 20),
        ("10.0.0.1", 443, 30),
        ("10.0.0.6", 443, 10),
        ("10.0.0.2", 443, 25),
        ("10.0.0.5", 80, 12),
        ("10.0.0.7", 80, 8),
        ("10.0.0.4", 443, 15),
    ];
    for (ip, port, n) in spread {
        for _ in 0..n {
            pairs.push((String::from(ip), port));
        }
    }
    let refined = analyze_and_suggest_refined_filter(pairs);
    assert_eq!(
        refined,
        "outbound and tcp and (ip.DstAddr == 10.0.0.1 or ip.DstAddr == 10.0.0.2 or ip.DstAddr == 10.0.0.3 or ip.DstAddr == 10.0.0.4 or ip.DstAddr == 10.0.0.5)"
    );
}

#[test]
fn refinement_keeps_first_seen_order_on_equal_counts() {
    let mut pairs: Vec<(String, u16)> = Vec::new();
    for _ in 0..50 {
        pairs.push((String::from("1.1.1.1"), 443));
        pairs.push((String::from("2.2.2.2"), 443));
    }
    let refined = analyze_and_suggest_refined_filter(pairs);
    assert_eq!(
        refined,
        "outbound and tcp and (ip.DstAddr == 1.1.1.1 or ip.DstAddr == 2.2.2.2)"
    );
}

#[test]
fn refinement_counts_ports_as_distinct_keys() {
    let mut pairs: Vec<(String, u16)> = Vec::new();
    for _ in 0..60 {
        pairs.push((String::from("9.9.9.9"), 80));
    }
    for _ in 0..40 {
        pairs.push((String::from("9.9.9.9"), 443));
    }
    let refined = analyze_and_suggest_refined_filter(pairs);
    assert_eq!(
        refined,
        "outbound and tcp and (ip.DstAddr == 9.9.9.9 or ip.DstAddr == 9.9.9.9)"
    );
}

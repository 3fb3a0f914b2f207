use backlightd::control::{ddcutil, parse_control_method, swaydpms, sysfs, sysfs_path, ControlMethod};
use backlightd::error::Error;

#[test]
fn test_swaydpms_parsing() {
    let v = swaydpms(b"swaydpms:DP-3").unwrap();
    assert_eq!(v, ControlMethod::SwayDPMS(b"DP-3".to_vec()));
}

#[test]
fn test_ddcutil_parsing() {
    let v = ddcutil(b"ddcutil:1").unwrap();
    let expected = ControlMethod::DDCUtil(1);
    assert_eq!(v, expected);
}

#[test]
fn test_sysfs_parsing() {
    let v = sysfs(b"sysfs:/path/to/file").unwrap();
    let expected = ControlMethod::SysFS(b"/path/to/file".to_vec());
    assert_eq!(v, expected);
}

#[test]
fn ddcutil_number_rules() {
    assert_eq!(ddcutil(b"DDCUTIL:255"), Some(ControlMethod::DDCUtil(255)));
    assert_eq!(ddcutil(b"ddcutil:007"), Some(ControlMethod::DDCUtil(7)));
    assert_eq!(ddcutil(b"ddcutil:3."), Some(ControlMethod::DDCUtil(3)));
    assert_eq!(ddcutil(b"ddcutil:256"), None);
    assert_eq!(ddcutil(b"ddcutil:1.5"), None);
    assert_eq!(ddcutil(b"ddcutil:"), None);
    assert_eq!(ddcutil(b"ddcutil:x"), None);
}

#[test]
fn control_method_dispatch() {
    assert_eq!(parse_control_method(b"sysfs:/sys/x"), Ok(ControlMethod::SysFS(b"/sys/x".to_vec())));
    assert_eq!(parse_control_method(b"ddcutil:2"), Ok(ControlMethod::DDCUtil(2)));
    assert_eq!(parse_control_method(b"SwayDPMS:eDP-1"), Ok(ControlMethod::SwayDPMS(b"eDP-1".to_vec())));
    assert_eq!(
        parse_control_method(b"serial:1"),
        Err(Error::BadConfiguration("Could not parse control method"))
    );
}

#[test]
fn sysfs_path_joins() {
    assert_eq!(sysfs_path(b"card0-DP-1", b"brightness"), b"/sys/class/drm/card0-DP-1/brightness".to_vec());
    assert_eq!(
        ControlMethod::new_sysfs(b"card0-DP-1", b"dpms", true),
        Some(ControlMethod::SysFS(b"/sys/class/drm/card0-DP-1/dpms".to_vec()))
    );
    assert_eq!(ControlMethod::new_sysfs(b"card0-DP-1", b"dpms", false), None);
}

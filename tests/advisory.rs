use host_bridge::status::{get_autostart_state, get_winfsp_install_state};

#[test]
fn autostart_answers_pass_through() {
    assert!(get_autostart_state(Ok(true)));
    assert!(!get_autostart_state(Ok(false)));
}

#[test]
fn failed_autostart_query_reads_as_disabled() {
    assert!(!get_autostart_state(Err("registry key missing".to_string())));
}

#[test]
fn winfsp_answers_pass_through() {
    assert!(get_winfsp_install_state(Ok(true)));
    assert!(!get_winfsp_install_state(Ok(false)));
}

#[test]
fn failed_winfsp_query_reads_as_not_installed() {
    assert!(!get_winfsp_install_state(Err("access denied".to_string())));
}

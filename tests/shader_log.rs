use scene_core::shader::{check_status, log_text, whitespace_bytes, ShaderStep};

#[test]
fn whitespace_buffer_has_requested_length() {
    assert_eq!(whitespace_bytes(4), b"    ".to_vec());
    assert!(whitespace_bytes(0).is_empty());
}

#[test]
fn log_text_stops_at_nul() {
    assert_eq!(log_text(&b"error: x\0  ".to_vec()), b"error: x".to_vec());
    assert_eq!(log_text(&b"no nul".to_vec()), b"no nul".to_vec());
    assert!(log_text(&b"\0abc".to_vec()).is_empty());
}

#[test]
fn successful_step_is_ok() {
    assert!(check_status(ShaderStep::Compile, 1, &b"\0".to_vec()).is_ok());
}

#[test]
fn failed_link_carries_log() {
    let e = check_status(ShaderStep::Link, 0, &b"undefined main\0".to_vec()).unwrap_err();
    assert_eq!(e.step, ShaderStep::Link);
    assert_eq!(e.log, b"undefined main".to_vec());
}

#[test]
fn failed_compile_carries_log() {
    let e = check_status(ShaderStep::Compile, 0, &b"0:1: syntax error\0 ".to_vec()).unwrap_err();
    assert_eq!(e.step, ShaderStep::Compile);
    assert_eq!(e.log, b"0:1: syntax error".to_vec());
}

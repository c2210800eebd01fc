use rust_core::boundary::{free_compile_result, free_string, Buffer, CompileResult, SilentDownload};

#[test]
fn success_hands_over_every_buffer_and_warning() {
    let r = CompileResult::from_outcome(Ok((
        vec![vec![1, 2], vec![3]],
        vec!["unused label".to_string()],
    )));
    assert_eq!(r.buffers.len(), 2);
    assert_eq!(r.buffers[0].bytes, vec![1, 2]);
    assert_eq!(r.buffers[1].len(), 1);
    assert_eq!(r.warnings.len(), 1);
    assert_eq!(r.warnings[0].message, "unused label");
    assert!(r.error.is_none());
    free_compile_result(r);
}

#[test]
fn failure_has_no_buffers_or_warnings() {
    let r = CompileResult::from_outcome(Err("expected length".to_string()));
    assert!(r.buffers.is_empty());
    assert!(r.warnings.is_empty());
    assert_eq!(r.error.as_deref(), Some("expected length"));
    free_compile_result(r);
}

#[test]
fn default_result_is_empty() {
    let r = CompileResult::default();
    assert!(r.buffers.is_empty() && r.warnings.is_empty() && r.error.is_none());
    free_compile_result(r);
}

#[test]
fn empty_success_is_released() {
    let r = CompileResult::success(Vec::new(), Vec::new());
    assert!(r.buffers.is_empty() && r.warnings.is_empty() && r.error.is_none());
    free_compile_result(r);
    free_string("done".to_string());
}

#[test]
fn buffer_length() {
    let b = Buffer { bytes: vec![0; 5] };
    assert_eq!(b.len(), 5);
    let s = SilentDownload(7u8);
    assert_eq!(s.0, 7);
}

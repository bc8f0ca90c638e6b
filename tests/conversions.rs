use vlc::{
    bool_to_native, native_bool, position_result, sentinel_result, status_result, InternalError, NativeHandle,
    OwnedHandle, UNAVAILABLE, UNAVAILABLE_POSITION_BITS,
};

#[test]
fn status_zero_is_success_only() {
    assert_eq!(status_result(0), Ok(()));
    assert_eq!(status_result(1), Err(InternalError));
    assert_eq!(status_result(-1), Err(InternalError));
    assert_eq!(status_result(i32::MIN), Err(InternalError));
}

#[test]
fn integer_sentinel_is_failure() {
    assert_eq!(UNAVAILABLE, -1);
    assert_eq!(sentinel_result(-1), Err(InternalError));
    assert_eq!(sentinel_result(0), Ok(0));
    assert_eq!(sentinel_result(-2), Ok(-2));
    assert_eq!(sentinel_result(125_000), Ok(125_000));
}

#[test]
fn position_sentinel_is_exactly_minus_one() {
    assert_eq!(UNAVAILABLE_POSITION_BITS, (-1.0f32).to_bits());
    assert_eq!(position_result((-1.0f32).to_bits()), Err(InternalError));
    let zero = 0.0f32.to_bits();
    assert_eq!(position_result(zero).map(f32::from_bits), Ok(0.0));
    let near = (-0.99999994f32).to_bits();
    assert_eq!(position_result(near), Ok(near));
    let half = 0.5f32.to_bits();
    assert_eq!(position_result(half).map(f32::from_bits), Ok(0.5));
}

#[test]
fn native_truth_values() {
    assert!(!native_bool(0));
    assert!(native_bool(1));
    assert!(native_bool(-7));
    assert_eq!(bool_to_native(true), 1);
    assert_eq!(bool_to_native(false), 0);
}

#[test]
fn owned_handle_from_null_fails() {
    assert!(OwnedHandle::from_created(NativeHandle::null()).is_err());
    assert!(OwnedHandle::from_returned(NativeHandle { addr: 0 }).is_none());
    let h = OwnedHandle::from_created(NativeHandle { addr: 0x40 }).ok().unwrap();
    assert_eq!(h.raw(), NativeHandle { addr: 0x40 });
    assert_eq!(h.release(), NativeHandle { addr: 0x40 });
}

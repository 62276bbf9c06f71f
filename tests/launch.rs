use zluda::error::CuError;
use zluda::function::{
    check_legacy_launch, get_attribute, required_buffer_size, round_up_to_multiple,
    scan_legacy_params, FunctionData, LaunchParam, LegacyArguments,
};
use zluda::state::GlobalState;

fn legacy(size: usize) -> Vec<LaunchParam> {
    vec![LaunchParam::BufferPointer(0x1000), LaunchParam::BufferSize(size), LaunchParam::End]
}

#[test]
fn round_up_values() {
    assert_eq!(round_up_to_multiple(0, 4), 0);
    assert_eq!(round_up_to_multiple(4, 8), 8);
    assert_eq!(round_up_to_multiple(16, 4), 16);
    assert_eq!(round_up_to_multiple(17, 4), 20);
    assert_eq!(round_up_to_multiple(5, 1), 5);
}

#[test]
fn required_size_with_padding() {
    assert_eq!(required_buffer_size(&vec![4, 8, 4]), Some(20));
    assert_eq!(required_buffer_size(&vec![]), Some(0));
    assert_eq!(required_buffer_size(&vec![1, 2, 4, 8]), Some(16));
    assert_eq!(required_buffer_size(&vec![4, 0]), None);
    assert_eq!(required_buffer_size(&vec![usize::MAX, 2]), None);
}

#[test]
fn legacy_size_must_match() {
    let sizes = vec![4, 8, 4];
    assert_eq!(check_legacy_launch(&sizes, &legacy(20)), Ok(()));
    assert_eq!(check_legacy_launch(&sizes, &legacy(16)), Err(CuError::InvalidValue));
    assert_eq!(check_legacy_launch(&sizes, &legacy(21)), Err(CuError::InvalidValue));
    assert_eq!(check_legacy_launch(&sizes, &legacy(0)), Err(CuError::InvalidValue));
}

#[test]
fn scan_finds_pointer_and_size() {
    let e = vec![LaunchParam::BufferSize(8), LaunchParam::BufferPointer(0x40), LaunchParam::End];
    assert_eq!(scan_legacy_params(&e), Ok((0x40, 8)));
    let later = vec![
        LaunchParam::BufferSize(8),
        LaunchParam::BufferPointer(0x40),
        LaunchParam::BufferSize(12),
        LaunchParam::End,
        LaunchParam::Unknown(9),
    ];
    assert_eq!(scan_legacy_params(&later), Ok((0x40, 12)));
}

#[test]
fn scan_rejects_unknown_tag() {
    let e = vec![LaunchParam::BufferPointer(0x40), LaunchParam::Unknown(3), LaunchParam::BufferSize(8), LaunchParam::End];
    assert_eq!(scan_legacy_params(&e), Err(CuError::InvalidValue));
}

#[test]
fn scan_rejects_incomplete_buffer() {
    assert_eq!(scan_legacy_params(&vec![LaunchParam::BufferPointer(1), LaunchParam::End]), Err(CuError::InvalidValue));
    assert_eq!(scan_legacy_params(&vec![LaunchParam::BufferSize(1), LaunchParam::End]), Err(CuError::InvalidValue));
    assert_eq!(scan_legacy_params(&vec![LaunchParam::End]), Err(CuError::InvalidValue));
    assert_eq!(scan_legacy_params(&vec![LaunchParam::BufferPointer(1), LaunchParam::BufferSize(1)]), Err(CuError::InvalidValue));
}

fn state_with_function() -> (GlobalState, zluda::handle::Handle) {
    let mut s = GlobalState::init(&vec![1]);
    let f = s.function_insert(FunctionData::new(5, vec![4, 8, 4], false));
    (s, f)
}

fn launch(s: &GlobalState, f: Option<zluda::handle::Handle>, stream: Option<zluda::handle::Handle>, kp: &Option<Vec<u64>>, extra: &Option<Vec<LaunchParam>>) -> Result<(), CuError> {
    s.launch_kernel(f, 1, 1, 1, 32, 1, 1, 0, stream, kp, extra)
}

#[test]
fn launch_legacy_convention() {
    let (s, f) = state_with_function();
    assert_eq!(launch(&s, Some(f), None, &None, &Some(legacy(20))), Ok(()));
    assert_eq!(launch(&s, Some(f), None, &None, &Some(legacy(24))), Err(CuError::InvalidValue));
}

#[test]
fn launch_modern_convention() {
    let (s, f) = state_with_function();
    assert_eq!(launch(&s, Some(f), None, &Some(vec![1, 2, 3]), &None), Ok(()));
}

#[test]
fn launch_rejects_both_or_neither() {
    let (mut s, f) = state_with_function();
    assert_eq!(launch(&s, Some(f), None, &Some(vec![1]), &Some(legacy(20))), Err(CuError::InvalidValue));
    assert_eq!(launch(&s, Some(f), None, &None, &None), Err(CuError::InvalidValue));
    assert_eq!(s.function_destroy(f), Ok(()));
    assert_eq!(launch(&s, Some(f), None, &None, &None), Err(CuError::InvalidValue));
    assert_eq!(launch(&s, None, None, &None, &Some(legacy(20))), Err(CuError::InvalidValue));
}

#[test]
fn launch_checks_handles() {
    let (mut s, f) = state_with_function();
    assert_eq!(s.ctx_create(0, zluda::device::Index(0)).is_ok(), true);
    let st = s.stream_create().unwrap();
    assert_eq!(launch(&s, Some(f), Some(st), &None, &Some(legacy(20))), Ok(()));
    assert_eq!(s.stream_destroy(st), Ok(()));
    assert_eq!(launch(&s, Some(f), Some(st), &None, &Some(legacy(20))), Err(CuError::InvalidHandle));
    assert_eq!(s.function_destroy(f), Ok(()));
    assert_eq!(launch(&s, Some(f), None, &None, &Some(legacy(20))), Err(CuError::InvalidHandle));
}

#[test]
fn legacy_arguments_lifecycle() {
    let mut a = LegacyArguments::new();
    assert!(!a.is_initialized());
    a.set_block_shape(1, 2, 3);
    assert!(a.is_initialized());
    assert_eq!(a.block_shape(), Some((1, 2, 3)));
    a.reset();
    assert!(!a.is_initialized());
    assert_eq!(a.block_shape(), None);
}

#[test]
fn block_shape_rules() {
    let (mut s, f) = state_with_function();
    assert_eq!(s.set_block_shape(Some(f), -1, 1, 1), Err(CuError::InvalidValue));
    assert_eq!(s.set_block_shape(Some(f), 1, -1, 1), Err(CuError::InvalidValue));
    assert_eq!(s.set_block_shape(Some(f), 1, 1, i32::MIN), Err(CuError::InvalidValue));
    assert_eq!(s.function_block_shape(f), Ok(None));
    assert_eq!(s.set_block_shape(None, 1, 1, 1), Err(CuError::InvalidValue));
    assert_eq!(s.set_block_shape(Some(f), 0, 0, 0), Ok(()));
    assert_eq!(s.function_block_shape(f), Ok(Some((0, 0, 0))));
    assert_eq!(s.set_block_shape(Some(f), 32, 4, 2), Ok(()));
    assert_eq!(s.function_block_shape(f), Ok(Some((32, 4, 2))));
    assert_eq!(launch(&s, Some(f), None, &None, &Some(legacy(20))), Ok(()));
    assert_eq!(s.function_destroy(f), Ok(()));
    assert_eq!(s.set_block_shape(Some(f), 1, 1, 1), Err(CuError::InvalidHandle));
}

#[test]
fn function_attribute_rules() {
    let (_s, f) = state_with_function();
    assert_eq!(get_attribute(0, None), Err(CuError::InvalidValue));
    assert_eq!(get_attribute(0, Some(f)), Err(CuError::NotSupported));
}

#[test]
fn accessors_check_handles() {
    let (mut s, f) = state_with_function();
    assert_eq!(s.function(f).map(|d| d.arg_size.clone()), Ok(vec![4, 8, 4]));
    assert_eq!(s.function(f).map(|d| d.base), Ok(5));
    s.ctx_create(0, zluda::device::Index(0)).unwrap();
    let st = s.stream_create().unwrap();
    assert!(s.stream(st).is_ok());
    assert_eq!(s.stream_destroy(st), Ok(()));
    assert_eq!(s.stream(st).err(), Some(CuError::InvalidHandle));
    assert_eq!(s.stream_destroy(st), Err(CuError::InvalidHandle));
    assert_eq!(s.function_destroy(f), Ok(()));
    assert_eq!(s.function(f).err(), Some(CuError::InvalidHandle));
    assert_eq!(s.function_destroy(f), Err(CuError::InvalidHandle));
}

#[test]
fn legacy_last_size_wins() {
    let sizes = vec![4, 8, 4];
    let e = vec![
        LaunchParam::BufferSize(16),
        LaunchParam::BufferPointer(0x10),
        LaunchParam::BufferPointer(0x20),
        LaunchParam::BufferSize(20),
        LaunchParam::End,
    ];
    assert_eq!(check_legacy_launch(&sizes, &e), Ok(()));
    let e = vec![
        LaunchParam::BufferSize(20),
        LaunchParam::BufferPointer(0x10),
        LaunchParam::BufferSize(16),
        LaunchParam::End,
    ];
    assert_eq!(check_legacy_launch(&sizes, &e), Err(CuError::InvalidValue));
}

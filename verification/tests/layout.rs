use rust_slice::RustSlice;
use std::mem::{align_of, size_of};

const OPTION_ADDS_NO_WORD: () =
    assert!(size_of::<Option<RustSlice>>() == size_of::<RustSlice>());

#[test]
fn optional_handle_needs_no_tag() {
    let () = OPTION_ADDS_NO_WORD;
    assert_eq!(size_of::<Option<RustSlice>>(), size_of::<RustSlice>());
    assert_eq!(align_of::<Option<RustSlice>>(), align_of::<RustSlice>());
}

#[test]
fn handle_is_two_words() {
    assert_eq!(size_of::<RustSlice>(), 2 * size_of::<usize>());
    assert_eq!(align_of::<RustSlice>(), align_of::<usize>());
}

#[test]
fn handle_is_laid_out_like_a_slice_of_units() {
    assert_eq!(size_of::<RustSlice>(), size_of::<&[()]>());
    assert_eq!(align_of::<RustSlice>(), align_of::<&[()]>());
}

#[test]
fn handle_is_laid_out_like_a_slice_of_bytes() {
    assert_eq!(size_of::<RustSlice>(), size_of::<&[u8]>());
    assert_eq!(align_of::<RustSlice>(), align_of::<&[u8]>());
}

#[test]
fn handle_is_laid_out_like_a_slice_of_eight_byte_words() {
    assert_eq!(size_of::<RustSlice>(), size_of::<&[u64]>());
    assert_eq!(align_of::<RustSlice>(), align_of::<&[u64]>());
    assert_eq!(size_of::<RustSlice>(), size_of::<&mut [u64]>());
    assert_eq!(align_of::<RustSlice>(), align_of::<&mut [u64]>());
}

#[test]
fn handle_is_laid_out_like_a_slice_of_wider_aligned_elements() {
    assert!(align_of::<u128>() >= align_of::<usize>());
    assert_eq!(size_of::<RustSlice>(), size_of::<&[u128]>());
    assert_eq!(align_of::<RustSlice>(), align_of::<&[u128]>());
}

#[test]
fn present_handle_of_an_empty_run_is_not_absent() {
    let data: [u8; 0] = [];
    let present: Option<RustSlice> = Some(RustSlice::from_ref(&data));
    let absent: Option<RustSlice> = None;
    assert!(present.is_some());
    assert!(absent.is_none());
    match present {
        Some(handle) => {
            assert_ne!(handle.as_ptr(), 0);
            assert_eq!(handle.len(), 0);
        }
        None => panic!("a handle was stored"),
    }
}

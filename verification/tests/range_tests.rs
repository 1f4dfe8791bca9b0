use blaze_rs::base::error_codes::ErrorType;
use blaze_rs::buffer::chunks::{chunks_left, next_chunk, nth_chunk, remainder_range};
use blaze_rs::buffer::complex::{copy_to_args, element_range, len_in_elements};
use blaze_rs::buffer::events::{copy_byte_args, element_count};
use blaze_rs::buffer::range::{Bound, BufferRange};
use blaze_rs::buffer::rect::{rect_copy_params, rect_len, row_and_slice_pitch, row_pitch, slice_pitch};

fn size_error_desc<T: std::fmt::Debug>(r: Result<T, blaze_rs::base::error::Error>) -> String {
    let e = r.unwrap_err();
    assert_eq!(e.ty, ErrorType::InvalidBufferSize);
    e.desc.unwrap()
}

#[test]
fn range_from_parts_in_bytes() {
    assert_eq!(BufferRange::from_parts::<u32>(2, 3).unwrap(), BufferRange::new(8, 12));
    assert_eq!(BufferRange::from_parts::<u8>(0, 0).unwrap(), BufferRange::new(0, 0));
}

#[test]
fn range_from_parts_overflow() {
    assert_eq!(size_error_desc(BufferRange::from_parts::<u32>(usize::MAX, 1)), "overflow calculating range offset");
    assert_eq!(size_error_desc(BufferRange::from_parts::<u32>(1, usize::MAX)), "overflow calculating range size");
}

#[test]
fn range_from_bounds() {
    let r = BufferRange::from_range::<u16>(Bound::Included(1), Bound::Excluded(4), 100).unwrap();
    assert_eq!((r.offset, r.cb), (2, 6));
    let r = BufferRange::from_range::<u16>(Bound::Excluded(1), Bound::Included(4), 100).unwrap();
    assert_eq!((r.offset, r.cb), (4, 6));
    let r = BufferRange::from_range::<u16>(Bound::Unbounded, Bound::Unbounded, 10).unwrap();
    assert_eq!((r.offset, r.cb), (0, 10));
    let r = BufferRange::from_byte_range(Bound::Included(3), Bound::Excluded(7), 0).unwrap();
    assert_eq!((r.offset, r.cb), (3, 4));
}

#[test]
fn range_from_bounds_overflow() {
    let r = BufferRange::from_range::<u8>(Bound::Excluded(usize::MAX), Bound::Unbounded, usize::MAX);
    assert_eq!(size_error_desc(r), "overflow calculating range offset");
    let r = BufferRange::from_range::<u8>(Bound::Unbounded, Bound::Included(usize::MAX), 0);
    assert_eq!(size_error_desc(r), "overflow calculating range size");
    let r = BufferRange::from_range::<u16>(Bound::Unbounded, Bound::Included(usize::MAX / 2), 0);
    assert_eq!(size_error_desc(r), "overflow calculating range offset");
    let r = BufferRange::from_range::<u32>(Bound::Unbounded, Bound::Excluded(usize::MAX), 0);
    assert_eq!(size_error_desc(r), "overflow calculating range size");
}

#[test]
fn chunks_walk_the_buffer() {
    let (r, next) = next_chunk::<u32>(0, 4, 10).unwrap().unwrap();
    assert_eq!((r, next), (BufferRange::new(0, 16), 4));
    let (r, next) = next_chunk::<u32>(4, 4, 10).unwrap().unwrap();
    assert_eq!((r, next), (BufferRange::new(16, 16), 8));
    assert!(next_chunk::<u32>(8, 4, 10).is_none());
    let (r, next) = nth_chunk::<u32>(0, 4, 1, 10).unwrap().unwrap();
    assert_eq!((r, next), (BufferRange::new(16, 16), 8));
    assert!(nth_chunk::<u32>(0, 4, 2, 10).is_none());
    assert_eq!(chunks_left(0, 4, 10), 2);
    assert_eq!(chunks_left(3, 4, 10), 1);
}

#[test]
fn chunks_remainder() {
    assert_eq!(remainder_range::<u32>(0, 4, 10).unwrap(), Some(BufferRange::new(32, 8)));
    assert_eq!(remainder_range::<u32>(0, 5, 10).unwrap(), None);
    assert_eq!(remainder_range::<u32>(10, 3, 10).unwrap(), None);
}

#[test]
fn chunk_overflow_is_reported() {
    let r = next_chunk::<u64>(usize::MAX / 4, 1, usize::MAX).unwrap();
    assert_eq!(size_error_desc(r), "overflow calculating range offset");
}

#[test]
fn copy_arguments_in_bytes() {
    assert_eq!(copy_to_args::<u32>(Some(1), None, Some(2), 100).unwrap(), (4, 0, 8));
    assert_eq!(copy_to_args::<u32>(None, Some(2), None, 40).unwrap(), (0, 8, 40));
    assert_eq!(copy_to_args::<u32>(Some(2), None, None, 40).unwrap(), (8, 0, 32));
    let e = copy_to_args::<u32>(Some(usize::MAX), None, Some(1), 0).unwrap_err();
    assert_eq!(e.ty, ErrorType::InvalidValue);
    assert!(e.desc.is_none());
    let e = copy_to_args::<u32>(None, None, Some(usize::MAX), 0).unwrap_err();
    assert_eq!(e.ty, ErrorType::InvalidValue);
    assert_eq!(copy_byte_args::<u32>(1, 2, 3), (4, 8, 12));
}

#[test]
fn element_sizes() {
    assert_eq!(element_range::<u32>(3), BufferRange::new(12, 4));
    assert_eq!(len_in_elements::<u32>(40), 10);
    assert_eq!(len_in_elements::<u32>(41), 10);
    assert_eq!(element_count::<u16>(BufferRange::new(4, 10)), 5);
}

#[test]
fn rect_pitches_and_sizes() {
    assert_eq!(row_pitch::<u32>(5), 20);
    assert_eq!(slice_pitch::<u32>(5, 3), 60);
    assert_eq!(row_and_slice_pitch::<u16>(4, 2), (8, 16));
    assert_eq!(rect_len(3, 4).unwrap(), 12);
    let e = rect_len(0, 4).unwrap_err();
    assert_eq!(e.ty, ErrorType::InvalidBufferSize);
    assert_eq!(e.desc.as_deref(), Some("overflow multiplying 'rows' and 'cols'"));
    assert!(rect_len(usize::MAX, 2).is_err());
}

#[test]
fn rect_copy_parameters() {
    let p = rect_copy_params::<u32>(10, [1, 2], [3, 4], [5, 6]);
    assert_eq!(p.host_row_pitch, 40);
    assert_eq!(p.buffer_origin, [4, 2, 0]);
    assert_eq!(p.host_origin, [12, 4, 0]);
    assert_eq!(p.region, [20, 6, 1]);
}

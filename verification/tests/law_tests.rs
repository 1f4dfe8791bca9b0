use blaze_rs::base::device::{partition_list_valid, PartitionProperty};
use blaze_rs::base::error_codes::ErrorType;
use blaze_rs::base::version::Version;
use blaze_rs::base::queue::{queue_takes_property_list, queue_list_valid, CommandQueueProperties, OutOfOrderExec, QueueProperties};
use blaze_rs::base::words::split_whitespace;
use blaze_rs::buffer::chunks::{chunks_left, nth_chunk, remainder_range};
use blaze_rs::buffer::range::{offset_cb_plain, Bound, BufferRange};
use blaze_rs::buffer::rect::host::Rect2D;
use blaze_rs::context::flags::{context_list_valid, ContextProperties};

#[test]
fn chunks_and_remainder_cover_the_buffer() {
    for (offset, len, buf_len) in [(0usize, 3usize, 10usize), (2, 4, 10), (0, 5, 10), (7, 1, 9), (10, 4, 10)] {
        let whole = chunks_left(offset, len, buf_len);
        let covered = match remainder_range::<u8>(offset, len, buf_len).unwrap() {
            Some(r) => {
                assert_eq!(r.offset, offset + whole * len);
                assert!(r.cb < len);
                r.cb
            }
            None => 0,
        };
        assert_eq!(offset + whole * len + covered, buf_len);
        if whole > 0 {
            let (last, next) = nth_chunk::<u8>(offset, len, whole - 1, buf_len).unwrap().unwrap();
            assert_eq!(last, BufferRange::new(offset + (whole - 1) * len, len));
            assert_eq!(next, offset + whole * len);
        }
        assert!(nth_chunk::<u8>(offset, len, whole, buf_len).is_none());
    }
}

#[test]
fn transposing_twice_gives_the_rectangle_back() {
    let r = Rect2D::new(&[1, 2, 3, 4, 5, 6, 7, 8], 4).unwrap();
    let back = r.transpose().transpose();
    assert_eq!((back.width(), back.height()), (4, 2));
    assert_eq!(back.as_slice(), r.as_slice());
    let c = Rect2D::new(&[1, 2, 3, 4, 5, 6], 2).unwrap();
    let t = c.transpose_clone();
    assert_eq!(t.as_slice(), c.transpose().as_slice());
    assert_eq!(t.transpose_clone().as_slice(), c.as_slice());
}

#[test]
fn property_lists_read_back() {
    for q in [
        QueueProperties::new(CommandQueueProperties::new(OutOfOrderExec::Disabled, false), None),
        QueueProperties::new(CommandQueueProperties::new(OutOfOrderExec::OnDevice(true), true), Some(64)),
    ] {
        let bits = q.to_bits();
        assert!(queue_list_valid(&bits));
        assert_eq!(QueueProperties::from_bits(&bits), q);
    }
    let c = ContextProperties::new(None, true);
    assert!(context_list_valid(&c.to_bits().unwrap()));
    let p = PartitionProperty::Counts(vec![1, 1]);
    assert!(partition_list_valid(&p.to_bits()));
}

#[test]
fn malformed_property_lists_are_refused() {
    assert!(queue_list_valid(&[]));
    assert!(!queue_list_valid(&[0x1093]));
    assert!(!queue_list_valid(&[0x1094, 1 << 40, 0]));
    assert!(!queue_list_valid(&[0x1234, 1, 0]));
    assert!(context_list_valid(&[0]));
    assert!(!context_list_valid(&[0x1084, 5]));
    assert!(!context_list_valid(&[0x1084, 5, 0x1085]));
    assert!(partition_list_valid(&[0x1087]));
    assert!(!partition_list_valid(&[0x1088, 3, 0]));
    assert!(!partition_list_valid(&[0x1086]));
}

#[test]
fn plain_byte_ranges() {
    assert_eq!(offset_cb_plain(Bound::Included(2), Bound::Excluded(6), 100), (2, 4));
    assert_eq!(offset_cb_plain(Bound::Excluded(2), Bound::Included(6), 100), (3, 4));
    assert_eq!(offset_cb_plain(Bound::Unbounded, Bound::Unbounded, 64), (0, 64));
}

#[test]
fn words_are_never_empty() {
    for s in ["  a  b ", "\t\n", "x", "a\u{2003}b"] {
        for w in split_whitespace(s) {
            assert!(!w.is_empty());
            assert!(!w.chars().any(char::is_whitespace));
        }
    }
}

#[test]
fn every_error_kind_has_a_distinct_code() {
    let mut seen = std::collections::HashSet::new();
    for code in -10000..0 {
        if let Some(k) = ErrorType::from_code(code) {
            assert_eq!(k.as_i32(), code);
            assert!(seen.insert(k.as_i32()));
        }
    }
    assert_eq!(seen.len(), 63);
}

#[test]
fn row_iterators_count_down_to_nothing() {
    let r = Rect2D::new(&[1, 2, 3, 4, 5, 6], 2).unwrap();
    let n = r.height();
    let mut it = r.rows();
    for k in 0..6usize {
        assert_eq!(it.len(), n.saturating_sub(k));
        let row = it.next();
        assert_eq!(row.is_none(), k >= n);
    }
    assert_eq!(it.len(), 0);
}

#[test]
fn queue_creation_follows_the_common_version() {
    assert!(!queue_takes_property_list(Version::cl1_2()));
    assert!(queue_takes_property_list(Version::cl2()));
    assert!(queue_takes_property_list(Version::cl3()));
    assert!(!queue_takes_property_list(Version::from_inner_parts(1, 1023, 4095)));
}

#[test]
fn rectangles_are_made_whenever_a_row_fits() {
    assert!(Rect2D::new(&[7u8; 5], 5).is_some());
    assert!(Rect2D::new(&[7u8; 5], 6).is_none());
    assert!(Rect2D::<u32>::new_uninit(3, 4).is_some());
    assert!(Rect2D::<u32>::new_zeroed(1, 1).is_some());
}

#[test]
fn ranges_are_ordered_or_left_to_the_overflow_errors() {
    use_range_ordered();
}

fn use_range_ordered() {
    assert!(blaze_rs::buffer::range::range_ordered::<u32>(Bound::Included(1), Bound::Excluded(3), 0));
    assert!(!blaze_rs::buffer::range::range_ordered::<u32>(Bound::Included(3), Bound::Excluded(1), 0));
    assert!(!blaze_rs::buffer::range::range_ordered::<u16>(Bound::Excluded(4), Bound::Unbounded, 8));
    assert!(blaze_rs::buffer::range::range_ordered::<u16>(Bound::Excluded(3), Bound::Unbounded, 8));
    assert!(blaze_rs::buffer::range::range_ordered::<u64>(Bound::Included(usize::MAX), Bound::Excluded(0), 0));
}

#[test]
fn the_shared_counter_always_lands_on_a_slot() {
    assert_eq!(blaze_rs::context::cyclic::advance_cycle(0, 3), 1);
    assert_eq!(blaze_rs::context::cyclic::advance_cycle(2, 3), 0);
    assert_eq!(blaze_rs::context::cyclic::advance_cycle(usize::MAX, 3), 1);
    assert_eq!(blaze_rs::context::cyclic::advance_cycle(7, 1), 0);
}

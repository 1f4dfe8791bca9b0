use blaze_rs::base::error::Error;
use blaze_rs::base::error_codes::ErrorType;
use blaze_rs::buffer::events::{CopyBuffer, FillBuffer, ReadBuffer, ReadBufferInto, WriteBuffer};
use blaze_rs::buffer::manager::AccessManager;
use blaze_rs::buffer::rect::host::Rect2D;
use blaze_rs::buffer::rect::{ReadIntoBufferRect2D, WriteBufferRect2D};
use blaze_rs::event::RawEvent;

fn ev(id: usize) -> RawEvent {
    RawEvent::from_id(id)
}

#[test]
fn reads_wait_for_the_last_write() {
    let mut m = AccessManager::default();
    let mut wait = Vec::new();
    m.extend_to_read(&mut wait);
    m.extend_to_write(&mut wait);
    assert!(wait.is_empty());
    m.write(ev(1));
    m.extend_to_read(&mut wait);
    assert_eq!(wait, vec![ev(1)]);
    m.read(ev(2));
    m.read(ev(3));
    let mut wait = vec![ev(9)];
    m.extend_to_read(&mut wait);
    assert_eq!(wait, vec![ev(9)]);
}

#[test]
fn writes_wait_for_every_read() {
    let mut m = AccessManager::default();
    m.write(ev(1));
    m.read(ev(2));
    m.read(ev(3));
    let mut wait = Vec::new();
    m.extend_to_write(&mut wait);
    assert_eq!(wait, vec![ev(2), ev(3)]);
    m.write(ev(4));
    let mut wait = Vec::new();
    m.extend_to_write(&mut wait);
    assert_eq!(wait, vec![ev(4)]);
}

#[test]
fn finished_events_hand_back_their_values() {
    let err = Error::from_type(ErrorType::InvalidEvent);
    let c = CopyBuffer::from_parts(ev(1), "src", "dst");
    assert_eq!(*c.as_raw(), ev(1));
    assert_eq!(c.consume(None).unwrap(), ("src", "dst"));
    assert_eq!(CopyBuffer::from_parts(ev(1), 1, 2).consume(Some(err.clone())), Err(err.clone()));
    assert_eq!(FillBuffer::from_parts(ev(2), 5).consume(None), Ok(5));
    assert_eq!(FillBuffer::from_parts(ev(2), 5).consume(Some(err.clone())), Err(err.clone()));
    let r = ReadBuffer::from_parts(ev(3), vec![1, 2, 3], "buf");
    assert_eq!(r.consume(None).unwrap(), vec![1, 2, 3]);
    let r = ReadBuffer::from_parts(ev(3), vec![1, 2, 3], "buf").with_src();
    assert_eq!(*r.as_raw(), ev(3));
    assert_eq!(r.consume(None).unwrap(), (vec![1, 2, 3], "buf"));
    let r = ReadBuffer::from_parts(ev(3), vec![1], "buf");
    assert!(r.consume(Some(err.clone())).is_err());
    assert_eq!(ReadBufferInto::from_parts(ev(4), 'a', 'b').consume(None), Ok(('a', 'b')));
    assert_eq!(WriteBuffer::from_parts(ev(5), 'a', 'b').consume(None), Ok(()));
    assert_eq!(WriteBuffer::from_parts(ev(5), 'a', 'b').consume(Some(err.clone())), Err(err.clone()));
    assert_eq!(ReadIntoBufferRect2D::from_parts(ev(6), 1, 2).consume(None), Ok((1, 2)));
    assert_eq!(WriteBufferRect2D::from_parts(ev(7), 1, 2).consume(None), Ok((1, 2)));
    assert_eq!(*WriteBufferRect2D::from_parts(ev(7), 1, 2).as_raw(), ev(7));
}

#[test]
fn rectangles_are_row_major() {
    let r = Rect2D::new(&[1, 2, 3, 4, 5, 6], 3).unwrap();
    assert_eq!((r.width(), r.height(), r.len()), (3, 2, 6));
    assert_eq!(r.get(0, 1), Some(&2));
    assert_eq!(r.get(1, 0), Some(&4));
    assert_eq!(r.get(2, 0), None);
    assert_eq!(r.get(0, 3), None);
    assert_eq!(r.get_copy(1, 2), Some(6));
    assert_eq!(*r.get_unchecked(2, 1), 6);
    assert_eq!(r.get_unchecked_copy(0, 1), 4);
    assert_eq!(r.get_row(1), Some(&[4, 5, 6][..]));
    assert_eq!(r.get_row(2), None);
    assert_eq!(r.get_row_unckecked(0), &[1, 2, 3]);
    assert_eq!(r.as_slice(), &[1, 2, 3, 4, 5, 6]);
    assert!(Rect2D::new(&[1, 2], 3).is_none());
    assert!(Rect2D::<u8>::new(&[], 0).is_none());
}

#[test]
fn rectangles_from_columns_and_transposed() {
    let r = Rect2D::new_col_major(&[1, 2, 3, 4, 5, 6], 2).unwrap();
    assert_eq!((r.width(), r.height()), (3, 2));
    assert_eq!(r.as_slice(), &[1, 3, 5, 2, 4, 6]);
    let r = Rect2D::new(&[1, 2, 3, 4, 5, 6], 3).unwrap();
    let t = r.transpose();
    assert_eq!((t.width(), t.height()), (2, 3));
    assert_eq!(t.as_slice(), &[1, 4, 2, 5, 3, 6]);
    assert_eq!(t.transpose().into_vec(), vec![1, 2, 3, 4, 5, 6]);
}

#[test]
fn rectangle_rows_and_columns() {
    let r = Rect2D::new(&[1, 2, 3, 4, 5, 6], 3).unwrap();
    let mut rows = r.rows_iter();
    assert_eq!(rows.len(), 2);
    assert_eq!(rows.next(), Some(&[1, 2, 3][..]));
    assert_eq!(rows.next(), Some(&[4, 5, 6][..]));
    assert_eq!(rows.next(), None);
    assert_eq!(r.rows().len(), 2);
    let mut cols = r.cols_iter();
    assert_eq!(cols.len(), 3);
    let mut c1 = { cols.next(); cols.next().unwrap() };
    assert_eq!(c1.len(), 2);
    assert_eq!(*c1.index(1), 5);
    assert_eq!(c1.next(), Some(&2));
    assert_eq!(c1.next(), Some(&5));
    assert_eq!(c1.next(), None);
    let mut r = r;
    assert_eq!(r.rows_iter_mut().len(), 2);
}

#[test]
fn uninitialised_rectangles() {
    let r = Rect2D::<u32>::new_zeroed(2, 3).unwrap();
    assert_eq!((r.width(), r.height(), r.len()), (2, 3, 6));
    let r = Rect2D::<u32>::new_uninit(4, 1).unwrap();
    assert_eq!(r.len(), 4);
    assert!(Rect2D::<u32>::new_zeroed(0, 3).is_none());
    assert!(Rect2D::<u32>::new_uninit(usize::MAX, 2).is_none());
}

#[test]
fn rectangle_cells_change_in_place() {
    let mut r = Rect2D::new(&[1, 2, 3, 4, 5, 6], 3).unwrap();
    *r.get_mut(1, 2).unwrap() = 60;
    *r.get_unchecked_mut(0, 1) = 40;
    assert!(r.get_mut(2, 0).is_none());
    assert!(r.get_mut(0, 3).is_none());
    assert_eq!(r.as_slice(), &[1, 2, 3, 40, 5, 60]);
}

#[test]
fn rectangles_larger_than_any_allocation_are_refused() {
    assert!(Rect2D::<u16>::new_uninit(1 << 62, 1).is_none());
    assert!(Rect2D::<u16>::new_zeroed(1, 1 << 62).is_none());
    assert!(Rect2D::<u64>::new_uninit(usize::MAX / 8, 2).is_none());
}

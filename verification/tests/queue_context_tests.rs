use blaze_rs::base::platform::RawPlatform;
use blaze_rs::base::queue::{CommandQueueProperties, OutOfOrderExec, QueueProperties};
use blaze_rs::context::cyclic::{next_cyclic_index, queue_slot, CyclicContext};
use blaze_rs::context::flags::ContextProperties;
use blaze_rs::context::global::Global;
use blaze_rs::context::notify::Notify;
use blaze_rs::context::supplier::KernelEnqueueSupplier;
use std::sync::atomic::{AtomicUsize, Ordering};
use std::sync::Arc;

#[test]
fn execution_modes_roundtrip() {
    for e in [OutOfOrderExec::Disabled, OutOfOrderExec::Enabled, OutOfOrderExec::OnDevice(false), OutOfOrderExec::OnDevice(true)] {
        assert_eq!(OutOfOrderExec::from_bits(e.to_bits()), e);
    }
    assert_eq!(OutOfOrderExec::OnDevice(true).to_bits(), 13);
    assert_eq!(OutOfOrderExec::from(true), OutOfOrderExec::Enabled);
    assert_eq!(OutOfOrderExec::from(false), OutOfOrderExec::Disabled);
    assert_eq!(OutOfOrderExec::default(), OutOfOrderExec::Disabled);
}

#[test]
fn queue_properties_roundtrip() {
    let p = CommandQueueProperties::new(OutOfOrderExec::Enabled, true);
    assert_eq!(p.to_bits(), 3);
    assert_eq!(CommandQueueProperties::from_bits(3), p);
    assert_eq!(CommandQueueProperties::from_bits(p.to_bits()), p);
    let q = QueueProperties::new(p, None);
    assert_eq!(q.to_bits(), vec![0x1093, 3, 0]);
    assert_eq!(QueueProperties::from_bits(&q.to_bits()), q);
    let q = QueueProperties::new(CommandQueueProperties::new(OutOfOrderExec::OnDevice(false), false), Some(1024));
    let bits = q.to_bits();
    assert_eq!(bits, vec![0x1093, 5, 0x1094, 1024, 0]);
    assert_eq!(QueueProperties::from_bits(&bits), q);
    assert_eq!(QueueProperties::from_bits(&[]), QueueProperties::default());
    assert_eq!(QueueProperties::from(p).props, p);
}

#[test]
fn context_properties_roundtrip() {
    let platform = RawPlatform::from_id(0x1234).unwrap();
    let c = ContextProperties::new(Some(platform), true);
    let bits = c.to_bits().unwrap();
    assert_eq!(bits, [0x1084, 0x1234, 0x1085, 1, 0]);
    assert_eq!(ContextProperties::from_bits(&bits), c);
    let c = ContextProperties::new(None, true);
    assert_eq!(c.to_bits(), Some([0x1084, 0, 0x1085, 1, 0]));
    assert_eq!(ContextProperties::from_bits(&c.to_bits().unwrap()), c);
    assert_eq!(ContextProperties::default().to_bits(), None);
    assert_eq!(ContextProperties::from_bits(&[]), ContextProperties::default());
    assert_eq!(ContextProperties::from_bits(&[0x1084, 7, 0]), ContextProperties::new(RawPlatform::from_id(7), false));
}

#[test]
fn platforms_are_never_null() {
    assert!(RawPlatform::from_id(0).is_none());
    assert_eq!(RawPlatform::from_id(9).unwrap().id(), 9);
}

#[test]
fn cyclic_indices() {
    assert_eq!(next_cyclic_index(0, 3), 1);
    assert_eq!(next_cyclic_index(1, 3), 2);
    assert_eq!(next_cyclic_index(2, 3), 0);
    assert_eq!(next_cyclic_index(0, 1), 0);
    assert_eq!(queue_slot(2, 3), 2);
    assert_eq!(queue_slot(7, 3), 0);
}

#[test]
fn cyclic_context_takes_turns() {
    let ctx = CyclicContext::new("ctx", vec!['a', 'b', 'c']);
    assert_eq!(*ctx.as_raw(), "ctx");
    assert_eq!(ctx.queues(), &['a', 'b', 'c']);
    let order: Vec<char> = (0..7).map(|_| *ctx.next_queue()).collect();
    assert_eq!(order, vec!['a', 'b', 'c', 'a', 'b', 'c', 'a']);
}

#[test]
fn notify_decrements_once() {
    let count = Arc::new(AtomicUsize::new(2));
    Notify::new(count.clone()).notify();
    assert_eq!(count.load(Ordering::Acquire), 1);
    Notify::new(count.clone()).notify();
    assert_eq!(count.load(Ordering::Acquire), 0);
}

#[test]
fn global_context_is_unique() {
    assert_eq!(*Global::get(), Global);
    assert_eq!(Global::default(), Global);
}

#[test]
fn kernel_supplier_keeps_its_parts() {
    let s = KernelEnqueueSupplier::new("kernel", [4usize, 2], Some([2usize, 1]));
    assert_eq!(s.into_parts(), ("kernel", [4, 2], Some([2, 1])));
    let s = KernelEnqueueSupplier::<u8, 1>::new(1, [8], None);
    assert_eq!(s.into_parts(), (1, [8], None));
}

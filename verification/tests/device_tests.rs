use blaze_rs::base::device::{
    mem_cache_access, AffinityDomain, AtomicCapabilities, AtomicOrder, AtomicScope, DeviceEnqueueCapabilities,
    DeviceType, ExecCapabilities, FpConfig, LocalMemType, PartitionProperty, SvmCapability,
};
use blaze_rs::base::kernel::{arg_access, AddrQualifier, MemObjectType, TypeQualifier};
use blaze_rs::buffer::flags::MemAccess;

#[test]
fn device_type_flags() {
    assert_eq!(DeviceType::cpu().bits(), 2);
    assert_eq!(DeviceType::gpu().bits(), 4);
    assert_eq!(DeviceType::accelerator().bits(), 8);
    assert_eq!(DeviceType::default_type().bits(), 16);
    let both = DeviceType::cpu().union(DeviceType::gpu());
    assert_eq!(both.bits(), 6);
    assert!(both.contains(DeviceType::gpu()));
    assert!(!both.contains(DeviceType::accelerator()));
    assert_eq!(both.intersection(DeviceType::gpu()), DeviceType::gpu());
    assert!(DeviceType::empty().is_empty());
    assert_eq!(DeviceType::from_bits(6), Some(both));
    assert_eq!(DeviceType::from_bits(1), None);
    assert_eq!(DeviceType::from_bits_truncate(7), both);
    assert_eq!(DeviceType::all().bits(), 30);
}

#[test]
fn capability_flags() {
    assert_eq!(FpConfig::all().bits(), 255);
    assert_eq!(FpConfig::from_bits(256), None);
    assert!(FpConfig::from_bits(3).unwrap().contains(FpConfig::denorm()));
    assert_eq!(ExecCapabilities::kernel().union(ExecCapabilities::native_kernel()), ExecCapabilities::all());
    assert_eq!(SvmCapability::all().bits(), 15);
    assert_eq!(SvmCapability::from_bits_truncate(0x13).bits(), 3);
}

#[test]
fn memory_kinds() {
    assert_eq!(LocalMemType::Local.code(), 1);
    assert_eq!(LocalMemType::from_code(2), Some(LocalMemType::Global));
    assert_eq!(LocalMemType::from_code(3), None);
    assert_eq!(mem_cache_access(0), MemAccess::none());
    assert_eq!(mem_cache_access(1), MemAccess::read_only());
    assert_eq!(mem_cache_access(2), MemAccess::read_write());
}

#[test]
fn atomic_capabilities() {
    let c = AtomicCapabilities::from_bits(1 | 2 | 8 | 16 | 32).unwrap();
    assert_eq!(c.order, AtomicOrder::AcqRel);
    assert!(c.work_item_scope);
    assert_eq!(c.scope, AtomicScope::Device);
    let c = AtomicCapabilities::from_bits(4 | 64).unwrap();
    assert_eq!((c.order, c.work_item_scope, c.scope), (AtomicOrder::SeqCst, false, AtomicScope::AllDevices));
    assert!(AtomicCapabilities::from_bits(1 | 8).is_none());
    assert!(AtomicCapabilities::from_bits(16).is_none());
    assert_eq!(DeviceEnqueueCapabilities::from_bits(3), Some(DeviceEnqueueCapabilities::ReplaceableDefault));
    assert_eq!(DeviceEnqueueCapabilities::from_bits(1), Some(DeviceEnqueueCapabilities::Supported));
    assert_eq!(DeviceEnqueueCapabilities::from_bits(0), None);
}

#[test]
fn affinity_domains() {
    let all = [
        AffinityDomain::Numa,
        AffinityDomain::L4Cache,
        AffinityDomain::L3Cache,
        AffinityDomain::L2Cache,
        AffinityDomain::L1Cache,
        AffinityDomain::NextPartitionable,
    ];
    for (i, d) in all.iter().enumerate() {
        assert_eq!(d.code(), 1u64 << i);
        assert_eq!(AffinityDomain::from_code(d.code()), Some(*d));
    }
    assert_eq!(AffinityDomain::from_code(3), None);
}

#[test]
fn partition_lists_roundtrip() {
    let props = [
        PartitionProperty::Equally(4),
        PartitionProperty::Counts(vec![2, 3, 1]),
        PartitionProperty::Counts(vec![]),
        PartitionProperty::AffinityDomain(AffinityDomain::L2Cache),
    ];
    for p in props {
        let bits = p.to_bits();
        assert_eq!(PartitionProperty::from_slice(&bits), Some(p));
    }
    assert_eq!(PartitionProperty::Equally(4).to_bits(), vec![0x1086, 4, 0]);
    assert_eq!(PartitionProperty::Counts(vec![2, 3]).to_bits(), vec![0x1087, 2, 3, 0]);
    assert_eq!(PartitionProperty::AffinityDomain(AffinityDomain::Numa).to_bits(), vec![0x1088, 1, 0]);
    assert_eq!(PartitionProperty::from_slice(&[]), None);
    assert_eq!(PartitionProperty::from_slice(&[0]), None);
    assert_eq!(PartitionProperty::from_slice(&[0x1087, 5, 0, 7]), Some(PartitionProperty::Counts(vec![5])));
}

#[test]
fn kernel_argument_info() {
    assert_eq!(AddrQualifier::Global.code(), 0x119B);
    assert_eq!(AddrQualifier::from_code(0x119E), Some(AddrQualifier::Private));
    assert_eq!(AddrQualifier::from_code(0), None);
    assert_eq!(AddrQualifier::default(), AddrQualifier::Private);
    assert_eq!(arg_access(0x11A0), MemAccess::read_only());
    assert_eq!(arg_access(0x11A1), MemAccess::write_only());
    assert_eq!(arg_access(0x11A2), MemAccess::read_write());
    assert_eq!(arg_access(0x11A3), MemAccess::none());
    let q = TypeQualifier::const_qualifier().union(TypeQualifier::volatile());
    assert_eq!(q.bits(), 5);
    assert!(q.contains(TypeQualifier::volatile()));
    assert!(!q.contains(TypeQualifier::restrict()));
    assert_eq!(TypeQualifier::default(), TypeQualifier::empty());
    assert_eq!(TypeQualifier::from_bits(8), None);
    assert_eq!(MemObjectType::from_code(0x10F0), Some(MemObjectType::Buffer));
    assert_eq!(u32::from(MemObjectType::Pipe), 0x10F7);
    assert_eq!(MemObjectType::from_code(0x10F4), None);
}

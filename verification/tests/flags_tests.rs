use blaze_rs::buffer::flags::{HostPtr, MemAccess, MemFlags};

#[test]
fn mem_access_bits_roundtrip() {
    for (r, w) in [(false, false), (true, false), (false, true), (true, true)] {
        let a = MemAccess::new(r, w);
        assert_eq!(MemAccess::from_bits(a.to_bits()), a);
        assert_eq!(MemAccess::from_bits_host(a.to_bits_host()), a);
    }
    assert_eq!(MemAccess::read_write().to_bits(), 1);
    assert_eq!(MemAccess::read_only().to_bits(), 4);
    assert_eq!(MemAccess::write_only().to_bits(), 2);
    assert_eq!(MemAccess::none().to_bits_host(), 512);
}

#[test]
fn host_ptr_bits() {
    assert_eq!(HostPtr::USE.to_bits(), 8);
    assert_eq!(HostPtr::alloc_copy().to_bits(), 48);
    assert_eq!(HostPtr::from_bits(8 | 16), HostPtr::Use);
    assert!(HostPtr::new(true, false).is_alloc());
    assert!(!HostPtr::new(true, false).is_copy());
}

#[test]
fn mem_flags_roundtrip() {
    let f = MemFlags::with_host_access(MemAccess::read_only(), MemAccess::write_only(), HostPtr::copy_only());
    assert_eq!(f.to_bits(), 4 | 32 | 128);
    assert_eq!(MemFlags::from_bits(f.to_bits()), f);
    assert_eq!(MemFlags::default().to_bits(), 1);
}

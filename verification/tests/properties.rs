use sensitive_data::compute_layout;
use sensitive_data::zeroize_bytes;
use sensitive_data::Error;
use sensitive_data::PageLayout;
use sensitive_data::Prot;
use sensitive_data::SensitiveData;

const PAGE: usize = 4096;

#[test]
fn layout_exact_values() {
    assert_eq!(
        compute_layout(8, 8, 4096),
        Ok(PageLayout { size: 4096, align: 4096 })
    );
    assert_eq!(
        compute_layout(5000, 8, 4096),
        Ok(PageLayout { size: 8192, align: 4096 })
    );
    assert_eq!(compute_layout(0, 1, 1), Ok(PageLayout { size: 0, align: 1 }));
    assert_eq!(
        compute_layout(4096, 8192, 4096),
        Ok(PageLayout { size: 8192, align: 8192 })
    );
}

#[test]
fn layout_rejects_bad_alignment() {
    assert_eq!(compute_layout(8, 3, 4096), Err(Error::LayoutError));
    assert_eq!(compute_layout(8, 0, 4096), Err(Error::LayoutError));
    assert_eq!(compute_layout(8, 8, 3), Err(Error::LayoutError));
    assert_eq!(compute_layout(8, 8, 0), Err(Error::LayoutError));
}

#[test]
fn layout_rejects_overflow() {
    assert_eq!(
        compute_layout(usize::MAX / 2, 1, 4096),
        Err(Error::LayoutError)
    );
    assert_eq!(compute_layout(usize::MAX, 1, 1), Err(Error::LayoutError));
}

#[test]
fn construction_rejects_bad_page() {
    let r: Result<SensitiveData<u64>, Error> = SensitiveData::new(42, 3);
    assert_eq!(r.err(), Some(Error::LayoutError));
}

#[test]
fn error_carries_os_code() {
    assert_eq!(Error::IoError(12).os_code(), Some(12));
    assert_eq!(Error::LayoutError.os_code(), None);
}

#[test]
fn zeroize_covers_every_byte() {
    let mut region: Vec<u8> = (0..5000u32).map(|i| (i % 251 + 1) as u8).collect();
    zeroize_bytes(&mut region);
    assert_eq!(region.len(), 5000);
    assert!(region.iter().all(|b| *b == 0));

    let mut small: Vec<u8> = vec![7, 7, 7];
    zeroize_bytes(&mut small);
    assert_eq!(small, vec![0, 0, 0]);

    let mut empty: Vec<u8> = Vec::new();
    zeroize_bytes(&mut empty);
    assert_eq!(empty.len(), 0);
}

#[test]
fn lazy_guard_is_a_noop() {
    let mut a: SensitiveData<u64> = SensitiveData::new(9, PAGE).unwrap();
    assert_eq!(a.reader_count(), 0);
    assert_eq!(a.protection(), Prot::NoAccess);
    let g = a.borrow();
    assert_eq!(a.reader_count(), 0);
    assert_eq!(a.protection(), Prot::NoAccess);
    a.release(g);
    assert_eq!(a.reader_count(), 0);
    assert_eq!(a.protection(), Prot::NoAccess);
}

#[test]
fn readers_keep_region_readable_until_last_release() {
    let mut a: SensitiveData<u64> = SensitiveData::new(10, PAGE).unwrap();
    let mut g1 = a.borrow();
    let mut g2 = a.borrow();
    a.register(&mut g2);
    assert_eq!(a.reader_count(), 1);
    assert_eq!(a.protection(), Prot::ReadOnly);
    a.register(&mut g1);
    assert_eq!(a.reader_count(), 2);
    assert_eq!(a.protection(), Prot::ReadOnly);
    assert_eq!(*a.get(), 10);
    a.release(g1);
    assert_eq!(a.reader_count(), 1);
    assert_eq!(a.protection(), Prot::ReadOnly);
    assert_eq!(*a.get(), 10);
    a.release(g2);
    assert_eq!(a.reader_count(), 0);
    assert_eq!(a.protection(), Prot::NoAccess);
}

#[test]
fn sequencing_read_write_read() {
    let mut a: SensitiveData<u64> = SensitiveData::new(1, PAGE).unwrap();

    let mut g = a.borrow();
    a.register(&mut g);
    assert_eq!(*a.get(), 1);
    a.release(g);
    assert_eq!(a.protection(), Prot::NoAccess);

    let w = a.borrow_mut();
    assert_eq!(a.protection(), Prot::NoAccess);
    a.expose_readable(&w);
    assert_eq!(a.protection(), Prot::ReadOnly);
    assert_eq!(*a.get(), 1);
    let prev = a.write(&w, 7);
    assert_eq!(prev, 1);
    assert_eq!(a.protection(), Prot::ReadWrite);
    assert_eq!(*a.get(), 7);
    a.release_mut(w);
    assert_eq!(a.protection(), Prot::NoAccess);
    assert_eq!(a.reader_count(), 0);

    let mut g2 = a.borrow();
    a.register(&mut g2);
    assert_eq!(*a.get(), 7);
    a.release(g2);
    assert_eq!(a.protection(), Prot::NoAccess);
}

#[test]
fn end_to_end_u64() {
    let mut a: SensitiveData<u64> = SensitiveData::new(42, PAGE).unwrap();
    let l = SensitiveData::<u64>::layout(PAGE).unwrap();
    assert_eq!(l, PageLayout { size: 4096, align: 4096 });
    let mut g = a.borrow();
    a.register(&mut g);
    assert_eq!(*a.get(), 42);
    a.release(g);
    a.assert_no_borrows();
    let region = a.destroy();
    assert_eq!(region.len(), 4096);
    assert!(region.iter().all(|b| *b == 0));
}

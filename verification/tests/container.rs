use std::cell::Cell;
use std::rc::Rc;

use sensitive_data::SensitiveData;

const PAGE: usize = 4096;

struct SomeTestStruct {
    a: u8,
}

struct WithDestructor {
    destructor_executed: Rc<Cell<bool>>,
}

impl Drop for WithDestructor {
    fn drop(&mut self) {
        self.destructor_executed.set(true);
    }
}

#[test]
fn zeroized_when_created() {
    let mut a: SensitiveData<u8> = SensitiveData::new_zeroed(PAGE).unwrap();
    let mut g = a.borrow();
    a.register(&mut g);
    assert_eq!(*a.get(), 0);
    a.release(g);
}

#[test]
fn pads_to_page() {
    let a: SensitiveData<SomeTestStruct> =
        SensitiveData::new(SomeTestStruct { a: 0 }, PAGE).unwrap();
    let l = SensitiveData::<SomeTestStruct>::layout(PAGE).unwrap();
    assert_eq!(l.size, l.align);
    a.assert_no_mut_borrows();
}

#[test]
fn value_when_created() {
    let mut a: SensitiveData<SomeTestStruct> =
        SensitiveData::new(SomeTestStruct { a: 5 }, PAGE).unwrap();
    let mut g = a.borrow();
    a.register(&mut g);
    assert_eq!(a.get().a, 5);
    a.release(g);
}

#[test]
fn destructor_executed() {
    let destructor_executed = Rc::new(Cell::new(false));
    let a: SensitiveData<WithDestructor> = SensitiveData::new(
        WithDestructor { destructor_executed: destructor_executed.clone() },
        PAGE,
    )
    .unwrap();
    assert_eq!(destructor_executed.get(), false);
    let region = a.destroy();
    assert_eq!(destructor_executed.get(), true);
    assert!(region.iter().all(|b| *b == 0));
}

#[test]
fn multiple_readers() {
    let a: SensitiveData<SomeTestStruct> =
        SensitiveData::new(SomeTestStruct { a: 0 }, PAGE).unwrap();
    let _b = a.borrow();
    let _c = a.borrow();
}

#[test]
fn reader_then_writer_then_reader() {
    let mut a: SensitiveData<SomeTestStruct> =
        SensitiveData::new(SomeTestStruct { a: 0 }, PAGE).unwrap();
    {
        let b = a.borrow();
        a.release(b);
    }
    {
        let c = a.borrow_mut();
        a.release_mut(c);
    }
    let c = a.borrow();
    a.release(c);
}

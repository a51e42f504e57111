//! Tests of the handle/receiver runtime.

use std::cell::RefCell;
use std::rc::Rc;

use snec::{EmptyReceiver, Entry, FnReceiver, Get, GetExt, Handle, IterReceiver, Receiver};

/// The marker of a plain integer entry.
enum TestEntry {}

impl Entry for TestEntry {
    type Data = i32;

    fn name() -> &'static str {
        "test_entry"
    }
}

type Log = Rc<RefCell<Vec<i32>>>;

fn logging_receiver(log: &Log) -> FnReceiver<TestEntry, impl Fn(&i32) + Clone> {
    let log = log.clone();
    FnReceiver::new(move |v: &i32| log.borrow_mut().push(*v))
}

#[test]
fn replace_notifies_exactly_once_with_the_new_value() {
    let log: Log = Rc::new(RefCell::new(Vec::new()));
    let mut handle = Handle::<TestEntry, _>::new(1, logging_receiver(&log));
    handle.set(5);
    assert_eq!(*handle.get_ref(), 5);
    assert_eq!(*log.borrow(), vec![5]);
    handle.set(7);
    assert_eq!(*handle.get_ref(), 7);
    assert_eq!(*log.borrow(), vec![5, 7]);
}

#[test]
fn modify_with_notifies_once_with_the_mutated_value() {
    let log: Log = Rc::new(RefCell::new(Vec::new()));
    let mut handle = Handle::<TestEntry, _>::new(10, logging_receiver(&log));
    handle.modify_with(|v: &i32| v + 32);
    assert_eq!(*handle.get_ref(), 42);
    assert_eq!(*log.borrow(), vec![42]);
}

#[test]
fn scoped_modification_notifies_once_on_exit_with_the_final_value() {
    let log: Log = Rc::new(RefCell::new(Vec::new()));
    let handle = Handle::<TestEntry, _>::new(1, logging_receiver(&log));
    let mut scope = handle.modify();
    *scope.get_mut() = 41;
    *scope.get_mut() += 1;
    // Nothing has been observed while the scope is open.
    assert!(log.borrow().is_empty());
    let handle = scope.finish();
    assert_eq!(*handle.get_ref(), 42);
    assert_eq!(*log.borrow(), vec![42]);
}

#[test]
fn silent_operations_update_storage_and_notify_nothing() {
    let log: Log = Rc::new(RefCell::new(Vec::new()));
    let mut handle = Handle::<TestEntry, _>::new(1, logging_receiver(&log));
    handle.set_silently(2);
    assert_eq!(*handle.get_ref(), 2);
    *handle.modify_silently() = 3;
    assert_eq!(*handle.get_ref(), 3);
    handle.modify_silently_with(|v: &i32| v * 2);
    assert_eq!(*handle.get_ref(), 6);
    assert!(log.borrow().is_empty());
}

#[test]
fn iter_receiver_notifies_every_receiver() {
    let log: Log = Rc::new(RefCell::new(Vec::new()));
    let log2 = log.clone();
    let closure = move |v: &i32| log2.borrow_mut().push(*v);
    let receivers = vec![
        FnReceiver::<TestEntry, _>::new(closure.clone()),
        FnReceiver::<TestEntry, _>::new(closure),
    ];
    let mut handle = Handle::<TestEntry, _>::new(0, IterReceiver::new(receivers));
    handle.set(9);
    assert_eq!(*log.borrow(), vec![9, 9]);
}

#[test]
fn box_receiver_forwards() {
    let log: Log = Rc::new(RefCell::new(Vec::new()));
    let mut handle = Handle::<TestEntry, _>::new(0, Box::new(logging_receiver(&log)));
    handle.set(3);
    assert_eq!(*log.borrow(), vec![3]);
}

#[test]
fn option_receiver_forwards_or_does_nothing() {
    let log: Log = Rc::new(RefCell::new(Vec::new()));
    let mut some: Option<_> = Some(logging_receiver(&log));
    some.receive(&4);
    assert_eq!(*log.borrow(), vec![4]);
    let mut none: Option<FnReceiver<TestEntry, fn(&i32)>> = None;
    none.receive(&5);
    assert_eq!(*log.borrow(), vec![4]);
}

#[test]
fn empty_receiver_does_nothing() {
    let mut handle = Handle::<TestEntry, EmptyReceiver>::new(1, EmptyReceiver);
    handle.set(2);
    assert_eq!(*handle.get_ref(), 2);
    assert_eq!(EmptyReceiver, EmptyReceiver.clone());
}

/// The end-to-end shape that one bare annotation derives for
/// `struct MyConfigTable { a: i32 }`: a marker `A` carrying `i32` and the
/// name `"a"`, and an accessor with the no-op default receiver.
struct MyConfigTable {
    a: i32,
}

enum A {}

impl Entry for A {
    type Data = i32;

    fn name() -> &'static str {
        "a"
    }
}

impl Get<A> for MyConfigTable {
    type Receiver = EmptyReceiver;

    // The two specification items of the trait survive compilation as
    // ordinary trait items; nothing ever calls them at run time.
    fn spec_field(&self) -> i32 {
        panic!()
    }

    fn receiver_wf(&self) -> bool {
        panic!()
    }

    fn get_ref(&self) -> &i32 {
        &self.a
    }

    fn get_handle(&mut self) -> Handle<A, EmptyReceiver> {
        Handle::new(self.a, EmptyReceiver)
    }

    fn put_back(&mut self, handle: Handle<A, EmptyReceiver>) {
        self.a = *handle.get_ref();
    }
}

#[test]
fn end_to_end_generated_shape() {
    // The generation side: the derived description for the struct above.
    let input = snec::ConfigTableStruct {
        attrs: vec![],
        ident: b"MyConfigTable".to_vec(),
        data: snec::TypeData::Struct(snec::Fields::Named(vec![snec::Field {
            name: b"a".to_vec(),
            ty: b"i32".to_vec(),
            attrs: vec![
                snec::Meta::Path(snec::MetaPath {
                    leading_colon: false,
                    segments: vec![b"cfg".to_vec()],
                }),
                snec::Meta::Path(snec::MetaPath {
                    leading_colon: false,
                    segments: vec![b"snec".to_vec()],
                }),
            ],
        }])),
    };
    let out = snec::derive_config_table_expand(input).unwrap();
    assert_eq!(out.entries.len(), 1);
    assert_eq!(out.entries[0].marker_name, b"A".to_vec());
    assert_eq!(out.entries[0].field_type, b"i32".to_vec());
    assert_eq!(out.entries[0].field_name, b"a".to_vec());
    assert_eq!(
        out.impls[0].receiver_type.segments,
        vec![b"snec".to_vec(), b"EmptyReceiver".to_vec()]
    );

    // The runtime side: what that derived accessor does.
    assert_eq!(A::name(), "a");
    let mut t = MyConfigTable { a: 1 };
    let mut handle = t.get_handle_to::<A>();
    handle.set(5);
    t.put_back(handle);
    assert_eq!(t.a, 5);
    assert_eq!(*t.get_ref_to::<A>(), 5);
}

use std::sync::Mutex;

use ffi_trait::{
    align_of_val_mut, align_of_val_nonnull, align_of_val_ptr, align_of_val_ref, size_of_val_mut,
    size_of_val_nonnull, size_of_val_ptr, size_of_val_ref, FFIDynBox, FFIDynMut, FFIDynNonNull,
    FFIDynRef, FFITrait, GenericVtable, GenericVtableLayout, IntoTraitObject,
    IntoTraitObjectRuntime,
};

/// The interface under test: one method that returns an integer.
trait Get {
    fn get(&self) -> i32;

    /// The table of the implementing type.
    fn table(&self) -> &'static GetTable;
}

/// The table of `Get`, written out by hand: the canonical head, then one field for
/// the one method.
#[derive(Clone, Copy)]
struct GetTable {
    head: GenericVtable,
    get: fn(usize) -> i32,
}

impl GenericVtableLayout for GetTable {
    fn head(&self) -> GenericVtable {
        self.head
    }

    fn as_generic(&self) -> &GenericVtable {
        &self.head
    }
}

impl FFITrait for dyn Get {
    type Vtable = GetTable;
}

struct Answer {
    value: i32,
    weight: u64,
}

impl Get for Answer {
    fn get(&self) -> i32 {
        self.value
    }

    fn table(&self) -> &'static GetTable {
        &ANSWER_TABLE
    }
}

/// The values that can be reached by their address.
static LIVE: Mutex<Vec<&'static Answer>> = Mutex::new(Vec::new());

fn publish(value: i32) -> &'static Answer {
    let answer: &'static Answer = Box::leak(Box::new(Answer { value, weight: 7 }));
    LIVE.lock().unwrap().push(answer);
    answer
}

fn address<S: ?Sized>(x: &S) -> usize {
    std::ptr::from_ref(x).addr()
}

/// Forwards an erased call of `get` to the value at `this`.
fn raw_get(this: usize) -> i32 {
    let live = LIVE.lock().unwrap();
    let target = live.iter().find(|answer| address::<Answer>(answer) == this).unwrap();
    <Answer as Get>::get(target)
}

static ANSWER_TABLE: GetTable = GetTable {
    head: GenericVtable {
        size: std::mem::size_of::<Answer>(),
        align: std::mem::align_of::<Answer>(),
        drop_in_place: None,
        dealloc: None,
    },
    get: raw_get,
};

impl IntoTraitObjectRuntime<dyn Get> for Answer {
    fn vt(&self) -> GetTable {
        ANSWER_TABLE
    }

    fn get_vt<'a>(&'a self) -> &'a GetTable {
        &ANSWER_TABLE
    }
}

impl IntoTraitObject<dyn Get> for Answer {
    const VTABLE: &'static GetTable = &ANSWER_TABLE;

    fn lemma_static_table(&self) {}
}

impl IntoTraitObjectRuntime<dyn Get> for dyn Get {
    fn vt(&self) -> GetTable {
        *self.table()
    }

    fn get_vt<'a>(&'a self) -> &'a GetTable {
        self.table()
    }
}

impl<'a> Get for FFIDynRef<'a, dyn Get> {
    fn get(&self) -> i32 {
        (self.vtable().get)(self.to_ptr().data)
    }

    fn table(&self) -> &'static GetTable {
        &ANSWER_TABLE
    }
}

#[test]
fn dyn_ref_points_at_the_value_and_its_table() {
    let v = Answer { value: 1, weight: 2 };
    let r = v.dyn_ref();
    let p = r.to_ptr();
    assert_eq!(p.data, address(&v));
    assert!(std::ptr::eq(p.vtable.get().unwrap(), &ANSWER_TABLE));
    assert!(!p.is_null());
    assert_eq!(v.weight, 2);
}

#[test]
fn dyn_mut_points_at_the_value_and_its_table() {
    let mut v = Answer { value: 1, weight: 2 };
    let at = address(&v);
    let m = v.dyn_mut();
    let p = m.to_ptr();
    assert_eq!(p.data, at);
    assert!(std::ptr::eq(p.vtable.get().unwrap(), &ANSWER_TABLE));
}

#[test]
fn from_std_erases_a_native_trait_object() {
    let v = Answer { value: 5, weight: 0 };
    let native: &dyn Get = &v;
    let r = FFIDynRef::from_std(native);
    assert_eq!(r.to_ptr().data, address(&v));
    assert!(std::ptr::eq(r.vtable(), &ANSWER_TABLE));

    let converted: FFIDynRef<dyn Get> = FFIDynRef::from(native);
    assert_eq!(converted.to_ptr().data, address(&v));
    assert!(std::ptr::eq(converted.vtable(), &ANSWER_TABLE));
}

#[test]
fn from_std_erases_an_exclusive_borrow() {
    let mut v = Answer { value: 5, weight: 0 };
    let at = address(&v);
    let native: &mut dyn Get = &mut v;
    let m = FFIDynMut::from_std(native);
    assert!(std::ptr::eq(m.vtable(), &ANSWER_TABLE));
    assert_eq!(m.to_ptr().data, at);
}

#[test]
fn round_trip_keeps_address_and_table() {
    let v = Answer { value: 9, weight: 9 };
    let r = v.dyn_ref();
    let again = FFIDynRef::from_ptr(r.to_ptr());
    assert_eq!(again.to_ptr().data, address(&v));
    assert!(std::ptr::eq(again.vtable(), <Answer as IntoTraitObject<dyn Get>>::VTABLE));
    assert!(std::ptr::eq(again.vtable(), v.get_vt()));
    assert!(std::ptr::eq(again.vtable(), v.static_vt()));
}

#[test]
fn queries_report_the_native_layout_every_time() {
    let v = Answer { value: 0, weight: 0 };
    let r = v.dyn_ref();
    for _ in 0..3 {
        assert_eq!(size_of_val_ref(r), std::mem::size_of::<Answer>());
        assert_eq!(align_of_val_ref(r), std::mem::align_of::<Answer>());
        assert_eq!(size_of_val_ptr(r.to_ptr()), std::mem::size_of::<Answer>());
        assert_eq!(align_of_val_ptr(r.to_ptr()), std::mem::align_of::<Answer>());
        let n = FFIDynNonNull::new(r.to_ptr()).unwrap();
        assert_eq!(size_of_val_nonnull(n), std::mem::size_of::<Answer>());
        assert_eq!(align_of_val_nonnull(n), std::mem::align_of::<Answer>());
    }
}

#[test]
fn queries_through_an_exclusive_borrow() {
    let mut v = Answer { value: 0, weight: 0 };
    assert_eq!(size_of_val_mut(v.dyn_mut()), std::mem::size_of::<Answer>());
    assert_eq!(align_of_val_mut(v.dyn_mut()), std::mem::align_of::<Answer>());
}

#[test]
fn dispatch_through_shared_borrow_returns_42() {
    let v = publish(42);
    let r = v.dyn_ref();
    assert_eq!(r.get(), 42);
    assert_eq!((ANSWER_TABLE.get)(address(v)), 42);
    assert_eq!((r.vtable().get)(r.to_ptr().data), 42);
}

#[test]
fn dispatch_reaches_the_value_behind_the_pair() {
    let first = publish(1);
    let second = publish(2);
    assert_eq!(first.dyn_ref().get(), 1);
    assert_eq!(second.dyn_ref().get(), 2);
}

#[test]
fn erased_values_hand_out_the_table_they_carry() {
    let mut v = Answer { value: 3, weight: 3 };
    let r = v.dyn_ref();
    assert!(std::ptr::eq(r.get_vt(), &ANSWER_TABLE));

    let again = r.dyn_ref();
    assert!(std::ptr::eq(again.vtable(), &ANSWER_TABLE));
    assert_eq!(again.to_ptr().data, address(&r));

    let m = v.dyn_mut();
    assert!(std::ptr::eq(m.get_vt(), &ANSWER_TABLE));
}

#[test]
fn boxed_value_is_taken_over_where_it_lives() {
    let boxed: Box<dyn Get> = Box::new(Answer { value: 11, weight: 1 });
    let at = address(&*boxed);
    let b = FFIDynBox::from_std(boxed);
    assert!(std::ptr::eq(b.vtable(), &ANSWER_TABLE));
    assert!(std::ptr::eq(b.get_vt(), &ANSWER_TABLE));
    let p = FFIDynBox::into_raw(b);
    assert_eq!(p.data, at);
    assert!(std::ptr::eq(p.vtable.get().unwrap(), &ANSWER_TABLE));
}

#[test]
fn boxed_value_converts_with_from() {
    let boxed: Box<dyn Get> = Box::new(Answer { value: 11, weight: 1 });
    let at = address(&*boxed);
    let b: FFIDynBox<dyn Get> = FFIDynBox::from(boxed);
    assert_eq!(FFIDynBox::into_nonnull(b).data.get(), at);
}

#[test]
fn leaked_value_is_taken_over_where_it_lives() {
    let leaked: &'static mut dyn Get = Box::leak(Box::new(Answer { value: 12, weight: 1 }));
    let at = address(&*leaked);
    let b = FFIDynBox::from_raw_std(leaked);
    let m = FFIDynBox::leak(b);
    assert!(std::ptr::eq(m.vtable(), &ANSWER_TABLE));
    assert_eq!(m.to_ptr().data, at);
}

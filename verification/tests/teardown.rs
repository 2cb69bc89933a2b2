use std::sync::{LazyLock, Mutex};

use ffi_trait::{
    dealloc_mut, dealloc_nonnull, dealloc_ptr, dealloc_ref, drop_in_place_mut,
    drop_in_place_nonnull, drop_in_place_ptr, drop_in_place_ref, Call, FFIDynBox, FFIDynMut,
    FFIDynNonNull, FFIDynPtr, FFIDynRef, FFITrait, GenericVtable, Hook, IntoTraitObjectRuntime,
    NonNullAddr, VtableRef,
};

/// An interface without methods: its table is the canonical head alone.
struct Plain;

impl FFITrait for Plain {
    type Vtable = GenericVtable;
}

static BOTH: GenericVtable =
    GenericVtable { size: 8, align: 8, drop_in_place: Some(0x10), dealloc: Some(0x20) };

static DROP_ONLY: GenericVtable =
    GenericVtable { size: 8, align: 8, drop_in_place: Some(0x10), dealloc: None };

static DEALLOC_ONLY: GenericVtable =
    GenericVtable { size: 8, align: 8, drop_in_place: None, dealloc: Some(0x20) };

static NEITHER: GenericVtable =
    GenericVtable { size: 8, align: 8, drop_in_place: None, dealloc: None };

fn pair(data: usize, table: &'static GenericVtable) -> FFIDynNonNull<'static, Plain> {
    FFIDynNonNull::from_raw_parts(NonNullAddr::new(data).unwrap(), VtableRef::Live(table))
}

fn address<S: ?Sized>(x: &S) -> usize {
    std::ptr::from_ref(x).addr()
}

#[test]
fn drop_in_place_calls_the_installed_destructor_with_the_data() {
    let n = pair(0x700, &BOTH);
    let expected = Some(Call { hook: Hook::DropInPlace, function: 0x10, data: 0x700 });
    assert_eq!(drop_in_place_ptr(n.to_ptr()), expected);
    assert_eq!(drop_in_place_nonnull(n), expected);
    assert_eq!(drop_in_place_ref(FFIDynRef::from_nonnull(n)), expected);
    assert_eq!(drop_in_place_mut(FFIDynMut::from_nonnull(n)), expected);
}

#[test]
fn dealloc_calls_the_installed_deallocator_with_the_data() {
    let n = pair(0x708, &BOTH);
    let expected = Some(Call { hook: Hook::Dealloc, function: 0x20, data: 0x708 });
    assert_eq!(dealloc_ptr(n.to_ptr()), expected);
    assert_eq!(dealloc_nonnull(n), expected);
    assert_eq!(dealloc_ref(FFIDynRef::from_nonnull(n)), expected);
    assert_eq!(dealloc_mut(FFIDynMut::from_nonnull(n)), expected);
}

#[test]
fn absent_hooks_ask_for_no_call() {
    let n = pair(0x710, &NEITHER);
    assert_eq!(drop_in_place_ptr(n.to_ptr()), None);
    assert_eq!(drop_in_place_nonnull(n), None);
    assert_eq!(drop_in_place_ref(FFIDynRef::from_nonnull(n)), None);
    assert_eq!(drop_in_place_mut(FFIDynMut::from_nonnull(n)), None);
    assert_eq!(dealloc_ptr(n.to_ptr()), None);
    assert_eq!(dealloc_nonnull(n), None);
    assert_eq!(dealloc_ref(FFIDynRef::from_nonnull(n)), None);
    assert_eq!(dealloc_mut(FFIDynMut::from_nonnull(n)), None);

    assert_eq!(dealloc_nonnull(pair(0x710, &DROP_ONLY)), None);
    assert_eq!(drop_in_place_nonnull(pair(0x710, &DEALLOC_ONLY)), None);
}

#[test]
fn drop_in_place_on_a_nullable_pair_hands_over_its_data_as_it_is() {
    let p = FFIDynPtr::<Plain>::from_raw_parts(0, VtableRef::Live(&BOTH));
    assert_eq!(
        drop_in_place_ptr(p),
        Some(Call { hook: Hook::DropInPlace, function: 0x10, data: 0 })
    );
}

#[test]
fn teardown_destroys_then_releases() {
    let calls = FFIDynBox::teardown(FFIDynBox::from_nonnull(pair(0x800, &BOTH)));
    assert_eq!(
        calls,
        vec![
            Call { hook: Hook::DropInPlace, function: 0x10, data: 0x800 },
            Call { hook: Hook::Dealloc, function: 0x20, data: 0x800 },
        ]
    );
}

#[test]
fn teardown_skips_absent_hooks() {
    assert_eq!(
        FFIDynBox::teardown(FFIDynBox::from_nonnull(pair(0x800, &DROP_ONLY))),
        vec![Call { hook: Hook::DropInPlace, function: 0x10, data: 0x800 }]
    );
    assert_eq!(
        FFIDynBox::teardown(FFIDynBox::from_nonnull(pair(0x800, &DEALLOC_ONLY))),
        vec![Call { hook: Hook::Dealloc, function: 0x20, data: 0x800 }]
    );
    assert_eq!(FFIDynBox::teardown(FFIDynBox::from_nonnull(pair(0x800, &NEITHER))), vec![]);
}

#[test]
fn teardown_never_repeats_a_hook() {
    for table in [&BOTH, &DROP_ONLY, &DEALLOC_ONLY, &NEITHER] {
        let calls = FFIDynBox::teardown(FFIDynBox::from_nonnull(pair(0x900, table)));
        let drops = calls.iter().filter(|c| c.hook == Hook::DropInPlace).count();
        let frees = calls.iter().filter(|c| c.hook == Hook::Dealloc).count();
        assert!(drops <= 1);
        assert!(frees <= 1);
        assert_eq!(calls.len(), drops + frees);
        if drops == 1 && frees == 1 {
            assert_eq!(calls[0].hook, Hook::DropInPlace);
            assert_eq!(calls[1].hook, Hook::Dealloc);
        }
    }
}

/// A value whose destructor leaves a mark.
struct Flagged {
    id: u32,
    payload: Box<i32>,
}

/// The marks left by destructors of `Flagged`, in order.
static FLAGS: Mutex<Vec<u32>> = Mutex::new(Vec::new());

impl Drop for Flagged {
    fn drop(&mut self) {
        FLAGS.lock().unwrap().push(self.id);
    }
}

/// The values whose storage this file owns on behalf of erased boxes.
static OWNED: Mutex<Vec<Box<Flagged>>> = Mutex::new(Vec::new());

/// What the hooks were called with, in order.
static TRACE: Mutex<Vec<(Hook, usize)>> = Mutex::new(Vec::new());

/// The destructor hook of `Flagged`: destroys the value that lives at `data`.
fn destroy_flagged(data: usize) {
    TRACE.lock().unwrap().push((Hook::DropInPlace, data));
    let mut owned = OWNED.lock().unwrap();
    let found = owned.iter().position(|value| address::<Flagged>(value) == data);
    if let Some(at) = found {
        let value = owned.remove(at);
        drop(owned);
        drop(value);
    }
}

/// A deallocator hook that only leaves a trace.
fn release_flagged(data: usize) {
    TRACE.lock().unwrap().push((Hook::Dealloc, data));
}

/// Makes the calls that the library asks for, by looking each code address up among
/// the functions of this file.
fn perform(calls: &[Call]) {
    let known: [(usize, fn(usize)); 2] =
        [(destroy_flagged as usize, destroy_flagged), (release_flagged as usize, release_flagged)];
    for call in calls {
        let (_, function) = known.iter().find(|(at, _)| *at == call.function).unwrap();
        function(call.data);
    }
}

static FLAGGED_TABLE: LazyLock<GenericVtable> =
    LazyLock::new(|| GenericVtable::of::<Flagged>(destroy_flagged as usize));

static FLAGGED_TABLE_WITH_DEALLOC: LazyLock<GenericVtable> = LazyLock::new(|| GenericVtable {
    dealloc: Some(release_flagged as usize),
    ..GenericVtable::of::<Flagged>(destroy_flagged as usize)
});

impl FFITrait for Flagged {
    type Vtable = GenericVtable;
}

impl IntoTraitObjectRuntime<Flagged> for Flagged {
    fn vt(&self) -> GenericVtable {
        *FLAGGED_TABLE
    }

    fn get_vt<'a>(&'a self) -> &'a GenericVtable {
        &FLAGGED_TABLE
    }
}

fn own(id: u32) -> usize {
    let value = Box::new(Flagged { id, payload: Box::new(8) });
    let at = address::<Flagged>(&value);
    OWNED.lock().unwrap().push(value);
    at
}

#[test]
fn destructor_runs_exactly_once_at_end_of_life() {
    let at = own(1);
    let b: FFIDynBox<Flagged> = FFIDynBox::from_nonnull(FFIDynNonNull::from_raw_parts(
        NonNullAddr::new(at).unwrap(),
        VtableRef::Live(&*FLAGGED_TABLE),
    ));
    assert!(FLAGS.lock().unwrap().is_empty());

    let calls = FFIDynBox::teardown(b);
    assert_eq!(
        calls,
        vec![Call { hook: Hook::DropInPlace, function: destroy_flagged as usize, data: at }]
    );
    perform(&calls);

    assert_eq!(*FLAGS.lock().unwrap(), vec![1]);
    assert_eq!(*TRACE.lock().unwrap(), vec![(Hook::DropInPlace, at)]);
    assert!(OWNED.lock().unwrap().is_empty());
}

#[test]
fn destructor_runs_before_the_deallocator() {
    let at = own(2);
    let b: FFIDynBox<Flagged> = FFIDynBox::from_nonnull(FFIDynNonNull::from_raw_parts(
        NonNullAddr::new(at).unwrap(),
        VtableRef::Live(&*FLAGGED_TABLE_WITH_DEALLOC),
    ));
    perform(&FFIDynBox::teardown(b));
    assert_eq!(*FLAGS.lock().unwrap(), vec![2]);
    assert_eq!(*TRACE.lock().unwrap(), vec![(Hook::DropInPlace, at), (Hook::Dealloc, at)]);
}

#[test]
fn leak_makes_no_call() {
    let at = own(3);
    let b: FFIDynBox<Flagged> = FFIDynBox::from_nonnull(FFIDynNonNull::from_raw_parts(
        NonNullAddr::new(at).unwrap(),
        VtableRef::Live(&*FLAGGED_TABLE_WITH_DEALLOC),
    ));
    let m = FFIDynBox::leak(b);
    let p = m.to_ptr();
    assert_eq!(p.data, at);
    assert!(std::ptr::eq(p.vtable.get().unwrap(), &*FLAGGED_TABLE_WITH_DEALLOC));
    assert!(FLAGS.lock().unwrap().is_empty());
    assert!(TRACE.lock().unwrap().is_empty());
    assert_eq!(OWNED.lock().unwrap().len(), 1);
}

#[test]
fn into_raw_and_into_nonnull_make_no_call() {
    let at = own(4);
    let n = FFIDynNonNull::<Flagged>::from_raw_parts(
        NonNullAddr::new(at).unwrap(),
        VtableRef::Live(&*FLAGGED_TABLE),
    );
    assert_eq!(FFIDynBox::into_raw(FFIDynBox::from_nonnull(n)).data, at);
    assert_eq!(FFIDynBox::into_nonnull(FFIDynBox::from_nonnull(n)).data.get(), at);
    assert!(FLAGS.lock().unwrap().is_empty());
    assert!(TRACE.lock().unwrap().is_empty());
}

#[test]
fn dyn_drop_in_place() {
    let x = Box::new(Flagged { id: 8, payload: Box::new(8) });
    let at = address::<Flagged>(&x);
    let b = FFIDynBox::from_std(x);
    let n = FFIDynBox::into_nonnull(b);
    assert_eq!(n.data.get(), at);

    let calls = FFIDynBox::teardown(FFIDynBox::from_nonnull(n));
    assert_eq!(
        calls,
        vec![Call { hook: Hook::DropInPlace, function: destroy_flagged as usize, data: at }]
    );
    perform(&calls);
    assert_eq!(*TRACE.lock().unwrap(), vec![(Hook::DropInPlace, at)]);
}

#[test]
fn payload_is_what_was_boxed() {
    let value = Flagged { id: 5, payload: Box::new(8) };
    assert_eq!(*value.payload, 8);
    drop(value);
    assert_eq!(*FLAGS.lock().unwrap(), vec![5]);
}

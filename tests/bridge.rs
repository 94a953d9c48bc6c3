use pybridge::error::{overflow_error, ExcKind, PyErr};
use pybridge::num::{err_if_invalid_value, extract, extract_int, fits, to_foreign_int, IntKind};
use pybridge::ptr::PyPtr;
use pybridge::runtime::{Obj, Runtime};
use pybridge::tuple::{get_item, get_item_unchecked, len, new_from_items};

#[test]
fn sequence_items_read_back() {
    let mut rt = Runtime::new(true, 16);
    let items: Vec<i32> = vec![7, -3, 42];
    let t = new_from_items(&mut rt, &items).unwrap();
    let h = t.as_handle();
    assert_eq!(h, 3);
    assert_eq!(len(&rt, h), 3);
    for i in 0..3 {
        let c = get_item(&rt, h, i).unwrap();
        assert_eq!(extract::<i32>(&mut rt, c).unwrap(), items[i]);
        assert_eq!(get_item_unchecked(&rt, h, i), c);
        assert_eq!(rt.refcount(c), 1);
    }
    assert_eq!(get_item(&rt, h, 3).unwrap_err().kind, ExcKind::Index);
    assert!(get_item(&rt, h, 3).unwrap_err().is_index());
}

#[test]
fn empty_sequence() {
    let mut rt = Runtime::new(true, 4);
    let items: Vec<u8> = Vec::new();
    let t = new_from_items(&mut rt, &items).unwrap();
    assert_eq!(len(&rt, t.as_handle()), 0);
    assert_eq!(get_item(&rt, t.as_handle(), 0).unwrap_err().kind, ExcKind::Index);
}

#[test]
fn full_runtime_releases_partial_sequence() {
    let mut rt = Runtime::new(true, 3);
    let items: Vec<u64> = vec![1, 2, 3];
    let e = new_from_items(&mut rt, &items).unwrap_err();
    assert_eq!(e.kind, ExcKind::Memory);
    assert!(!rt.occurred());
    for h in 0..rt.num_objects() {
        assert_eq!(rt.refcount(h), 0);
    }
    let mut rt = Runtime::new(true, 2);
    let e = new_from_items(&mut rt, &vec![1u8, 2u8]).unwrap_err();
    assert_eq!(e.kind, ExcKind::Memory);
    assert_eq!(rt.refcount(0), 0);
    assert_eq!(rt.refcount(1), 0);
}

#[test]
fn clone_and_release_return_to_baseline() {
    let mut rt = Runtime::new(true, 4);
    let p = to_foreign_int(&mut rt, IntKind::I16, -9).unwrap();
    let q = p.clone_ref(&mut rt);
    assert_eq!(rt.refcount(0), 2);
    let b = PyPtr::from_borrowed(&mut rt, q.as_handle());
    assert_eq!(rt.refcount(0), 3);
    b.release(&mut rt);
    q.release(&mut rt);
    assert_eq!(rt.refcount(0), 1);
    let h = p.into_handle();
    assert_eq!(rt.refcount(h), 1);
}

#[test]
fn owned_handle_or_fail() {
    let mut rt = Runtime::new(true, 4);
    assert_eq!(PyPtr::from_owned_handle_or_fail(&mut rt, Some(2)).unwrap().as_handle(), 2);
    assert_eq!(PyPtr::from_owned_handle_or_fail(&mut rt, None).unwrap_err().kind, ExcKind::System);
    rt.set_error(ExcKind::Memory);
    assert_eq!(PyPtr::from_owned_handle_or_fail(&mut rt, None).unwrap_err().kind, ExcKind::Memory);
    assert!(!rt.occurred());
}

#[test]
fn fetch_clears_the_pending_error() {
    let mut rt = Runtime::new(true, 4);
    assert!(!rt.occurred());
    rt.set_error(ExcKind::Type);
    assert!(rt.occurred());
    assert_eq!(rt.fetch().kind, ExcKind::Type);
    assert!(!rt.occurred());
    assert_eq!(rt.fetch().kind, ExcKind::System);
}

#[test]
fn sentinel_needs_a_pending_error() {
    let mut rt = Runtime::new(true, 4);
    assert_eq!(err_if_invalid_value(&mut rt, -1, -1), Ok(-1));
    rt.set_error(ExcKind::Overflow);
    assert_eq!(err_if_invalid_value(&mut rt, -1, 5), Ok(5));
    assert!(rt.occurred());
    assert_eq!(err_if_invalid_value(&mut rt, -1, -1), Err(PyErr::new(ExcKind::Overflow)));
    assert!(!rt.occurred());
}

#[test]
fn raw_accessors_set_the_error() {
    let mut rt = Runtime::new(false, 4);
    let h = rt.long_from_i64(1i64 << 40).unwrap();
    assert_eq!(rt.long_as_long(h), -1);
    assert_eq!(rt.fetch().kind, ExcKind::Overflow);
    assert_eq!(rt.long_as_i64(h), 1i64 << 40);
    assert!(!rt.occurred());
    let n = rt.long_from_long(-2).unwrap();
    assert_eq!(rt.long_as_u64(n), u64::MAX);
    assert_eq!(rt.fetch().kind, ExcKind::Overflow);
    assert!(rt.long_check(n));
    let z = rt.allocate(Obj::Nothing).unwrap();
    assert!(!rt.long_check(z));
    assert_eq!(rt.number_long(z), None);
    assert_eq!(rt.fetch().kind, ExcKind::Type);
    let c = rt.number_long(n).unwrap();
    assert!(matches!(rt.object(c), Obj::Int(-2)));
}

#[test]
fn fits_and_extract_int() {
    assert!(fits(IntKind::U8, 255));
    assert!(!fits(IntKind::U8, 256));
    assert!(!fits(IntKind::I8, -129));
    assert!(fits(IntKind::U64, u64::MAX as i128));
    assert!(!fits(IntKind::U64, -1));
    let mut rt = Runtime::new(true, 4);
    let h = to_foreign_int(&mut rt, IntKind::U64, u64::MAX as i128).unwrap().into_handle();
    assert_eq!(extract_int(&mut rt, h, IntKind::U64), Ok(u64::MAX as i128));
    assert_eq!(extract_int(&mut rt, h, IntKind::I64), Err(PyErr::new(ExcKind::Overflow)));
    assert_eq!(overflow_error(), PyErr { kind: ExcKind::Overflow });
}

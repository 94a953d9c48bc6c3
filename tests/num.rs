use pybridge::error::{ExcKind, PyErr};
use pybridge::num::{extract, strategy, to_foreign, IntKind, NativeInt, PyLong, Strategy};
use pybridge::runtime::{Obj, Runtime};

fn runtime() -> Runtime {
    Runtime::new(true, 64)
}

fn convert<T: NativeInt>(rt: &mut Runtime, v: T) -> usize {
    to_foreign(rt, &v).unwrap().into_handle()
}

fn round_trip_on<T: NativeInt + PartialEq + std::fmt::Debug + Copy>(long_is_64: bool, v: T) {
    let mut rt = Runtime::new(long_is_64, 16);
    let h = convert(&mut rt, v);
    assert_eq!(extract::<T>(&mut rt, h).unwrap(), v);
}

#[test]
fn test_u32_max() {
    let mut rt = runtime();
    let v = u32::MAX;
    let obj = convert(&mut rt, v);
    assert_eq!(v, extract::<u32>(&mut rt, obj).unwrap());
    assert_eq!(v as u64, extract::<u64>(&mut rt, obj).unwrap());
    assert!(extract::<i32>(&mut rt, obj).is_err());
}

#[test]
fn test_i64_max() {
    let mut rt = runtime();
    let v = i64::MAX;
    let obj = convert(&mut rt, v);
    assert_eq!(v, extract::<i64>(&mut rt, obj).unwrap());
    assert_eq!(v as u64, extract::<u64>(&mut rt, obj).unwrap());
    assert!(extract::<u32>(&mut rt, obj).is_err());
}

#[test]
fn test_i64_min() {
    let mut rt = runtime();
    let v = i64::MIN;
    let obj = convert(&mut rt, v);
    assert_eq!(v, extract::<i64>(&mut rt, obj).unwrap());
    assert!(extract::<i32>(&mut rt, obj).is_err());
    assert!(extract::<u64>(&mut rt, obj).is_err());
}

#[test]
fn test_u64_max() {
    let mut rt = runtime();
    let v = u64::MAX;
    let obj = convert(&mut rt, v);
    println!("{:?}", rt.object(obj));
    assert_eq!(v, extract::<u64>(&mut rt, obj).unwrap());
    assert!(extract::<i64>(&mut rt, obj).is_err());
}

#[test]
fn boundary_errors_are_overflow() {
    let mut rt = runtime();
    let a = convert(&mut rt, u32::MAX);
    assert_eq!(extract::<i32>(&mut rt, a).unwrap_err().kind, ExcKind::Overflow);
    let b = convert(&mut rt, i64::MAX);
    assert_eq!(extract::<u32>(&mut rt, b).unwrap_err().kind, ExcKind::Overflow);
    let c = convert(&mut rt, i64::MIN);
    assert!(extract::<i32>(&mut rt, c).unwrap_err().is_overflow());
    assert!(extract::<u64>(&mut rt, c).unwrap_err().is_overflow());
    let d = convert(&mut rt, u64::MAX);
    assert!(extract::<i64>(&mut rt, d).unwrap_err().is_overflow());
    assert!(!rt.occurred());
}

#[test]
fn boundaries_with_a_32_bit_long() {
    let mut rt = Runtime::new(false, 16);
    let a = convert(&mut rt, u32::MAX);
    assert_eq!(extract::<u32>(&mut rt, a).unwrap(), u32::MAX);
    assert_eq!(extract::<u64>(&mut rt, a).unwrap(), u32::MAX as u64);
    assert!(extract::<i32>(&mut rt, a).unwrap_err().is_overflow());
    let b = convert(&mut rt, i64::MIN);
    assert_eq!(extract::<i64>(&mut rt, b).unwrap(), i64::MIN);
    assert!(extract::<i32>(&mut rt, b).unwrap_err().is_overflow());
    assert!(extract::<u64>(&mut rt, b).unwrap_err().is_overflow());
    assert!(extract::<isize>(&mut rt, b).is_ok() == (isize::MIN as i128 <= i64::MIN as i128));
    let c = convert(&mut rt, u64::MAX);
    assert_eq!(extract::<u64>(&mut rt, c).unwrap(), u64::MAX);
    assert!(extract::<i64>(&mut rt, c).unwrap_err().is_overflow());
    assert!(extract::<usize>(&mut rt, c).is_ok() == (usize::MAX as u128 == u64::MAX as u128));
}

#[test]
fn to_from_i8() {
    round_trip_on(true, 123i8);
    round_trip_on(false, i8::MIN);
}

#[test]
fn to_from_u8() {
    round_trip_on(true, 123u8);
    round_trip_on(false, u8::MAX);
}

#[test]
fn to_from_i16() {
    round_trip_on(true, 123i16);
    round_trip_on(false, i16::MIN);
}

#[test]
fn to_from_u16() {
    round_trip_on(true, 123u16);
    round_trip_on(false, u16::MAX);
}

#[test]
fn to_from_i32() {
    round_trip_on(true, 123i32);
    round_trip_on(false, i32::MIN);
}

#[test]
fn to_from_u32() {
    round_trip_on(true, 123u32);
    round_trip_on(false, u32::MAX);
}

#[test]
fn to_from_i64() {
    round_trip_on(true, 123i64);
    round_trip_on(false, i64::MAX);
}

#[test]
fn to_from_u64() {
    round_trip_on(true, 123u64);
    round_trip_on(false, u64::MAX);
}

#[test]
fn to_from_isize() {
    round_trip_on(true, 123isize);
    round_trip_on(false, isize::MIN);
}

#[test]
fn to_from_usize() {
    round_trip_on(true, 123usize);
    round_trip_on(false, usize::MAX);
}

#[test]
fn conversion_makes_one_object_with_one_reference() {
    let mut rt = runtime();
    let p = to_foreign(&mut rt, &-5i32).unwrap();
    assert_eq!(p.as_handle(), 0);
    assert_eq!(rt.num_objects(), 1);
    assert_eq!(rt.refcount(0), 1);
    assert!(matches!(rt.object(0), Obj::Int(-5)));
    p.release(&mut rt);
    assert_eq!(rt.refcount(0), 0);
}

#[test]
fn full_runtime_reports_memory_error() {
    let mut rt = Runtime::new(true, 1);
    assert!(to_foreign(&mut rt, &1u8).is_ok());
    let e = to_foreign(&mut rt, &2u8).unwrap_err();
    assert_eq!(e, PyErr { kind: ExcKind::Memory });
    assert!(!rt.occurred());
    assert_eq!(rt.num_objects(), 1);
}

#[test]
fn non_integer_gives_type_error() {
    let mut rt = runtime();
    let h = rt.allocate(Obj::Nothing).unwrap();
    assert_eq!(extract::<i32>(&mut rt, h).unwrap_err().kind, ExcKind::Type);
    assert_eq!(extract::<u64>(&mut rt, h).unwrap_err().kind, ExcKind::Type);
    assert_eq!(extract::<i64>(&mut rt, h).unwrap_err().kind, ExcKind::Type);
    assert!(!rt.occurred());
    assert_eq!(rt.num_objects(), 1);
}

#[test]
fn booleans_extract_as_integers() {
    let mut rt = runtime();
    let t = rt.allocate(Obj::Bool(true)).unwrap();
    let f = rt.allocate(Obj::Bool(false)).unwrap();
    assert_eq!(extract::<u8>(&mut rt, t).unwrap(), 1);
    assert_eq!(extract::<u64>(&mut rt, t).unwrap(), 1);
    assert_eq!(extract::<i64>(&mut rt, f).unwrap(), 0);
}

#[test]
fn minus_one_is_a_value_not_an_error() {
    let mut rt = Runtime::new(false, 8);
    let h = convert(&mut rt, -1i64);
    assert_eq!(extract::<i64>(&mut rt, h).unwrap(), -1);
    assert_eq!(extract::<i8>(&mut rt, h).unwrap(), -1);
    assert!(extract::<u64>(&mut rt, h).unwrap_err().is_overflow());
    let m = convert(&mut rt, u64::MAX);
    assert_eq!(extract::<u64>(&mut rt, m).unwrap(), u64::MAX);
}

#[test]
fn py_long_new_and_value() {
    let mut rt = runtime();
    let n = PyLong::new(&mut rt, &300u16).unwrap();
    assert_eq!(n.value::<u16>(&mut rt).unwrap(), 300);
    assert!(n.value::<u8>(&mut rt).unwrap_err().is_overflow());
    let p = n.into_object();
    assert_eq!(p.as_handle(), 0);
}

#[test]
fn strategy_table() {
    assert_eq!(strategy(IntKind::I8, true), Strategy::FitsLong);
    assert_eq!(strategy(IntKind::U32, true), Strategy::FitsLong);
    assert_eq!(strategy(IntKind::U32, false), Strategy::FitsLarger(IntKind::U64));
    assert_eq!(strategy(IntKind::I64, true), Strategy::FitsLong);
    assert_eq!(strategy(IntKind::I64, false), Strategy::Explicit64);
    assert_eq!(strategy(IntKind::Isize, false), Strategy::FitsLarger(IntKind::I64));
    assert_eq!(strategy(IntKind::Usize, true), Strategy::FitsLarger(IntKind::U64));
    assert_eq!(strategy(IntKind::U64, true), Strategy::Explicit64);
}

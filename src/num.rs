//! Overflow-checked conversion between native integers and foreign integer
//! objects.
use vstd::prelude::*;
use crate::error::{overflow_error, ExcKind, PyErr};
use crate::ptr::PyPtr;
use crate::runtime::{long_max, long_min, read_int, Obj, Runtime};

verus! {

/// A native integer type, by width and signedness.
#[derive(Clone, Copy, Debug, PartialEq, Eq, Structural)]
pub enum IntKind {
    I8,
    U8,
    I16,
    U16,
    I32,
    U32,
    I64,
    U64,
    Isize,
    Usize,
}

/// Smallest value of the native type `k`.
pub open spec fn kind_min(k: IntKind) -> int {
    match k {
        IntKind::I8 => i8::MIN as int,
        IntKind::I16 => i16::MIN as int,
        IntKind::I32 => i32::MIN as int,
        IntKind::I64 => i64::MIN as int,
        IntKind::Isize => isize::MIN as int,
        _ => 0,
    }
}

/// Largest value of the native type `k`.
pub open spec fn kind_max(k: IntKind) -> int {
    match k {
        IntKind::I8 => i8::MAX as int,
        IntKind::U8 => u8::MAX as int,
        IntKind::I16 => i16::MAX as int,
        IntKind::U16 => u16::MAX as int,
        IntKind::I32 => i32::MAX as int,
        IntKind::U32 => u32::MAX as int,
        IntKind::I64 => i64::MAX as int,
        IntKind::U64 => u64::MAX as int,
        IntKind::Isize => isize::MAX as int,
        IntKind::Usize => usize::MAX as int,
    }
}

/// `v` is a value of the native type `k`.
pub open spec fn in_range(k: IntKind, v: int) -> bool {
    kind_min(k) <= v && v <= kind_max(k)
}

/// How a native type reaches the foreign runtime.
#[derive(Clone, Copy, Debug, PartialEq, Eq, Structural)]
pub enum Strategy {
    /// Through the platform's native long, then a checked narrowing.
    FitsLong,
    /// Through the named wider native type, then a checked narrowing.
    FitsLarger(IntKind),
    /// Through the runtime's dedicated 64-bit calls.
    Explicit64,
}

/// The strategy of each native type, given the width of the native long.
pub open spec fn strategy_spec(k: IntKind, long_is_64: bool) -> Strategy {
    match k {
        IntKind::U32 => if long_is_64 {
            Strategy::FitsLong
        } else {
            Strategy::FitsLarger(IntKind::U64)
        },
        IntKind::I64 => if long_is_64 {
            Strategy::FitsLong
        } else {
            Strategy::Explicit64
        },
        IntKind::Isize => if long_is_64 {
            Strategy::FitsLong
        } else {
            Strategy::FitsLarger(IntKind::I64)
        },
        IntKind::Usize => Strategy::FitsLarger(IntKind::U64),
        IntKind::U64 => Strategy::Explicit64,
        _ => Strategy::FitsLong,
    }
}

/// The strategy table.
pub fn strategy(k: IntKind, long_is_64: bool) -> (r: Strategy)
    ensures
        r == strategy_spec(k, long_is_64),
{
    match k {
        IntKind::U32 => if long_is_64 {
            Strategy::FitsLong
        } else {
            Strategy::FitsLarger(IntKind::U64)
        },
        IntKind::I64 => if long_is_64 {
            Strategy::FitsLong
        } else {
            Strategy::Explicit64
        },
        IntKind::Isize => if long_is_64 {
            Strategy::FitsLong
        } else {
            Strategy::FitsLarger(IntKind::I64)
        },
        IntKind::Usize => Strategy::FitsLarger(IntKind::U64),
        IntKind::U64 => Strategy::Explicit64,
        _ => Strategy::FitsLong,
    }
}

/// Every strategy covers the native type's range: a type that goes through
/// the native long fits in it, and a wider type holds the narrower one.
pub proof fn lemma_strategy_covers(k: IntKind, long_is_64: bool)
    ensures
        strategy_spec(k, long_is_64) == Strategy::FitsLong ==> long_min(long_is_64) <= kind_min(k)
            && kind_max(k) <= long_max(long_is_64),
        strategy_spec(k, long_is_64) matches Strategy::FitsLarger(w) ==> kind_min(w) <= kind_min(k)
            && kind_max(k) <= kind_max(w) && !(strategy_spec(w, long_is_64) is FitsLarger),
        strategy_spec(k, long_is_64) == Strategy::Explicit64 ==> k == IntKind::I64 || k
            == IntKind::U64,
{
}

/// Whether `v` is a value of the native type `k`.
pub fn fits(k: IntKind, v: i128) -> (r: bool)
    ensures
        r == in_range(k, v as int),
{
    let (lo, hi): (i128, i128) = match k {
        IntKind::I8 => (i8::MIN as i128, i8::MAX as i128),
        IntKind::U8 => (0, u8::MAX as i128),
        IntKind::I16 => (i16::MIN as i128, i16::MAX as i128),
        IntKind::U16 => (0, u16::MAX as i128),
        IntKind::I32 => (i32::MIN as i128, i32::MAX as i128),
        IntKind::U32 => (0, u32::MAX as i128),
        IntKind::I64 => (i64::MIN as i128, i64::MAX as i128),
        IntKind::U64 => (0, u64::MAX as i128),
        IntKind::Isize => (isize::MIN as i128, isize::MAX as i128),
        IntKind::Usize => (0, usize::MAX as i128),
    };
    lo <= v && v <= hi
}

/// What extracting the native type `k` from the object `o` gives: its
/// integer value when it has one in range, else the exception raised.
pub open spec fn extract_spec(o: Obj, k: IntKind) -> Result<int, ExcKind> {
    read_int(o, kind_min(k), kind_max(k))
}

/// Resolves an accessor's result: `actual` equal to the ambiguous `invalid`
/// value is an error only when one is pending, and then that error is
/// fetched.
pub fn err_if_invalid_value(rt: &mut Runtime, invalid: i128, actual: i128) -> (r: Result<
    i128,
    PyErr,
>)
    ensures
        old(rt)@.same_heap(final(rt)@),
        if actual == invalid && old(rt)@.pending is Some {
            r == Err::<i128, PyErr>(PyErr { kind: old(rt)@.pending->Some_0 })
                && final(rt)@.pending is None
        } else {
            r == Ok::<i128, PyErr>(actual) && final(rt)@ == old(rt)@
        },
{
    if actual == invalid && rt.occurred() {
        Err(rt.fetch())
    } else {
        Ok(actual)
    }
}

/// The contract shared by the extraction steps below.
pub open spec fn extracted(o: Obj, k: IntKind, r: Result<i128, PyErr>) -> bool {
    match extract_spec(o, k) {
        Ok(i) => r == Ok::<i128, PyErr>(i as i128),
        Err(e) => r == Err::<i128, PyErr>(PyErr { kind: e }),
    }
}

/// Reads an integer object through the dedicated 64-bit accessors.
fn read_64(rt: &mut Runtime, h: usize, k: IntKind) -> (r: Result<i128, PyErr>)
    requires
        old(rt)@.valid(h),
        old(rt)@.pending is None,
        k == IntKind::I64 || k == IntKind::U64,
    ensures
        old(rt)@.same_heap(final(rt)@),
        final(rt)@.pending is None,
        extracted(old(rt)@.objs[h as int], k, r),
{
    if matches!(k, IntKind::I64) {
        let v = rt.long_as_i64(h);
        err_if_invalid_value(rt, -1, v as i128)
    } else {
        let v = rt.long_as_u64(h);
        err_if_invalid_value(rt, u64::MAX as i128, v as i128)
    }
}

/// Extraction for a native type that does not go through a wider one.
fn extract_direct(rt: &mut Runtime, h: usize, k: IntKind) -> (r: Result<i128, PyErr>)
    requires
        old(rt)@.wf(),
        old(rt)@.valid(h),
        old(rt)@.pending is None,
        !(strategy_spec(k, old(rt)@.long_is_64) is FitsLarger),
    ensures
        final(rt)@.wf(),
        old(rt)@.same_heap(final(rt)@),
        final(rt)@.pending is None,
        extracted(old(rt)@.objs[h as int], k, r),
{
    proof {
        lemma_strategy_covers(k, rt@.long_is_64);
    }
    if matches!(strategy(k, rt.long_is_64()), Strategy::FitsLong) {
        let val = rt.long_as_long(h);
        if val == -1 && rt.occurred() {
            return Err(rt.fetch());
        }
        if fits(k, val as i128) {
            Ok(val as i128)
        } else {
            Err(overflow_error())
        }
    } else if rt.long_check(h) {
        read_64(rt, h, k)
    } else {
        match rt.number_long(h) {
            None => Err(rt.fetch()),
            Some(n) => {
                let r = read_64(rt, n, k);
                rt.decref(n);
                r
            },
        }
    }
}

/// Extracts the native type `k` from the object `h`, as a wide integer.
pub fn extract_int(rt: &mut Runtime, h: usize, k: IntKind) -> (r: Result<i128, PyErr>)
    requires
        old(rt)@.wf(),
        old(rt)@.valid(h),
        old(rt)@.pending is None,
    ensures
        final(rt)@.wf(),
        old(rt)@.same_heap(final(rt)@),
        final(rt)@.pending is None,
        extracted(old(rt)@.objs[h as int], k, r),
{
    proof {
        lemma_strategy_covers(k, rt@.long_is_64);
    }
    match strategy(k, rt.long_is_64()) {
        Strategy::FitsLarger(w) => {
            let v = extract_direct(rt, h, w)?;
            if fits(k, v) {
                Ok(v)
            } else {
                Err(overflow_error())
            }
        },
        _ => extract_direct(rt, h, k),
    }
}

/// Makes a new integer object holding `v`, a value of the native type `k`.
/// The only failure is a full runtime.
pub fn to_foreign_int(rt: &mut Runtime, k: IntKind, v: i128) -> (r: Result<PyPtr, PyErr>)
    requires
        old(rt)@.wf(),
        old(rt)@.pending is None,
        in_range(k, v as int),
    ensures
        final(rt)@.wf(),
        final(rt)@.pending is None,
        old(rt)@.has_room() ==> (r matches Ok(p) && p.h() == old(rt)@.objs.len() && old(
            rt,
        )@.pushed(final(rt)@, Obj::Int(v))),
        !old(rt)@.has_room() ==> r == Err::<PyPtr, PyErr>(PyErr { kind: ExcKind::Memory })
            && old(rt)@.same_heap(final(rt)@),
{
    proof {
        lemma_strategy_covers(k, rt@.long_is_64);
    }
    let wk = match strategy(k, rt.long_is_64()) {
        Strategy::FitsLarger(w) => w,
        _ => k,
    };
    proof {
        lemma_strategy_covers(wk, rt@.long_is_64);
    }
    let h = match strategy(wk, rt.long_is_64()) {
        Strategy::Explicit64 => if matches!(wk, IntKind::I64) {
            assert((v as i64) as i128 == v);
            rt.long_from_i64(v as i64)
        } else {
            assert((v as u64) as i128 == v);
            rt.long_from_u64(v as u64)
        },
        _ => {
            assert((v as i64) as i128 == v);
            rt.long_from_long(v as i64)
        },
    };
    PyPtr::from_owned_handle_or_fail(rt, h)
}

/// A native integer type that converts to and from foreign integer objects.
pub trait NativeInt: Sized {
    /// Which native type this is.
    spec fn kind() -> IntKind;

    /// The value as a mathematical integer.
    spec fn as_int(&self) -> int;

    /// Every value lies in its type's range.
    proof fn lemma_in_range(&self)
        ensures
            in_range(Self::kind(), self.as_int()),
    ;

    fn native_kind() -> (k: IntKind)
        ensures
            k == Self::kind(),
    ;

    fn widen(&self) -> (r: i128)
        ensures
            r == self.as_int(),
            in_range(Self::kind(), r as int),
    ;

    fn narrow(w: i128) -> (r: Self)
        requires
            in_range(Self::kind(), w as int),
        ensures
            r.as_int() == w,
    ;
}

impl NativeInt for i8 {
    open spec fn kind() -> IntKind {
        IntKind::I8
    }

    open spec fn as_int(&self) -> int {
        *self as int
    }

    proof fn lemma_in_range(&self) {
    }

    fn native_kind() -> IntKind {
        IntKind::I8
    }

    fn widen(&self) -> i128 {
        *self as i128
    }

    fn narrow(w: i128) -> i8 {
        w as i8
    }
}

impl NativeInt for u8 {
    open spec fn kind() -> IntKind {
        IntKind::U8
    }

    open spec fn as_int(&self) -> int {
        *self as int
    }

    proof fn lemma_in_range(&self) {
    }

    fn native_kind() -> IntKind {
        IntKind::U8
    }

    fn widen(&self) -> i128 {
        *self as i128
    }

    fn narrow(w: i128) -> u8 {
        w as u8
    }
}

impl NativeInt for i16 {
    open spec fn kind() -> IntKind {
        IntKind::I16
    }

    open spec fn as_int(&self) -> int {
        *self as int
    }

    proof fn lemma_in_range(&self) {
    }

    fn native_kind() -> IntKind {
        IntKind::I16
    }

    fn widen(&self) -> i128 {
        *self as i128
    }

    fn narrow(w: i128) -> i16 {
        w as i16
    }
}

impl NativeInt for u16 {
    open spec fn kind() -> IntKind {
        IntKind::U16
    }

    open spec fn as_int(&self) -> int {
        *self as int
    }

    proof fn lemma_in_range(&self) {
    }

    fn native_kind() -> IntKind {
        IntKind::U16
    }

    fn widen(&self) -> i128 {
        *self as i128
    }

    fn narrow(w: i128) -> u16 {
        w as u16
    }
}

impl NativeInt for i32 {
    open spec fn kind() -> IntKind {
        IntKind::I32
    }

    open spec fn as_int(&self) -> int {
        *self as int
    }

    proof fn lemma_in_range(&self) {
    }

    fn native_kind() -> IntKind {
        IntKind::I32
    }

    fn widen(&self) -> i128 {
        *self as i128
    }

    fn narrow(w: i128) -> i32 {
        w as i32
    }
}

impl NativeInt for u32 {
    open spec fn kind() -> IntKind {
        IntKind::U32
    }

    open spec fn as_int(&self) -> int {
        *self as int
    }

    proof fn lemma_in_range(&self) {
    }

    fn native_kind() -> IntKind {
        IntKind::U32
    }

    fn widen(&self) -> i128 {
        *self as i128
    }

    fn narrow(w: i128) -> u32 {
        w as u32
    }
}

impl NativeInt for i64 {
    open spec fn kind() -> IntKind {
        IntKind::I64
    }

    open spec fn as_int(&self) -> int {
        *self as int
    }

    proof fn lemma_in_range(&self) {
    }

    fn native_kind() -> IntKind {
        IntKind::I64
    }

    fn widen(&self) -> i128 {
        *self as i128
    }

    fn narrow(w: i128) -> i64 {
        w as i64
    }
}

impl NativeInt for u64 {
    open spec fn kind() -> IntKind {
        IntKind::U64
    }

    open spec fn as_int(&self) -> int {
        *self as int
    }

    proof fn lemma_in_range(&self) {
    }

    fn native_kind() -> IntKind {
        IntKind::U64
    }

    fn widen(&self) -> i128 {
        *self as i128
    }

    fn narrow(w: i128) -> u64 {
        w as u64
    }
}

impl NativeInt for isize {
    open spec fn kind() -> IntKind {
        IntKind::Isize
    }

    open spec fn as_int(&self) -> int {
        *self as int
    }

    proof fn lemma_in_range(&self) {
    }

    fn native_kind() -> IntKind {
        IntKind::Isize
    }

    fn widen(&self) -> i128 {
        *self as i128
    }

    fn narrow(w: i128) -> isize {
        w as isize
    }
}

impl NativeInt for usize {
    open spec fn kind() -> IntKind {
        IntKind::Usize
    }

    open spec fn as_int(&self) -> int {
        *self as int
    }

    proof fn lemma_in_range(&self) {
    }

    fn native_kind() -> IntKind {
        IntKind::Usize
    }

    fn widen(&self) -> i128 {
        *self as i128
    }

    fn narrow(w: i128) -> usize {
        w as usize
    }
}

/// Converts a native integer into a new owned foreign integer object. The
/// only failure is a full runtime, reported as a memory error.
pub fn to_foreign<T: NativeInt>(rt: &mut Runtime, v: &T) -> (r: Result<PyPtr, PyErr>)
    requires
        old(rt)@.wf(),
        old(rt)@.pending is None,
    ensures
        final(rt)@.wf(),
        final(rt)@.pending is None,
        old(rt)@.has_room() ==> (r matches Ok(p) && p.h() == old(rt)@.objs.len() && old(
            rt,
        )@.pushed(final(rt)@, Obj::Int(v.as_int() as i128))),
        !old(rt)@.has_room() ==> r == Err::<PyPtr, PyErr>(PyErr { kind: ExcKind::Memory })
            && old(rt)@.same_heap(final(rt)@),
{
    let w = v.widen();
    to_foreign_int(rt, T::native_kind(), w)
}

/// Extracts a native integer from the object `h`. It fails with a type error
/// when the object has no integer value, and with an overflow error when the
/// value is out of the native type's range. The heap is left as it was.
pub fn extract<T: NativeInt>(rt: &mut Runtime, h: usize) -> (r: Result<T, PyErr>)
    requires
        old(rt)@.wf(),
        old(rt)@.valid(h),
        old(rt)@.pending is None,
    ensures
        final(rt)@.wf(),
        old(rt)@.same_heap(final(rt)@),
        final(rt)@.pending is None,
        match extract_spec(old(rt)@.objs[h as int], T::kind()) {
            Ok(i) => r matches Ok(x) && x.as_int() == i,
            Err(e) => r matches Err(x) && x == PyErr { kind: e },
        },
{
    match extract_int(rt, h, T::native_kind()) {
        Ok(w) => Ok(T::narrow(w)),
        Err(e) => Err(e),
    }
}

/// An owned reference to a foreign integer object.
#[derive(Debug)]
pub struct PyLong {
    ptr: PyPtr,
}

impl PyLong {
    /// The handle of the object.
    pub closed spec fn h(&self) -> usize {
        self.ptr.h()
    }

    /// Makes a new integer object holding `v`.
    pub fn new<T: NativeInt>(rt: &mut Runtime, v: &T) -> (r: Result<PyLong, PyErr>)
        requires
            old(rt)@.wf(),
            old(rt)@.pending is None,
        ensures
            final(rt)@.wf(),
            final(rt)@.pending is None,
            old(rt)@.has_room() ==> (r matches Ok(p) && p.h() == old(rt)@.objs.len() && old(
                rt,
            )@.pushed(final(rt)@, Obj::Int(v.as_int() as i128))),
            !old(rt)@.has_room() ==> r == Err::<PyLong, PyErr>(PyErr { kind: ExcKind::Memory })
                && old(rt)@.same_heap(final(rt)@),
    {
        match to_foreign(rt, v) {
            Ok(ptr) => Ok(PyLong { ptr }),
            Err(e) => Err(e),
        }
    }

    /// The value of the object as the native type `T`.
    pub fn value<T: NativeInt>(&self, rt: &mut Runtime) -> (r: Result<T, PyErr>)
        requires
            old(rt)@.wf(),
            old(rt)@.valid(self.h()),
            old(rt)@.pending is None,
        ensures
            final(rt)@.wf(),
            old(rt)@.same_heap(final(rt)@),
            final(rt)@.pending is None,
            match extract_spec(old(rt)@.objs[self.h() as int], T::kind()) {
                Ok(i) => r matches Ok(x) && x.as_int() == i,
                Err(e) => r matches Err(x) && x == PyErr { kind: e },
            },
    {
        extract(rt, self.ptr.as_handle())
    }

    /// The owned reference, as a plain object reference.
    pub fn into_object(self) -> (r: PyPtr)
        ensures
            r.h() == self.h(),
    {
        self.ptr
    }
}

} // verus!

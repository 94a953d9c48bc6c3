//! The foreign runtime as this library sees it: a reference-counted object
//! heap and one pending-error slot, both reachable only while the global lock
//! is held. Holding `&mut Runtime` is the proof that the lock is held.
use vstd::prelude::*;
use crate::error::{ExcKind, PyErr};

verus! {

/// A foreign object.
#[derive(Debug)]
pub enum Obj {
    /// An integer object (its value fits 128 bits here).
    Int(i128),
    /// A boolean object; the runtime treats it as an integer subtype.
    Bool(bool),
    /// The runtime's unit value.
    Nothing,
    /// An immutable sequence; each slot owns one reference to its item.
    Tuple(Vec<usize>),
}

/// The integer an object stands for, when it has one.
pub open spec fn int_value(o: Obj) -> Option<int> {
    match o {
        Obj::Int(i) => Some(i as int),
        Obj::Bool(b) => Some(if b { 1int } else { 0int }),
        _ => None,
    }
}

/// Every slot of a tuple object is a handle below `n`.
pub open spec fn slots_below(o: Obj, n: int) -> bool {
    match o {
        Obj::Tuple(v) => forall|j: int| 0 <= j < v@.len() ==> v@[j] < n,
        _ => true,
    }
}

/// Smallest value of the platform's native long.
pub open spec fn long_min(long_is_64: bool) -> int {
    if long_is_64 { i64::MIN as int } else { i32::MIN as int }
}

/// Largest value of the platform's native long.
pub open spec fn long_max(long_is_64: bool) -> int {
    if long_is_64 { i64::MAX as int } else { i32::MAX as int }
}

/// What an integer accessor of the runtime reports for `o` when asked for a
/// value in `lo..=hi`: the value, or the kind of exception it raises.
pub open spec fn read_int(o: Obj, lo: int, hi: int) -> Result<int, ExcKind> {
    match int_value(o) {
        None => Err(ExcKind::Type),
        Some(i) => if lo <= i && i <= hi {
            Ok(i)
        } else {
            Err(ExcKind::Overflow)
        },
    }
}

/// The mathematical state of the runtime.
pub struct RuntimeView {
    pub objs: Seq<Obj>,
    pub rc: Seq<int>,
    pub pending: Option<ExcKind>,
    pub long_is_64: bool,
    pub capacity: nat,
}

impl RuntimeView {
    /// Every handle names an allocated object, and every tuple slot does too.
    pub open spec fn wf(self) -> bool {
        &&& self.objs.len() == self.rc.len()
        &&& self.objs.len() <= self.capacity <= usize::MAX
        &&& forall|i: int| 0 <= i < self.rc.len() ==> 0 <= #[trigger] self.rc[i] <= u64::MAX
        &&& forall|i: int|
            0 <= i < self.objs.len() ==> slots_below(#[trigger] self.objs[i], self.objs.len() as int)
    }

    /// `h` names an allocated object.
    pub open spec fn valid(self, h: usize) -> bool {
        h < self.objs.len()
    }

    /// The configuration is kept and the heap is left as it was.
    pub open spec fn same_heap(self, b: RuntimeView) -> bool {
        &&& b.objs == self.objs
        &&& b.rc == self.rc
        &&& b.long_is_64 == self.long_is_64
        &&& b.capacity == self.capacity
    }

    /// `b` is `self` with one new object `o` that has one reference.
    pub open spec fn pushed(self, b: RuntimeView, o: Obj) -> bool {
        &&& b.objs == self.objs.push(o)
        &&& b.rc == self.rc.push(1)
        &&& b.long_is_64 == self.long_is_64
        &&& b.capacity == self.capacity
    }

    /// Whether there is room for one more object.
    pub open spec fn has_room(self) -> bool {
        self.objs.len() < self.capacity
    }
}

/// The state guarded by the global lock.
pub struct Runtime {
    objs: Vec<Obj>,
    rc: Vec<u64>,
    pending: Option<ExcKind>,
    long_is_64: bool,
    capacity: usize,
}

impl View for Runtime {
    type V = RuntimeView;

    closed spec fn view(&self) -> RuntimeView {
        RuntimeView {
            objs: self.objs@,
            rc: self.rc@.map_values(|c: u64| c as int),
            pending: self.pending,
            long_is_64: self.long_is_64,
            capacity: self.capacity as nat,
        }
    }
}

impl Runtime {
    /// Takes the lock on a fresh runtime whose native long has 64 bits when
    /// `long_is_64`, else 32, and which holds at most `capacity` objects.
    pub fn new(long_is_64: bool, capacity: usize) -> (r: Runtime)
        ensures
            r@.wf(),
            r@.objs.len() == 0,
            r@.pending is None,
            r@.long_is_64 == long_is_64,
            r@.capacity == capacity,
    {
        Runtime { objs: Vec::new(), rc: Vec::new(), pending: None, long_is_64, capacity }
    }

    /// Whether the native long of this platform has 64 bits.
    pub fn long_is_64(&self) -> (r: bool)
        ensures
            r == self@.long_is_64,
    {
        self.long_is_64
    }

    /// Number of objects ever allocated; handles run below it.
    pub fn num_objects(&self) -> (r: usize)
        ensures
            r == self@.objs.len(),
    {
        self.objs.len()
    }

    /// The reference count of the object `h`.
    pub fn refcount(&self, h: usize) -> (r: u64)
        requires
            self@.wf(),
            self@.valid(h),
        ensures
            r == self@.rc[h as int],
    {
        self.rc[h]
    }

    /// Whether an error is pending; leaves it in place.
    pub fn occurred(&self) -> (r: bool)
        ensures
            r == self@.pending is Some,
    {
        self.pending.is_some()
    }

    /// Takes the pending error and clears it. With none pending, the result
    /// is a system error.
    pub fn fetch(&mut self) -> (r: PyErr)
        ensures
            final(self)@.pending is None,
            old(self)@.same_heap(final(self)@),
            r.kind == (match old(self)@.pending {
                Some(k) => k,
                None => ExcKind::System,
            }),
    {
        let k = match self.pending {
            Some(k) => k,
            None => ExcKind::System,
        };
        self.pending = None;
        PyErr { kind: k }
    }

    /// Sets the pending error, replacing any earlier one.
    pub fn set_error(&mut self, kind: ExcKind)
        ensures
            final(self)@.pending == Some(kind),
            old(self)@.same_heap(final(self)@),
    {
        self.pending = Some(kind);
    }

    /// The object named by `h`.
    pub fn object(&self, h: usize) -> (r: &Obj)
        requires
            self@.valid(h),
        ensures
            *r == self@.objs[h as int],
    {
        &self.objs[h]
    }

    /// Allocates `o` with one reference. With no room left it sets a memory
    /// error and returns `None`, as a foreign constructor returns null.
    pub fn allocate(&mut self, o: Obj) -> (r: Option<usize>)
        requires
            old(self)@.wf(),
            slots_below(o, old(self)@.objs.len() as int),
        ensures
            final(self)@.wf(),
            old(self)@.has_room() ==> r == Some(old(self)@.objs.len() as usize) && old(
                self,
            )@.pushed(final(self)@, o) && final(self)@.pending == old(self)@.pending,
            !old(self)@.has_room() ==> r is None && old(self)@.same_heap(final(self)@)
                && final(self)@.pending == Some(ExcKind::Memory),
    {
        if self.objs.len() < self.capacity {
            let h = self.objs.len();
            self.objs.push(o);
            self.rc.push(1);
            proof {
                let a = old(self)@;
                let b = self@;
                assert(b.rc =~= a.rc.push(1));
                assert forall|i: int| 0 <= i < b.objs.len() implies slots_below(
                    #[trigger] b.objs[i],
                    b.objs.len() as int,
                ) by {
                    if i < a.objs.len() {
                        assert(slots_below(a.objs[i], a.objs.len() as int));
                    }
                }
            }
            Some(h)
        } else {
            self.pending = Some(ExcKind::Memory);
            None
        }
    }

    /// Adds one reference to `h`.
    pub fn incref(&mut self, h: usize)
        requires
            old(self)@.wf(),
            old(self)@.valid(h),
            old(self)@.rc[h as int] < u64::MAX,
        ensures
            final(self)@.wf(),
            final(self)@.objs == old(self)@.objs,
            final(self)@.rc == old(self)@.rc.update(h as int, old(self)@.rc[h as int] + 1),
            final(self)@.pending == old(self)@.pending,
            final(self)@.long_is_64 == old(self)@.long_is_64,
            final(self)@.capacity == old(self)@.capacity,
    {
        let c = self.rc[h];
        self.rc.set(h, c + 1);
        proof {
            assert(self@.rc =~= old(self)@.rc.update(h as int, old(self)@.rc[h as int] + 1));
        }
    }

    /// Drops one reference to `h`.
    pub fn decref(&mut self, h: usize)
        requires
            old(self)@.wf(),
            old(self)@.valid(h),
            old(self)@.rc[h as int] > 0,
        ensures
            final(self)@.wf(),
            final(self)@.objs == old(self)@.objs,
            final(self)@.rc == old(self)@.rc.update(h as int, old(self)@.rc[h as int] - 1),
            final(self)@.pending == old(self)@.pending,
            final(self)@.long_is_64 == old(self)@.long_is_64,
            final(self)@.capacity == old(self)@.capacity,
    {
        let c = self.rc[h];
        self.rc.set(h, c - 1);
        proof {
            assert(self@.rc =~= old(self)@.rc.update(h as int, old(self)@.rc[h as int] - 1));
        }
    }

    /// Makes an integer object from a value of the platform's native long.
    pub fn long_from_long(&mut self, v: i64) -> (r: Option<usize>)
        requires
            old(self)@.wf(),
            long_min(old(self)@.long_is_64) <= v <= long_max(old(self)@.long_is_64),
        ensures
            final(self)@.wf(),
            old(self)@.has_room() ==> r == Some(old(self)@.objs.len() as usize) && old(
                self,
            )@.pushed(final(self)@, Obj::Int(v as i128)) && final(self)@.pending == old(
                self,
            )@.pending,
            !old(self)@.has_room() ==> r is None && old(self)@.same_heap(final(self)@)
                && final(self)@.pending == Some(ExcKind::Memory),
    {
        self.allocate(Obj::Int(v as i128))
    }

    /// Makes an integer object from a signed 64-bit value.
    pub fn long_from_i64(&mut self, v: i64) -> (r: Option<usize>)
        requires
            old(self)@.wf(),
        ensures
            final(self)@.wf(),
            old(self)@.has_room() ==> r == Some(old(self)@.objs.len() as usize) && old(
                self,
            )@.pushed(final(self)@, Obj::Int(v as i128)) && final(self)@.pending == old(
                self,
            )@.pending,
            !old(self)@.has_room() ==> r is None && old(self)@.same_heap(final(self)@)
                && final(self)@.pending == Some(ExcKind::Memory),
    {
        self.allocate(Obj::Int(v as i128))
    }

    /// Makes an integer object from an unsigned 64-bit value.
    pub fn long_from_u64(&mut self, v: u64) -> (r: Option<usize>)
        requires
            old(self)@.wf(),
        ensures
            final(self)@.wf(),
            old(self)@.has_room() ==> r == Some(old(self)@.objs.len() as usize) && old(
                self,
            )@.pushed(final(self)@, Obj::Int(v as i128)) && final(self)@.pending == old(
                self,
            )@.pending,
            !old(self)@.has_room() ==> r is None && old(self)@.same_heap(final(self)@)
                && final(self)@.pending == Some(ExcKind::Memory),
    {
        self.allocate(Obj::Int(v as i128))
    }

    /// Whether `h` is an integer object (booleans included).
    pub fn long_check(&self, h: usize) -> (r: bool)
        requires
            self@.valid(h),
        ensures
            r == int_value(self@.objs[h as int]) is Some,
    {
        match &self.objs[h] {
            Obj::Int(_) => true,
            Obj::Bool(_) => true,
            _ => false,
        }
    }

    /// The integer of `h` in `lo..=hi`; on failure the error is also set.
    fn read_in(&mut self, h: usize, lo: i128, hi: i128) -> (r: Result<i128, ExcKind>)
        requires
            old(self)@.valid(h),
        ensures
            old(self)@.same_heap(final(self)@),
            match read_int(old(self)@.objs[h as int], lo as int, hi as int) {
                Ok(i) => r == Ok::<i128, ExcKind>(i as i128) && final(self)@.pending == old(
                    self,
                )@.pending,
                Err(k) => r == Err::<i128, ExcKind>(k) && final(self)@.pending == Some(k),
            },
    {
        let v: i128 = match &self.objs[h] {
            Obj::Int(i) => *i,
            Obj::Bool(b) => if *b { 1 } else { 0 },
            _ => {
                self.pending = Some(ExcKind::Type);
                return Err(ExcKind::Type);
            },
        };
        if lo <= v && v <= hi {
            Ok(v)
        } else {
            self.pending = Some(ExcKind::Overflow);
            Err(ExcKind::Overflow)
        }
    }

    /// Reads `h` as the platform's native long. On failure the error is set
    /// and `-1` is returned, which is also a legitimate value.
    pub fn long_as_long(&mut self, h: usize) -> (r: i64)
        requires
            old(self)@.valid(h),
        ensures
            old(self)@.same_heap(final(self)@),
            match read_int(
                old(self)@.objs[h as int],
                long_min(old(self)@.long_is_64),
                long_max(old(self)@.long_is_64),
            ) {
                Ok(i) => r == i && final(self)@.pending == old(self)@.pending,
                Err(k) => r == -1 && final(self)@.pending == Some(k),
            },
    {
        let (lo, hi): (i128, i128) = if self.long_is_64 {
            (i64::MIN as i128, i64::MAX as i128)
        } else {
            (i32::MIN as i128, i32::MAX as i128)
        };
        match self.read_in(h, lo, hi) {
            Ok(v) => v as i64,
            Err(_) => -1,
        }
    }

    /// Reads `h` as a signed 64-bit value; `-1` with the error set on failure.
    pub fn long_as_i64(&mut self, h: usize) -> (r: i64)
        requires
            old(self)@.valid(h),
        ensures
            old(self)@.same_heap(final(self)@),
            match read_int(old(self)@.objs[h as int], i64::MIN as int, i64::MAX as int) {
                Ok(i) => r == i && final(self)@.pending == old(self)@.pending,
                Err(k) => r == -1 && final(self)@.pending == Some(k),
            },
    {
        match self.read_in(h, i64::MIN as i128, i64::MAX as i128) {
            Ok(v) => v as i64,
            Err(_) => -1,
        }
    }

    /// Reads `h` as an unsigned 64-bit value; all ones with the error set on
    /// failure.
    pub fn long_as_u64(&mut self, h: usize) -> (r: u64)
        requires
            old(self)@.valid(h),
        ensures
            old(self)@.same_heap(final(self)@),
            match read_int(old(self)@.objs[h as int], 0, u64::MAX as int) {
                Ok(i) => r == i && final(self)@.pending == old(self)@.pending,
                Err(k) => r == u64::MAX && final(self)@.pending == Some(k),
            },
    {
        match self.read_in(h, 0, u64::MAX as i128) {
            Ok(v) => v as u64,
            Err(_) => u64::MAX,
        }
    }

    /// Coerces `h` to a new integer object. Objects with no integer value
    /// raise a type error.
    pub fn number_long(&mut self, h: usize) -> (r: Option<usize>)
        requires
            old(self)@.wf(),
            old(self)@.valid(h),
        ensures
            final(self)@.wf(),
            match int_value(old(self)@.objs[h as int]) {
                None => r is None && old(self)@.same_heap(final(self)@) && final(self)@.pending
                    == Some(ExcKind::Type),
                Some(i) => if old(self)@.has_room() {
                    r == Some(old(self)@.objs.len() as usize) && old(self)@.pushed(
                        final(self)@,
                        Obj::Int(i as i128),
                    ) && final(self)@.pending == old(self)@.pending
                } else {
                    r is None && old(self)@.same_heap(final(self)@) && final(self)@.pending
                        == Some(ExcKind::Memory)
                },
            },
    {
        let v: i128 = match &self.objs[h] {
            Obj::Int(i) => *i,
            Obj::Bool(b) => if *b { 1 } else { 0 },
            _ => {
                self.pending = Some(ExcKind::Type);
                return None;
            },
        };
        self.allocate(Obj::Int(v))
    }
}

} // verus!

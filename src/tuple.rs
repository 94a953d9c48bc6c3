//! Immutable foreign sequences built from native integers.
use vstd::prelude::*;
use crate::error::{ExcKind, PyErr};
use crate::num::{to_foreign, NativeInt};
use crate::ptr::PyPtr;
use crate::runtime::{Obj, Runtime, RuntimeView};

verus! {

/// The slots of the sequence object `h`; empty for any other object.
pub open spec fn tuple_items(v: RuntimeView, h: usize) -> Seq<usize> {
    match v.objs[h as int] {
        Obj::Tuple(s) => s@,
        _ => Seq::empty(),
    }
}

/// What a checked read of slot `i` of the sequence `h` gives.
pub open spec fn get_item_spec(v: RuntimeView, h: usize, i: usize) -> Result<usize, ExcKind> {
    if i < tuple_items(v, h).len() {
        Ok(tuple_items(v, h)[i as int])
    } else {
        Err(ExcKind::Index)
    }
}

/// `b` extends `a` with objects that no one holds a reference to any more:
/// every earlier object and count is as it was.
pub open spec fn settled(a: RuntimeView, b: RuntimeView) -> bool {
    &&& a.objs.len() <= b.objs.len()
    &&& b.objs.len() == b.rc.len()
    &&& b.objs.subrange(0, a.objs.len() as int) == a.objs
    &&& b.rc.subrange(0, a.rc.len() as int) == a.rc
    &&& forall|j: int| a.rc.len() <= j < b.rc.len() ==> b.rc[j] == 0
    &&& b.long_is_64 == a.long_is_64
    &&& b.capacity == a.capacity
}

/// Number of slots of the sequence `h`.
pub fn len(rt: &Runtime, h: usize) -> (r: usize)
    requires
        rt@.valid(h),
    ensures
        r == tuple_items(rt@, h).len(),
{
    match rt.object(h) {
        Obj::Tuple(v) => v.len(),
        _ => 0,
    }
}

/// A borrowed handle to slot `i` of the sequence `h`, or an index error
/// when `i` is past its end.
pub fn get_item(rt: &Runtime, h: usize, i: usize) -> (r: Result<usize, PyErr>)
    requires
        rt@.valid(h),
    ensures
        match get_item_spec(rt@, h, i) {
            Ok(c) => r == Ok::<usize, PyErr>(c),
            Err(k) => r == Err::<usize, PyErr>(PyErr { kind: k }),
        },
{
    match rt.object(h) {
        Obj::Tuple(v) => if i < v.len() {
            Ok(v[i])
        } else {
            Err(PyErr::new(ExcKind::Index))
        },
        _ => Err(PyErr::new(ExcKind::Index)),
    }
}

/// A borrowed handle to slot `i` of the sequence `h`, with no bounds check:
/// the caller shows that `i` is in range.
pub fn get_item_unchecked(rt: &Runtime, h: usize, i: usize) -> (r: usize)
    requires
        rt@.valid(h),
        i < tuple_items(rt@, h).len(),
    ensures
        r == tuple_items(rt@, h)[i as int],
{
    match rt.object(h) {
        Obj::Tuple(v) => v[i],
        _ => 0,
    }
}

/// Drops the single reference to each of `n` objects allocated from `start`.
fn release_fresh(rt: &mut Runtime, start: usize, n: usize)
    requires
        old(rt)@.wf(),
        start + n <= old(rt)@.objs.len(),
        forall|j: int| start <= j < start + n ==> old(rt)@.rc[j] == 1,
    ensures
        final(rt)@.wf(),
        final(rt)@.objs == old(rt)@.objs,
        final(rt)@.pending == old(rt)@.pending,
        final(rt)@.long_is_64 == old(rt)@.long_is_64,
        final(rt)@.capacity == old(rt)@.capacity,
        final(rt)@.rc.len() == old(rt)@.rc.len(),
        forall|j: int|
            0 <= j < old(rt)@.rc.len() ==> #[trigger] final(rt)@.rc[j] == if start <= j < start
                + n {
                0
            } else {
                old(rt)@.rc[j]
            },
{
    let mut i: usize = 0;
    while i < n
        invariant
            rt@.wf(),
            i <= n,
            start + n <= rt@.objs.len(),
            forall|j: int| start <= j < start + n ==> old(rt)@.rc[j] == 1,
            rt@.objs == old(rt)@.objs,
            rt@.pending == old(rt)@.pending,
            rt@.long_is_64 == old(rt)@.long_is_64,
            rt@.capacity == old(rt)@.capacity,
            rt@.rc.len() == old(rt)@.rc.len(),
            forall|j: int|
                0 <= j < old(rt)@.rc.len() ==> #[trigger] rt@.rc[j] == if start <= j < start + i {
                    0
                } else {
                    old(rt)@.rc[j]
                },
        decreases n - i,
    {
        assert(old(rt)@.rc[(start + i) as int] == 1);
        rt.decref(start + i);
        i = i + 1;
    }
}

/// Builds a sequence object from native integers, each converted into a new
/// integer object whose one reference the sequence then holds. The only
/// failure is a full runtime; then every object made on the way is released.
pub fn new_from_items<T: NativeInt>(rt: &mut Runtime, items: &Vec<T>) -> (r: Result<PyPtr, PyErr>)
    requires
        old(rt)@.wf(),
        old(rt)@.pending is None,
    ensures
        final(rt)@.wf(),
        final(rt)@.pending is None,
        old(rt)@.objs.len() + items@.len() < old(rt)@.capacity <==> r is Ok,
        r is Err ==> r == Err::<PyPtr, PyErr>(PyErr { kind: ExcKind::Memory }) && settled(
            old(rt)@,
            final(rt)@,
        ),
        r matches Ok(p) ==> holds_items(old(rt)@, final(rt)@, p.h(), items@),
{
    let ghost a = rt@;
    let start = rt.num_objects();
    let mut hs: Vec<usize> = Vec::new();
    let mut i: usize = 0;
    while i < items.len()
        invariant
            rt@.wf(),
            rt@.pending is None,
            a == old(rt)@,
            start == a.objs.len(),
            i <= items@.len(),
            hs@.len() == i,
            rt@.objs.len() == start + i,
            rt@.objs.subrange(0, start as int) == a.objs,
            rt@.rc.subrange(0, start as int) == a.rc,
            rt@.long_is_64 == a.long_is_64,
            rt@.capacity == a.capacity,
            forall|j: int|
                0 <= j < i ==> #[trigger] hs@[j] == start + j && rt@.rc[start + j] == 1
                    && rt@.objs[start + j] == Obj::Int(items@[j].as_int() as i128),
        decreases items@.len() - i,
    {
        let ghost before = rt@;
        match to_foreign(rt, &items[i]) {
            Ok(p) => {
                hs.push(p.into_handle());
                proof {
                    assert(rt@.objs.subrange(0, start as int) =~= before.objs.subrange(0, start as int));
                    assert(rt@.rc.subrange(0, start as int) =~= before.rc.subrange(0, start as int));
                    assert forall|j: int| 0 <= j < i + 1 implies #[trigger] hs@[j] == start + j
                        && rt@.rc[start + j] == 1 && rt@.objs[start + j] == Obj::Int(
                        items@[j].as_int() as i128,
                    ) by {
                        if j < i {
                            assert(hs@[j] == start + j);
                            assert(before.rc[start + j] == 1);
                            assert(rt@.rc[start + j] == before.rc[start + j]);
                            assert(rt@.objs[start + j] == before.objs[start + j]);
                        }
                    }
                }
                i = i + 1;
            },
            Err(e) => {
                assert forall|j: int| start <= j < start + i implies rt@.rc[j] == 1 by {
                    assert(hs@[j - start] == start + (j - start));
                }
                release_fresh(rt, start, i);
                proof {
                    assert(rt@.objs.subrange(0, start as int) =~= a.objs);
                    assert(rt@.rc.subrange(0, start as int) =~= a.rc);
                }
                return Err(e);
            },
        }
    }
    proof {
        assert forall|j: int| 0 <= j < hs@.len() implies hs@[j] < rt@.objs.len() by {
            assert(hs@[j] == start + j);
        }
    }
    let n = hs.len();
    let ghost slots = hs@;
    let ghost full = rt@;
    let made = rt.allocate(Obj::Tuple(hs));
    match made {
        Some(h) => {
            proof {
                assert(tuple_items(rt@, h) == slots);
                assert forall|j: int| 0 <= j < items@.len() implies #[trigger] tuple_items(rt@, h)[j]
                    == start + j && rt@.rc[start + j] == 1 && rt@.objs[start + j] == Obj::Int(
                    items@[j].as_int() as i128,
                ) by {
                    assert(slots[j] == start + j);
                    assert(rt@.rc[start + j] == full.rc[start + j]);
                    assert(rt@.objs[start + j] == full.objs[start + j]);
                }
                assert(rt@.objs.subrange(0, start as int) =~= a.objs);
                assert(rt@.rc.subrange(0, start as int) =~= a.rc);
            }
            PyPtr::from_owned_handle_or_fail(rt, made)
        },
        None => {
            assert forall|j: int| start <= j < start + n implies rt@.rc[j] == 1 by {
                assert(hs@[j - start] == start + (j - start));
            }
            release_fresh(rt, start, n);
            let e = rt.fetch();
            proof {
                assert(rt@.objs.subrange(0, start as int) =~= a.objs);
                assert(rt@.rc.subrange(0, start as int) =~= a.rc);
            }
            Err(e)
        },
    }
}

/// `b` extends `a` with one new integer object per item, with one reference
/// each, and then the sequence `h` that holds them in order, with one
/// reference; nothing earlier changed.
pub open spec fn holds_items<T: NativeInt>(a: RuntimeView, b: RuntimeView, h: usize, items: Seq<T>) -> bool {
    let start = a.objs.len() as int;
    &&& h == start + items.len()
    &&& b.objs.len() == h + 1
    &&& b.rc.len() == h + 1
    &&& b.objs.subrange(0, start) == a.objs
    &&& b.rc.subrange(0, start) == a.rc
    &&& b.long_is_64 == a.long_is_64
    &&& b.capacity == a.capacity
    &&& b.rc[h as int] == 1
    &&& b.objs[h as int] is Tuple
    &&& tuple_items(b, h).len() == items.len()
    &&& forall|j: int|
        0 <= j < items.len() ==> #[trigger] tuple_items(b, h)[j] == start + j && b.rc[start + j]
            == 1 && b.objs[start + j] == Obj::Int(items[j].as_int() as i128)
}

} // verus!

//! Laws that relate the operations of the library to one another.
use vstd::prelude::*;
use crate::error::ExcKind;
use crate::num::{extract_spec, in_range, IntKind, NativeInt};
use crate::ptr::decremented;
use crate::runtime::{int_value, Obj, RuntimeView};
use crate::tuple::{get_item_spec, holds_items, settled};

verus! {

/// Converting a native value and extracting it as the same type gives the
/// value back: `to_foreign` makes `Obj::Int(v)`, and extracting that object
/// as `T` yields `v`.
pub proof fn lemma_round_trip<T: NativeInt>(v: T)
    ensures
        extract_spec(Obj::Int(v.as_int() as i128), T::kind()) == Ok::<int, ExcKind>(v.as_int()),
{
    v.lemma_in_range();
}

/// An integer object extracted as any native type gives its value when the
/// type can hold it, and an overflow error when it cannot.
pub proof fn lemma_cross_width(v: i128, k: IntKind)
    ensures
        extract_spec(Obj::Int(v), k) == if in_range(k, v as int) {
            Ok::<int, ExcKind>(v as int)
        } else {
            Err::<int, ExcKind>(ExcKind::Overflow)
        },
{
}

/// A sequence built from `N` native items gives back, at each index below
/// `N`, an object holding that item's value, and an index error at `N`.
pub proof fn lemma_sequence_items<T: NativeInt>(a: RuntimeView, b: RuntimeView, h: usize, items: Seq<T>)
    requires
        holds_items(a, b, h, items),
    ensures
        forall|i: usize|
            i < items.len() ==> (#[trigger] get_item_spec(b, h, i) matches Ok(c) && int_value(
                b.objs[c as int],
            ) == Some(items[i as int].as_int())),
        items.len() <= usize::MAX ==> get_item_spec(b, h, items.len() as usize) == Err::<
            usize,
            ExcKind,
        >(ExcKind::Index),
{
    assert forall|i: usize| i < items.len() implies (#[trigger] get_item_spec(b, h, i) matches Ok(
        c,
    ) && int_value(b.objs[c as int]) == Some(items[i as int].as_int())) by {
        items[i as int].lemma_in_range();
        assert(crate::tuple::tuple_items(b, h)[i as int] == a.objs.len() + i);
    }
}

/// An unchanged heap is settled with respect to itself.
pub proof fn lemma_settled_refl(a: RuntimeView)
    requires
        a.objs.len() == a.rc.len(),
    ensures
        settled(a, a),
{
    assert(a.objs.subrange(0, a.objs.len() as int) =~= a.objs);
    assert(a.rc.subrange(0, a.rc.len() as int) =~= a.rc);
}

/// Settling is transitive: steps that each leave earlier counts as they
/// were and release all they made do so together.
pub proof fn lemma_settled_trans(a: RuntimeView, b: RuntimeView, c: RuntimeView)
    requires
        a.objs.len() == a.rc.len(),
        settled(a, b),
        settled(b, c),
    ensures
        settled(a, c),
{
    assert(c.objs.subrange(0, a.objs.len() as int) =~= a.objs) by {
        assert forall|j: int| 0 <= j < a.objs.len() implies c.objs[j] == a.objs[j] by {
            assert(c.objs[j] == c.objs.subrange(0, b.objs.len() as int)[j]);
            assert(b.objs[j] == b.objs.subrange(0, a.objs.len() as int)[j]);
        }
    }
    assert(c.rc.subrange(0, a.rc.len() as int) =~= a.rc) by {
        assert forall|j: int| 0 <= j < a.rc.len() implies c.rc[j] == a.rc[j] by {
            assert(c.rc[j] == c.rc.subrange(0, b.rc.len() as int)[j]);
            assert(b.rc[j] == b.rc.subrange(0, a.rc.len() as int)[j]);
        }
    }
    assert forall|j: int| a.rc.len() <= j < c.rc.len() implies c.rc[j] == 0 by {
        if j < b.rc.len() {
            assert(c.rc[j] == c.rc.subrange(0, b.rc.len() as int)[j]);
        }
    }
}

/// Making one object with one reference and then releasing that reference
/// brings every count back to where it was.
pub proof fn lemma_convert_then_release(a: RuntimeView, b: RuntimeView, o: Obj)
    requires
        a.wf(),
        a.pushed(b, o),
    ensures
        settled(a, decremented(b, a.objs.len() as usize)),
{
    let c = decremented(b, a.objs.len() as usize);
    assert(c.objs.subrange(0, a.objs.len() as int) =~= a.objs);
    assert(c.rc.subrange(0, a.rc.len() as int) =~= a.rc);
}

} // verus!

//! Owned references: each one holds exactly one reference count unit of one
//! foreign object.
use vstd::prelude::*;
use crate::error::{ExcKind, PyErr};
use crate::runtime::{Runtime, RuntimeView};

verus! {

/// An owned reference to a foreign object.
#[derive(Debug)]
pub struct PyPtr {
    handle: usize,
}

impl PyPtr {
    /// The handle this reference owns a unit of.
    pub closed spec fn h(&self) -> usize {
        self.handle
    }

    /// The handle, lent out without touching the count.
    pub fn as_handle(&self) -> (r: usize)
        ensures
            r == self.h(),
    {
        self.handle
    }

    /// Wraps a handle that a constructor returned with its reference already
    /// counted. A missing handle turns the pending error into the result.
    pub fn from_owned_handle_or_fail(rt: &mut Runtime, h: Option<usize>) -> (r: Result<
        PyPtr,
        PyErr,
    >)
        ensures
            match h {
                Some(x) => r matches Ok(p) && p.h() == x && final(rt)@ == old(rt)@,
                None => r == Err::<PyPtr, PyErr>(
                    PyErr {
                        kind: match old(rt)@.pending {
                            Some(k) => k,
                            None => ExcKind::System,
                        },
                    },
                ) && final(rt)@.pending is None && old(rt)@.same_heap(final(rt)@),
            },
    {
        match h {
            Some(x) => Ok(PyPtr { handle: x }),
            None => Err(rt.fetch()),
        }
    }

    /// Takes a new reference to a borrowed handle.
    pub fn from_borrowed(rt: &mut Runtime, h: usize) -> (r: PyPtr)
        requires
            old(rt)@.wf(),
            old(rt)@.valid(h),
            old(rt)@.rc[h as int] < u64::MAX,
        ensures
            r.h() == h,
            final(rt)@ == incremented(old(rt)@, h),
    {
        rt.incref(h);
        PyPtr { handle: h }
    }

    /// A second owned reference to the same object.
    pub fn clone_ref(&self, rt: &mut Runtime) -> (r: PyPtr)
        requires
            old(rt)@.wf(),
            old(rt)@.valid(self.h()),
            old(rt)@.rc[self.h() as int] < u64::MAX,
        ensures
            r.h() == self.h(),
            final(rt)@ == incremented(old(rt)@, self.h()),
    {
        PyPtr::from_borrowed(rt, self.handle)
    }

    /// Gives the unit back to the runtime.
    pub fn release(self, rt: &mut Runtime)
        requires
            old(rt)@.wf(),
            old(rt)@.valid(self.h()),
            old(rt)@.rc[self.h() as int] > 0,
        ensures
            final(rt)@ == decremented(old(rt)@, self.h()),
    {
        rt.decref(self.handle);
    }

    /// Hands the unit over as a plain handle, leaving the count as it is.
    pub fn into_handle(self) -> (r: usize)
        ensures
            r == self.h(),
    {
        self.handle
    }
}

/// `v` with one more reference to `h`.
pub open spec fn incremented(v: RuntimeView, h: usize) -> RuntimeView {
    RuntimeView { rc: v.rc.update(h as int, v.rc[h as int] + 1), ..v }
}

/// `v` with one reference to `h` fewer.
pub open spec fn decremented(v: RuntimeView, h: usize) -> RuntimeView {
    RuntimeView { rc: v.rc.update(h as int, v.rc[h as int] - 1), ..v }
}

} // verus!

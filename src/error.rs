use vstd::prelude::*;

verus! {

/// The kind of a foreign exception.
#[derive(Clone, Copy, Debug, PartialEq, Eq, Structural)]
pub enum ExcKind {
    /// A foreign numeric value does not fit the requested native width.
    Overflow,
    /// An object of the wrong foreign type was handed to an accessor.
    Type,
    /// A checked sequence access was out of bounds.
    Index,
    /// A foreign constructor could not allocate a new object.
    Memory,
    /// An error was fetched while none was pending.
    System,
}

/// A native error value standing for a foreign exception.
#[derive(Clone, Copy, Debug, PartialEq, Eq, Structural)]
pub struct PyErr {
    pub kind: ExcKind,
}

impl PyErr {
    /// Builds an error of the given kind.
    pub fn new(kind: ExcKind) -> (r: PyErr)
        ensures
            r.kind == kind,
    {
        PyErr { kind }
    }

    /// True when this error is the foreign runtime's overflow exception.
    pub fn is_overflow(&self) -> (r: bool)
        ensures
            r == (self.kind == ExcKind::Overflow),
    {
        matches!(self.kind, ExcKind::Overflow)
    }

    /// True when this error is the foreign runtime's index exception.
    pub fn is_index(&self) -> (r: bool)
        ensures
            r == (self.kind == ExcKind::Index),
    {
        matches!(self.kind, ExcKind::Index)
    }
}

/// The error that reports a value out of a native type's range. It is only a
/// tag: no foreign object is made for it unless it surfaces.
pub fn overflow_error() -> (r: PyErr)
    ensures
        r.kind == ExcKind::Overflow,
{
    PyErr { kind: ExcKind::Overflow }
}

} // verus!

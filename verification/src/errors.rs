use vstd::prelude::*;

verus! {

/// Failure kinds surfaced by the authoring layer.
///
/// The first two arise while a schema batch is built or registered and are
/// fatal at startup; `BoundaryMismatch` means the declared layout and the
/// world storage disagree and is always fatal; `NotAttached` is the one
/// recoverable kind; `ResourceExhausted` means the world cannot allocate a
/// further slot.
#[derive(Debug)]
pub enum EcsError {
    /// Two definitions in the same batch share a name; carries that name.
    SchemaCollision(String),
    /// The world rejected a schema, e.g. the name is already stored; carries
    /// the offending name.
    RegistrationFailure(String),
    /// An operation was handed an invalid handle or a shape that does not
    /// match the stored layout, or was invoked while an iteration window was
    /// open.
    BoundaryMismatch,
    /// A component instance was looked up where none is attached.
    NotAttached,
    /// No further entity slot can be allocated.
    ResourceExhausted,
}

impl EcsError {
    /// Whether the error is fatal to further use of the world, as opposed to
    /// `NotAttached`, which a caller may recover from.
    pub open spec fn spec_is_fatal(self) -> bool {
        !(self is NotAttached)
    }

    /// Returns whether this error must halt further processing.
    pub fn is_fatal(&self) -> (r: bool)
        ensures
            r == self.spec_is_fatal(),
    {
        !matches!(self, EcsError::NotAttached)
    }
}

} // verus!

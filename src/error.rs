use vstd::prelude::*;

verus! {

/// The ways in which an operation of the library can be refused.
#[derive(Clone, Copy, Debug, PartialEq, Eq, Structural)]
pub enum Error {
    /// A layer of that name already exists.
    LayerExists,
    /// No layer has that name.
    LayerNotFound,
    /// The layer cannot be moved that far.
    InvalidMove,
    /// A stroke must hold at least one point.
    EmptyStroke,
    /// The history cursor cannot go back that far.
    CannotUndo,
    /// The history cursor cannot go forward that far.
    CannotRedo,
    /// Another connected user already has that name.
    IdentityConflict,
}

impl Error {
    /// The sentence that describes the error.
    pub open spec fn text(self) -> Seq<char> {
        match self {
            Error::LayerExists => "Layer already exists."@,
            Error::LayerNotFound => "Layer not found."@,
            Error::InvalidMove => "Layer cannot be moved this much."@,
            Error::EmptyStroke => "Stroke must have at least 1 point."@,
            Error::CannotUndo => "Cannot undo this much."@,
            Error::CannotRedo => "Cannot redo this much."@,
            Error::IdentityConflict => "Another user with this username already exists."@,
        }
    }

    /// A sentence that describes the error.
    pub fn message(&self) -> (s: &'static str)
        ensures
            s@ == self.text(),
    {
        match self {
            Error::LayerExists => "Layer already exists.",
            Error::LayerNotFound => "Layer not found.",
            Error::InvalidMove => "Layer cannot be moved this much.",
            Error::EmptyStroke => "Stroke must have at least 1 point.",
            Error::CannotUndo => "Cannot undo this much.",
            Error::CannotRedo => "Cannot redo this much.",
            Error::IdentityConflict => "Another user with this username already exists.",
        }
    }
}

} // verus!

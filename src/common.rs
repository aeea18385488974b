use vstd::prelude::*;

verus! {

/// Completion state of a note or of a checklist element.
#[derive(Debug, Clone, Copy, PartialEq, Eq, Structural)]
pub enum Status {
    Doing,
    Done,
}

impl Status {
    /// The other state.
    pub open spec fn opposite(self) -> Status {
        match self {
            Status::Doing => Status::Done,
            Status::Done => Status::Doing,
        }
    }

    /// Returns the other state.
    pub fn flipped(self) -> (r: Status)
        ensures
            r == self.opposite(),
    {
        match self {
            Status::Doing => Status::Done,
            Status::Done => Status::Doing,
        }
    }

    /// The name under which a status is shown.
    pub open spec fn name(self) -> Seq<char> {
        match self {
            Status::Doing => "Doing"@,
            Status::Done => "Done"@,
        }
    }

    /// Returns the name under which a status is shown.
    pub fn label(&self) -> (r: &'static str)
        ensures
            r@ == self.name(),
    {
        match self {
            Status::Doing => "Doing",
            Status::Done => "Done",
        }
    }
}

/// Something whose status can be flipped between `Doing` and `Done`.
pub trait Togglable {
    /// The current status.
    spec fn status_of(&self) -> Status;

    /// Flips the status.
    fn toggle(&mut self)
        ensures
            final(self).status_of() == old(self).status_of().opposite(),
    ;
}

/// A position that does not address an element of the sequence it was meant for.
#[derive(Debug, Clone, Copy, PartialEq, Eq, Structural)]
pub struct IndexOutOfRange {
    pub position: usize,
    pub len: usize,
}

} // verus!

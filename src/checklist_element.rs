use vstd::prelude::*;
use vstd::string::StringExecFns;

use crate::common::{Status, Togglable};

verus! {

/// One item of a note's checklist.
#[derive(Debug)]
pub struct ChecklistElement {
    pub description: String,
    pub status: Status,
}

impl ChecklistElement {
    /// A new element, not yet done.
    pub fn new(description: String) -> (r: ChecklistElement)
        ensures
            r.description == description,
            r.status == Status::Doing,
    {
        ChecklistElement { description, status: Status::Doing }
    }

    /// The line that shows the element: `description - [Status]`.
    pub fn summary(&self) -> (r: String)
        ensures
            r@ == self.description@ + " - ["@ + self.status.name() + "]"@,
    {
        let mut r = self.description.clone();
        r.append(" - [");
        r.append(self.status.label());
        r.append("]");
        r
    }

    /// The same element with its status flipped.
    pub open spec fn toggled(self) -> ChecklistElement {
        ChecklistElement { description: self.description, status: self.status.opposite() }
    }
}

impl Togglable for ChecklistElement {
    open spec fn status_of(&self) -> Status {
        self.status
    }

    /// Flips the status; the description stays as it is.
    fn toggle(&mut self)
        ensures
            *final(self) == old(self).toggled(),
    {
        self.status = self.status.flipped();
    }
}

impl Clone for ChecklistElement {
    fn clone(&self) -> (r: Self)
        ensures
            r == *self,
    {
        ChecklistElement { description: self.description.clone(), status: self.status }
    }
}

/// Toggling an element twice gives back the element; its description never changes.
pub proof fn lemma_element_toggle_twice(e: ChecklistElement)
    ensures
        e.toggled().toggled() == e,
        e.toggled().description == e.description,
{
}

} // verus!

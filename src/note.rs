use vstd::prelude::*;
use vstd::string::StringExecFns;

use crate::checklist_element::ChecklistElement;
use crate::common::{IndexOutOfRange, Status, Togglable};
use crate::timestamp::{clock_now, Timestamp};

verus! {

/// A titled, described and timestamped piece of work, with a checklist and tags.
#[derive(Debug)]
pub struct Note {
    pub title: String,
    pub description: String,
    pub status: Status,
    pub inserted_at: Timestamp,
    pub updated_at: Timestamp,
    pub checklist: Vec<ChecklistElement>,
    pub tags: Vec<String>,
}

/// What a note holds, with its strings as character sequences.
pub struct NoteView {
    pub title: Seq<char>,
    pub description: Seq<char>,
    pub status: Status,
    pub inserted_at: Timestamp,
    pub updated_at: Timestamp,
    pub checklist: Seq<ChecklistElement>,
    pub tags: Seq<Seq<char>>,
}

impl View for Note {
    type V = NoteView;

    open spec fn view(&self) -> NoteView {
        NoteView {
            title: self.title@,
            description: self.description@,
            status: self.status,
            inserted_at: self.inserted_at,
            updated_at: self.updated_at,
            checklist: self.checklist@,
            tags: self.tags@.map_values(|t: String| t@),
        }
    }
}

impl NoteView {
    /// A note was never updated before it was inserted.
    pub open spec fn wf(self) -> bool {
        self.inserted_at.is_not_after(self.updated_at)
    }

    /// A fresh note made at `at`.
    pub open spec fn created(title: Seq<char>, description: Seq<char>, at: Timestamp) -> NoteView {
        NoteView {
            title,
            description,
            status: Status::Doing,
            inserted_at: at,
            updated_at: at,
            checklist: Seq::empty(),
            tags: Seq::empty(),
        }
    }

    /// The same note with another checklist.
    pub open spec fn with_checklist(self, checklist: Seq<ChecklistElement>) -> NoteView {
        NoteView { checklist, ..self }
    }

    /// The same note with other tags.
    pub open spec fn with_tags(self, tags: Seq<Seq<char>>) -> NoteView {
        NoteView { tags, ..self }
    }

    /// The note after its status is flipped when the clock reads `now`. The
    /// update time never goes back, even where the clock does.
    pub open spec fn toggled_at(self, now: Timestamp) -> NoteView {
        NoteView { status: self.status.opposite(), updated_at: self.updated_at.later_of(now), ..self }
    }

    /// One of the tags is exactly `tag`.
    pub open spec fn has_tag(self, tag: Seq<char>) -> bool {
        self.tags.contains(tag)
    }
}

impl Note {
    /// A new note, made now: not done, with no checklist and no tags.
    pub fn new(title: String, description: String) -> (r: Note)
        ensures
            r@ == NoteView::created(title@, description@, r.inserted_at),
            r.status == Status::Doing,
            r.inserted_at == r.updated_at,
            r@.wf(),
    {
        let now = clock_now();
        Note::created_at(title, description, now)
    }

    /// A new note made at `at`: not done, with no checklist and no tags.
    pub fn created_at(title: String, description: String, at: Timestamp) -> (r: Note)
        ensures
            r@ == NoteView::created(title@, description@, at),
            r@.wf(),
    {
        let r = Note {
            title,
            description,
            status: Status::Doing,
            inserted_at: at,
            updated_at: at,
            checklist: Vec::new(),
            tags: Vec::new(),
        };
        assert(r@.tags =~= Seq::<Seq<char>>::empty());
        r
    }

    /// The line that shows the note: `title - [Status]`.
    pub fn summary(&self) -> (r: String)
        ensures
            r@ == self.title@ + " - ["@ + self.status.name() + "]"@,
    {
        let mut r = self.title.clone();
        r.append(" - [");
        r.append(self.status.label());
        r.append("]");
        r
    }

    /// Appends a new element, not yet done, to the checklist.
    pub fn add_checklist_element(&mut self, description: String)
        ensures
            final(self)@ == old(self)@.with_checklist(
                old(self)@.checklist.push(ChecklistElement { description, status: Status::Doing }),
            ),
    {
        self.checklist.push(ChecklistElement::new(description));
        assert(self@.tags =~= old(self)@.tags);
    }

    /// Toggles the checklist element at `position`, or reports that there is none.
    pub fn toggle_checklist_element(&mut self, position: usize) -> (r: Result<(), IndexOutOfRange>)
        ensures
            r is Ok <==> position < old(self).checklist@.len(),
            r is Ok ==> final(self)@ == old(self)@.with_checklist(
                old(self)@.checklist.update(position as int, old(self)@.checklist[position as int].toggled()),
            ),
            r is Err ==> *final(self) == *old(self)
                && r == Err::<(), IndexOutOfRange>(IndexOutOfRange { position, len: old(self).checklist@.len() as usize }),
    {
        if position >= self.checklist.len() {
            return Err(IndexOutOfRange { position, len: self.checklist.len() });
        }
        self.checklist[position].toggle();
        assert(self@.tags =~= old(self)@.tags);
        Ok(())
    }

    /// Removes the checklist element at `position`; later elements move down by
    /// one. Only the checklist changes: the tags are left as they are.
    pub fn remove_checklist_element(&mut self, position: usize) -> (r: Result<(), IndexOutOfRange>)
        ensures
            r is Ok <==> position < old(self).checklist@.len(),
            r is Ok ==> final(self)@ == old(self)@.with_checklist(old(self)@.checklist.remove(position as int)),
            r is Err ==> *final(self) == *old(self)
                && r == Err::<(), IndexOutOfRange>(IndexOutOfRange { position, len: old(self).checklist@.len() as usize }),
    {
        if position >= self.checklist.len() {
            return Err(IndexOutOfRange { position, len: self.checklist.len() });
        }
        self.checklist.remove(position);
        assert(self@.tags =~= old(self)@.tags);
        Ok(())
    }

    /// Appends a tag; tags may repeat.
    pub fn add_tag(&mut self, title: String)
        ensures
            final(self)@ == old(self)@.with_tags(old(self)@.tags.push(title@)),
            final(self)@.tags.len() == old(self)@.tags.len() + 1,
            final(self)@.has_tag(title@),
    {
        self.tags.push(title);
        assert(self@.tags =~= old(self)@.tags.push(title@));
        assert(self@.tags[self@.tags.len() - 1] == title@);
    }

    /// Whether one of the tags equals `tag`.
    pub fn has_tag(&self, tag: &String) -> (r: bool)
        ensures
            r == self@.has_tag(tag@),
    {
        let mut i: usize = 0;
        while i < self.tags.len()
            invariant
                i <= self.tags@.len(),
                forall|j: int| 0 <= j < i ==> self@.tags[j] != tag@,
            decreases self.tags@.len() - i,
        {
            if self.tags[i] == *tag {
                assert(self@.tags[i as int] == tag@);
                return true;
            }
            i += 1;
        }
        assert(!self@.tags.contains(tag@));
        false
    }

    /// Removes the tag at `position`; later tags move down by one.
    pub fn remove_tag(&mut self, position: usize) -> (r: Result<(), IndexOutOfRange>)
        ensures
            r is Ok <==> position < old(self).tags@.len(),
            r is Ok ==> final(self)@ == old(self)@.with_tags(old(self)@.tags.remove(position as int)),
            r is Err ==> *final(self) == *old(self)
                && r == Err::<(), IndexOutOfRange>(IndexOutOfRange { position, len: old(self).tags@.len() as usize }),
    {
        if position >= self.tags.len() {
            return Err(IndexOutOfRange { position, len: self.tags.len() });
        }
        self.tags.remove(position);
        assert(self@.tags =~= old(self)@.tags.remove(position as int));
        Ok(())
    }

    /// Flips the status as of `now`; the update time becomes `now`, or stays
    /// where it was if `now` is earlier.
    pub fn toggle_at(&mut self, now: Timestamp)
        ensures
            final(self)@ == old(self)@.toggled_at(now),
            old(self)@.wf() ==> final(self)@.wf(),
    {
        self.status = self.status.flipped();
        self.updated_at = self.updated_at.latest(now);
        assert(self@.tags =~= old(self)@.tags);
    }
}

impl Togglable for Note {
    open spec fn status_of(&self) -> Status {
        self.status
    }

    /// Flips the status and moves the update time to the clock's reading, or
    /// leaves it where it was if the clock reads earlier.
    fn toggle(&mut self)
        ensures
            exists|now: Timestamp| final(self)@ == old(self)@.toggled_at(now),
            old(self).updated_at.is_not_after(final(self).updated_at),
            old(self)@.wf() ==> final(self)@.wf(),
    {
        let now = clock_now();
        self.toggle_at(now);
    }
}

impl Clone for Note {
    fn clone(&self) -> (r: Self)
        ensures
            r@ == self@,
    {
        let r = Note {
            title: self.title.clone(),
            description: self.description.clone(),
            status: self.status,
            inserted_at: self.inserted_at,
            updated_at: self.updated_at,
            checklist: self.checklist.clone(),
            tags: self.tags.clone(),
        };
        assert(r.checklist@ =~= self.checklist@);
        assert(r.tags@ =~= self.tags@);
        r
    }
}

/// Toggling a note twice gives back its status, and its update time never goes
/// back, whatever the clock reads at each toggle.
pub proof fn lemma_note_toggle_twice(n: NoteView, first: Timestamp, second: Timestamp)
    ensures
        n.toggled_at(first).toggled_at(second).status == n.status,
        n.updated_at.is_not_after(n.toggled_at(first).updated_at),
        n.toggled_at(first).updated_at.is_not_after(n.toggled_at(first).toggled_at(second).updated_at),
        n.wf() ==> n.toggled_at(first).toggled_at(second).wf(),
{
}

/// Adding a tag lengthens the tags by one, and the note then has that tag.
pub proof fn lemma_add_tag_then_has_tag(n: NoteView, tag: Seq<char>)
    ensures
        n.with_tags(n.tags.push(tag)).tags.len() == n.tags.len() + 1,
        n.with_tags(n.tags.push(tag)).has_tag(tag),
{
    assert(n.tags.push(tag)[n.tags.len() as int] == tag);
}

} // verus!

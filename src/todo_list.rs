use vstd::prelude::*;

use crate::common::IndexOutOfRange;
use crate::note::{Note, NoteView};
use crate::timestamp::Timestamp;

verus! {

/// The notes, in the order they were added.
#[derive(Debug)]
pub struct TodoList {
    notes: Vec<Note>,
}

impl View for TodoList {
    type V = Seq<NoteView>;

    closed spec fn view(&self) -> Seq<NoteView> {
        views(self.notes@)
    }
}

/// What each of `notes` holds, in order.
pub open spec fn views(notes: Seq<Note>) -> Seq<NoteView> {
    notes.map_values(|n: Note| n@)
}

/// `part` occurs in `text` as a run of consecutive characters.
pub open spec fn is_substring(part: Seq<char>, text: Seq<char>) -> bool {
    exists|i: int| 0 <= i && i + part.len() <= text.len() && #[trigger] text.subrange(i, i + part.len()) == part
}

/// A note found by a search on `tag`.
pub open spec fn tag_matches(tag: Seq<char>, n: NoteView) -> bool {
    n.has_tag(tag)
}

/// A note found by a search on `part` of the description.
pub open spec fn description_matches(part: Seq<char>, n: NoteView) -> bool {
    is_substring(part, n.description)
}

/// A note found by a search on the range from `from` to `to`, both included.
pub open spec fn date_matches(from: Timestamp, to: Timestamp, n: NoteView) -> bool {
    from.is_not_after(n.inserted_at) && n.inserted_at.is_not_after(to)
}

/// The notes that have `tag`, in order.
pub open spec fn notes_with_tag(notes: Seq<NoteView>, tag: Seq<char>) -> Seq<NoteView> {
    notes.filter(|n: NoteView| tag_matches(tag, n))
}

/// The notes whose description contains `part`, in order.
pub open spec fn notes_with_description(notes: Seq<NoteView>, part: Seq<char>) -> Seq<NoteView> {
    notes.filter(|n: NoteView| description_matches(part, n))
}

/// The notes inserted from `from` to `to`, both included, in order.
pub open spec fn notes_in_range(notes: Seq<NoteView>, from: Timestamp, to: Timestamp) -> Seq<NoteView> {
    notes.filter(|n: NoteView| date_matches(from, to, n))
}

impl TodoList {
    /// An empty list.
    pub fn new() -> (r: TodoList)
        ensures
            r@ == Seq::<NoteView>::empty(),
    {
        let r = TodoList { notes: Vec::new() };
        assert(r@ =~= Seq::<NoteView>::empty());
        r
    }

    /// The number of notes.
    pub fn count(&self) -> (r: usize)
        ensures
            r == self@.len(),
    {
        self.notes.len()
    }

    /// Appends a note at the end.
    pub fn add_note(&mut self, note: Note)
        ensures
            final(self)@ == old(self)@.push(note@),
    {
        self.notes.push(note);
        assert(self@ =~= old(self)@.push(note@));
    }

    /// Removes the note at `position`; later notes move down by one.
    pub fn remove_note(&mut self, position: usize) -> (r: Result<(), IndexOutOfRange>)
        ensures
            r is Ok <==> position < old(self)@.len(),
            r is Ok ==> final(self)@ == old(self)@.remove(position as int),
            r is Err ==> final(self)@ == old(self)@
                && r == Err::<(), IndexOutOfRange>(IndexOutOfRange { position, len: old(self)@.len() as usize }),
    {
        if position >= self.notes.len() {
            return Err(IndexOutOfRange { position, len: self.notes.len() });
        }
        self.notes.remove(position);
        assert(self@ =~= old(self)@.remove(position as int));
        Ok(())
    }

    /// The note at `position`, to be changed in place.
    pub fn get_note(&mut self, position: usize) -> (r: Result<&mut Note, IndexOutOfRange>)
        ensures
            r is Ok <==> position < old(self)@.len(),
            match r {
                Ok(n) => n@ == old(self)@[position as int]
                    && final(self)@ == old(self)@.update(position as int, final(n)@),
                Err(e) => final(self)@ == old(self)@
                    && e == IndexOutOfRange { position, len: old(self)@.len() as usize },
            },
    {
        if position >= self.notes.len() {
            return Err(IndexOutOfRange { position, len: self.notes.len() });
        }
        Ok(&mut self.notes[position])
    }

    /// Copies of all the notes, in order.
    pub fn all(&self) -> (r: Vec<Note>)
        ensures
            views(r@) == self@,
    {
        let mut r: Vec<Note> = Vec::new();
        let mut i: usize = 0;
        while i < self.notes.len()
            invariant
                i <= self.notes@.len(),
                views(r@) == self@.take(i as int),
            decreases self.notes@.len() - i,
        {
            push_copy(&mut r, &self.notes[i]);
            assert(views(r@) =~= self@.take(i + 1));
            i += 1;
        }
        assert(self@.take(i as int) =~= self@);
        r
    }

    /// Copies of the notes that have `tag`, in order.
    pub fn search_by_tag(&self, tag: String) -> (r: Vec<Note>)
        ensures
            views(r@) == notes_with_tag(self@, tag@),
    {
        let ghost pred: spec_fn(NoteView) -> bool = |n: NoteView| tag_matches(tag@, n);
        let mut r: Vec<Note> = Vec::new();
        let mut i: usize = 0;
        while i < self.notes.len()
            invariant
                pred == (|n: NoteView| tag_matches(tag@, n)),
                i <= self.notes@.len(),
                views(r@) == self@.take(i as int).filter(pred),
            decreases self.notes@.len() - i,
        {
            proof {
                lemma_filter_step(self@, i as int, pred);
                assert(self@[i as int] == self.notes@[i as int]@);
            }
            let keep: bool = self.notes[i].has_tag(&tag);
            if keep {
                push_copy(&mut r, &self.notes[i]);
            }
            i += 1;
        }
        assert(self@.take(i as int) =~= self@);
        r
    }

    /// Copies of the notes whose description contains `description`, in order.
    /// The search is case-sensitive, and an empty `description` finds every note.
    pub fn search_by_description(&self, description: String) -> (r: Vec<Note>)
        ensures
            views(r@) == notes_with_description(self@, description@),
    {
        let ghost pred: spec_fn(NoteView) -> bool = |n: NoteView| description_matches(description@, n);
        let mut r: Vec<Note> = Vec::new();
        let mut i: usize = 0;
        while i < self.notes.len()
            invariant
                pred == (|n: NoteView| description_matches(description@, n)),
                i <= self.notes@.len(),
                views(r@) == self@.take(i as int).filter(pred),
            decreases self.notes@.len() - i,
        {
            proof {
                lemma_filter_step(self@, i as int, pred);
                assert(self@[i as int] == self.notes@[i as int]@);
            }
            let keep: bool = contains_str(self.notes[i].description.as_str(), description.as_str());
            if keep {
                push_copy(&mut r, &self.notes[i]);
            }
            i += 1;
        }
        assert(self@.take(i as int) =~= self@);
        r
    }

    /// Copies of the notes inserted from `from` to `to`, both included, in order.
    pub fn search_by_date(&self, from: Timestamp, to: Timestamp) -> (r: Vec<Note>)
        ensures
            views(r@) == notes_in_range(self@, from, to),
    {
        let ghost pred: spec_fn(NoteView) -> bool = |n: NoteView| date_matches(from, to, n);
        let mut r: Vec<Note> = Vec::new();
        let mut i: usize = 0;
        while i < self.notes.len()
            invariant
                pred == (|n: NoteView| date_matches(from, to, n)),
                i <= self.notes@.len(),
                views(r@) == self@.take(i as int).filter(pred),
            decreases self.notes@.len() - i,
        {
            proof {
                lemma_filter_step(self@, i as int, pred);
                assert(self@[i as int] == self.notes@[i as int]@);
            }
            let inserted_at = self.notes[i].inserted_at;
            let keep: bool = from.not_after(&inserted_at) && inserted_at.not_after(&to);
            if keep {
                push_copy(&mut r, &self.notes[i]);
            }
            i += 1;
        }
        assert(self@.take(i as int) =~= self@);
        r
    }
}

/// A search by tag keeps exactly the notes that have the tag: each note it
/// returns has it, and each note that has it is returned.
pub proof fn lemma_search_by_tag_exact(notes: Seq<NoteView>, tag: Seq<char>)
    ensures
        forall|i: int| 0 <= i < notes_with_tag(notes, tag).len()
            ==> (#[trigger] notes_with_tag(notes, tag)[i]).has_tag(tag),
        forall|i: int| 0 <= i < notes.len() && (#[trigger] notes[i]).has_tag(tag)
            ==> notes_with_tag(notes, tag).contains(notes[i]),
{
    broadcast use vstd::seq_lib::group_filter_ensures;
}

/// A search by description keeps exactly the notes whose description contains
/// the text searched for.
pub proof fn lemma_search_by_description_exact(notes: Seq<NoteView>, part: Seq<char>)
    ensures
        forall|i: int| 0 <= i < notes_with_description(notes, part).len()
            ==> is_substring(part, (#[trigger] notes_with_description(notes, part)[i]).description),
        forall|i: int| 0 <= i < notes.len() && is_substring(part, (#[trigger] notes[i]).description)
            ==> notes_with_description(notes, part).contains(notes[i]),
{
    broadcast use vstd::seq_lib::group_filter_ensures;
}

/// The empty text is found in every description, so searching for it returns
/// every note.
pub proof fn lemma_empty_description_finds_all(notes: Seq<NoteView>)
    ensures
        notes_with_description(notes, Seq::empty()) == notes,
    decreases notes.len(),
{
    if notes.len() > 0 {
        let d = notes.last().description;
        lemma_empty_description_finds_all(notes.drop_last());
        assert(d.subrange(0, 0 + Seq::<char>::empty().len() as int) =~= Seq::<char>::empty());
        assert(description_matches(Seq::empty(), notes.last()));
        reveal(Seq::filter);
        assert(notes_with_description(notes, Seq::empty())
            == notes_with_description(notes.drop_last(), Seq::empty()).push(notes.last()));
        assert(notes.drop_last().push(notes.last()) =~= notes);
    } else {
        reveal(Seq::filter);
    }
}

/// A search by date includes both ends of the range, and leaves out any note
/// inserted before its start or after its end.
pub proof fn lemma_date_range_inclusive(from: Timestamp, to: Timestamp, n: NoteView)
    requires
        from.is_not_after(to),
    ensures
        n.inserted_at == from ==> date_matches(from, to, n),
        n.inserted_at == to ==> date_matches(from, to, n),
        !from.is_not_after(n.inserted_at) ==> !date_matches(from, to, n),
        !n.inserted_at.is_not_after(to) ==> !date_matches(from, to, n),
{
}

/// Removing the note at `p` leaves one note fewer: those before `p` stay where
/// they were, and those after it move down by one.
pub proof fn lemma_remove_shifts(notes: Seq<NoteView>, p: int)
    requires
        0 <= p < notes.len(),
    ensures
        notes.remove(p).len() == notes.len() - 1,
        forall|i: int| 0 <= i < p ==> #[trigger] notes.remove(p)[i] == notes[i],
        forall|i: int| p <= i < notes.len() - 1 ==> #[trigger] notes.remove(p)[i] == notes[i + 1],
{
}

/// Appends a copy of `n` to `r`.
fn push_copy(r: &mut Vec<Note>, n: &Note)
    ensures
        views(final(r)@) == views(old(r)@).push(n@),
{
    let c = n.clone();
    r.push(c);
    assert(views(r@) =~= views(old(r)@).push(n@));
}

/// Filtering one more element of `s` adds it at the end if it passes.
proof fn lemma_filter_step(s: Seq<NoteView>, i: int, pred: spec_fn(NoteView) -> bool)
    requires
        0 <= i < s.len(),
    ensures
        s.take(i + 1).filter(pred) == (if pred(s[i]) {
            s.take(i).filter(pred).push(s[i])
        } else {
            s.take(i).filter(pred)
        }),
{
    reveal(Seq::filter);
    assert(s.take(i + 1).drop_last() =~= s.take(i));
    assert(s.take(i + 1).last() == s[i]);
}

/// Relies on std's `str::contains` with a `&str` pattern: whether `part` occurs
/// in `text` as a run of consecutive characters.
#[verifier::external_body]
fn contains_str(text: &str, part: &str) -> (r: bool)
    ensures
        r == is_substring(part@, text@),
{
    text.contains(part)
}

} // verus!

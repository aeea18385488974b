//! Notes with checklists and tags, kept in an ordered collection that can be
//! searched by tag, by description and by insertion time.
pub mod checklist_element;
pub mod command;
pub mod common;
pub mod note;
pub mod timestamp;
pub mod todo_list;

pub use checklist_element::ChecklistElement;
pub use command::{position_from_display, Command, ListFilter};
pub use common::{IndexOutOfRange, Status, Togglable};
pub use note::{Note, NoteView};
pub use timestamp::Timestamp;
pub use todo_list::TodoList;

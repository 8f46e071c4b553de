//! The set of open files: each with its document, its cached layout and
//! its saved scroll position, and the index of the file that is shown.

use crate::ir::{opt_view, Document};
use crate::layout::types::{clamp, max_scroll, Viewport};
use crate::layout::LayoutTree;
use crate::parser::events::markdown_events;
use crate::parser::markdown::build_document;
use crate::parser::parse_markdown;
use std::path::PathBuf;
use vstd::prelude::*;
use vstd::string::*;

verus! {

broadcast use vstd::string::group_string_axioms;

/// A file system path of the standard library.
#[verifier::external_type_specification]
#[verifier::external_body]
pub struct ExPathBuf(PathBuf);

/// The final component of a path as `Path::file_name` tells it, as text:
/// `None` where the path has none (it is empty, a root, or ends in `..`) or
/// where that component is not valid Unicode.
pub uninterp spec fn path_file_name(path: PathBuf) -> Option<Seq<char>>;

/// The final component of `path` (`Path::file_name`) as a string, if the
/// path has one and it is valid Unicode (`OsStr::to_str`). It depends on
/// the path alone.
#[verifier::external_body]
fn file_name_of(path: &PathBuf) -> (name: Option<String>)
    ensures
        opt_view(name) == path_file_name(*path),
{
    path.file_name().and_then(|name| name.to_str()).map(|name| name.to_string())
}

/// A copy of `path` (`PathBuf::clone`).
#[verifier::external_body]
fn clone_path(path: &PathBuf) -> (r: PathBuf)
    ensures
        r == *path,
{
    path.clone()
}

/// Name that a file is shown under: the name found in its path, or
/// `untitled`.
pub open spec fn shown_name(found: Option<Seq<char>>) -> Seq<char> {
    match found {
        Some(n) => n,
        None => "untitled"@,
    }
}

/// Name that a file is shown under: the name found in its path, or
/// `untitled`.
pub fn display_name(found: Option<String>) -> (name: String)
    ensures
        name@ == shown_name(opt_view(found)),
{
    match found {
        Some(n) => n,
        None => "untitled".to_string(),
    }
}

/// A single open file with its state.
pub struct OpenFile {
    /// Path to the file.
    pub path: PathBuf,
    /// Display name (filename only).
    pub name: String,
    /// Parsed document.
    pub document: Document,
    /// Current layout tree (cached).
    pub layout: Option<LayoutTree>,
    /// Current scroll position.
    pub scroll_position: u16,
}

impl OpenFile {
    /// An open file without cached layout, scrolled to the top. Its name is
    /// the final component of the path, or `untitled` where the path has
    /// none.
    pub fn new(path: PathBuf, document: Document) -> (f: OpenFile)
        ensures
            f.path == path,
            f.name@ == shown_name(path_file_name(path)),
            f.document == document,
            f.layout is None,
            f.scroll_position == 0,
    {
        let name = display_name(file_name_of(&path));
        OpenFile { path, name, document, layout: None, scroll_position: 0 }
    }
}

impl Clone for OpenFile {
    fn clone(&self) -> (f: OpenFile)
        ensures
            f.path == self.path,
            f.name@ == self.name@,
            f.document@ == self.document@,
            f.scroll_position == self.scroll_position,
            f.layout is Some == self.layout is Some,
            f.layout matches Some(tree) ==> tree@ == self.layout->0@,
    {
        OpenFile {
            path: clone_path(&self.path),
            name: self.name.clone(),
            document: self.document.clone(),
            layout: match &self.layout {
                Some(tree) => Some(tree.clone()),
                None => None,
            },
            scroll_position: self.scroll_position,
        }
    }
}

/// Manages multiple open files.
pub struct FileManager {
    /// List of open files.
    pub files: Vec<OpenFile>,
    /// Index of currently active file.
    pub current_index: usize,
}

impl Default for FileManager {
    fn default() -> (m: FileManager)
        ensures
            m.files@.len() == 0,
            m.current_index == 0,
    {
        FileManager::new()
    }
}

impl FileManager {
    /// Whether the index of the active file is that of an open file, or 0
    /// where none is open.
    pub open spec fn wf(&self) -> bool {
        if self.files@.len() == 0 {
            self.current_index == 0
        } else {
            self.current_index < self.files@.len()
        }
    }

    /// Create a new empty file manager.
    pub fn new() -> (m: FileManager)
        ensures
            m.files@.len() == 0,
            m.current_index == 0,
            m.wf(),
    {
        FileManager { files: Vec::new(), current_index: 0 }
    }

    /// Add a new file to the end of the file list. This does not change the
    /// currently selected file.
    pub fn add_file(&mut self, path: PathBuf, document: Document)
        ensures
            final(self).files@.len() == old(self).files@.len() + 1,
            final(self).files@.drop_last() == old(self).files@,
            final(self).files@.last().path == path,
            final(self).files@.last().name@ == shown_name(path_file_name(path)),
            final(self).files@.last().document == document,
            final(self).files@.last().layout is None,
            final(self).files@.last().scroll_position == 0,
            final(self).current_index == old(self).current_index,
            old(self).wf() ==> final(self).wf(),
    {
        self.files.push(OpenFile::new(path, document));
    }

    /// Get a reference to the currently active file; `None` if no files
    /// are open.
    pub fn current_file(&self) -> (f: Option<&OpenFile>)
        ensures
            f == if self.current_index < self.files@.len() {
                Some(&self.files@[self.current_index as int])
            } else {
                None
            },
    {
        if self.current_index < self.files.len() {
            Some(&self.files[self.current_index])
        } else {
            None
        }
    }

    /// Get a mutable reference to the currently active file; `None` if no
    /// files are open.
    pub fn current_file_mut(&mut self) -> (f: Option<&mut OpenFile>)
        ensures
            f is Some <==> old(self).current_index < old(self).files@.len(),
            final(self).current_index == old(self).current_index,
            f matches Some(file) ==> *file == old(self).files@[old(self).current_index as int]
                && final(self).files@ == old(self).files@.update(
                old(self).current_index as int,
                *final(file),
            ),
            f is None ==> final(self).files == old(self).files,
    {
        if self.current_index < self.files.len() {
            Some(&mut self.files[self.current_index])
        } else {
            None
        }
    }

    /// Switch to the next file in the list (cycles to first after last).
    pub fn next_file(&mut self)
        ensures
            final(self).files == old(self).files,
            old(self).files@.len() == 0 ==> final(self).current_index == old(self).current_index,
            old(self).files@.len() > 0 ==> final(self).current_index == (old(self).current_index
                + 1) % (old(self).files@.len() as int),
            old(self).files@.len() > 0 ==> final(self).wf(),
            old(self).wf() ==> final(self).wf(),
    {
        let count = self.files.len();
        if count > 0 {
            let current = self.current_index;
            let here = current % count;
            proof {
                let q = current as int / count as int;
                vstd::arithmetic::div_mod::lemma_fundamental_div_mod(current as int, count as int);
                if here + 1 == count {
                    assert(current + 1 == (q + 1) * count + 0) by (nonlinear_arith)
                        requires
                            current == count * q + here,
                            here + 1 == count,
                    ;
                    vstd::arithmetic::div_mod::lemma_fundamental_div_mod_converse(
                        current + 1,
                        count as int,
                        q + 1,
                        0,
                    );
                } else {
                    assert(current + 1 == q * count + (here + 1)) by (nonlinear_arith)
                        requires
                            current == count * q + here,
                    ;
                    vstd::arithmetic::div_mod::lemma_fundamental_div_mod_converse(
                        current + 1,
                        count as int,
                        q,
                        here + 1,
                    );
                }
            }
            self.current_index = if here + 1 == count {
                0
            } else {
                here + 1
            };
        }
    }

    /// Switch to the previous file in the list (cycles to last from first).
    pub fn prev_file(&mut self)
        ensures
            final(self).files == old(self).files,
            old(self).files@.len() == 0 ==> final(self).current_index == old(self).current_index,
            old(self).files@.len() > 0 ==> final(self).current_index == if old(self).current_index
                == 0 {
                old(self).files@.len() - 1
            } else {
                old(self).current_index - 1
            },
            old(self).wf() ==> final(self).wf(),
    {
        if self.files.len() > 0 {
            self.current_index = if self.current_index == 0 {
                self.files.len() - 1
            } else {
                self.current_index - 1
            };
        }
    }

    /// Switch to specific file by index (0-based); an index out of range
    /// is ignored.
    pub fn switch_to(&mut self, index: usize)
        ensures
            final(self).files == old(self).files,
            final(self).current_index == if index < old(self).files@.len() {
                index
            } else {
                old(self).current_index
            },
            old(self).wf() ==> final(self).wf(),
    {
        if index < self.files.len() {
            self.current_index = index;
        }
    }

    /// Get number of open files.
    pub fn file_count(&self) -> (n: usize)
        ensures
            n == self.files@.len(),
    {
        self.files.len()
    }

    /// Check if multiple files are open.
    pub fn has_multiple_files(&self) -> (b: bool)
        ensures
            b == (self.files@.len() > 1),
    {
        self.files.len() > 1
    }

    /// Gives the active file the document of the Markdown text `markdown`
    /// and drops its cached layout. Without an active file nothing changes.
    pub fn reload_current(&mut self, markdown: &str)
        ensures
            final(self).current_index == old(self).current_index,
            final(self).files@.len() == old(self).files@.len(),
            forall|i: int|
                0 <= i < old(self).files@.len() && i != old(self).current_index
                    ==> final(self).files@[i] == old(self).files@[i],
            old(self).current_index < old(self).files@.len() ==> {
                let before = old(self).files@[old(self).current_index as int];
                let after = final(self).files@[old(self).current_index as int];
                &&& after.document@ == build_document(markdown_events(markdown@))
                &&& after.layout is None
                &&& after.path == before.path
                &&& after.name == before.name
                &&& after.scroll_position == before.scroll_position
            },
    {
        if self.current_index < self.files.len() {
            let at = self.current_index;
            let old_file = self.files.remove(at);
            let OpenFile { path, name, document: _, layout: _, scroll_position } = old_file;
            let file = OpenFile {
                path,
                name,
                document: parse_markdown(markdown),
                layout: None,
                scroll_position,
            };
            self.files.insert(at, file);
        }
    }

    /// Save scroll position for current file. Without an active file
    /// nothing changes.
    pub fn save_scroll_position(&mut self, scroll_y: u16)
        ensures
            final(self).current_index == old(self).current_index,
            final(self).files@.len() == old(self).files@.len(),
            forall|i: int|
                0 <= i < old(self).files@.len() && i != old(self).current_index
                    ==> final(self).files@[i] == old(self).files@[i],
            old(self).current_index < old(self).files@.len() ==> {
                let at = old(self).current_index as int;
                final(self).files@[at] == (OpenFile {
                    scroll_position: scroll_y,
                    ..old(self).files@[at]
                })
            },
    {
        if self.current_index < self.files.len() {
            let at = self.current_index;
            let mut file = self.files.remove(at);
            file.scroll_position = scroll_y;
            self.files.insert(at, file);
        }
    }

    /// Scrolls `viewport` to where the active file was left: to its saved
    /// scroll position, not past the end of its cached layout where it has
    /// one. Without an active file the viewport stays.
    pub fn restore_scroll(&self, viewport: &mut Viewport)
        ensures
            *final(viewport) == (Viewport { scroll_y: final(viewport).scroll_y, ..*old(viewport) }),
            final(viewport).scroll_y == if self.current_index < self.files@.len() {
                let file = self.files@[self.current_index as int];
                match file.layout {
                    Some(tree) => clamp(
                        file.scroll_position as int,
                        0,
                        max_scroll(tree.root.rect.height, old(viewport).height),
                    ) as u16,
                    None => file.scroll_position,
                }
            } else {
                old(viewport).scroll_y
            },
    {
        if self.current_index < self.files.len() {
            let file = &self.files[self.current_index];
            match &file.layout {
                Some(tree) => viewport.scroll_to_clamped(file.scroll_position, tree.document_height()),
                None => viewport.scroll_to(file.scroll_position),
            }
        }
    }

    /// Get saved scroll position for current file; 0 without one.
    pub fn get_scroll_position(&self) -> (y: u16)
        ensures
            y == if self.current_index < self.files@.len() {
                self.files@[self.current_index as int].scroll_position
            } else {
                0
            },
    {
        if self.current_index < self.files.len() {
            self.files[self.current_index].scroll_position
        } else {
            0
        }
    }
}

} // verus!

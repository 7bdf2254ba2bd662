//! The walk through an NTFS volume's directories, one path component at a
//! time, and the naming of what is extracted at its end.
//!
//! The navigator decides; its caller reads the volume. For each component
//! the caller asks `plan_cd`; on `CdStep::Lookup` it looks the component up
//! in the directory index of `current` and hands the result to `enter`.
use crate::error::GcookieError;
use vstd::prelude::*;

verus! {

/// The namespace of one of a file's names.
#[derive(Debug, Clone, Copy, PartialEq, Eq, Structural)]
pub enum FileNamespace {
    Posix,
    Win32,
    Dos,
    Win32AndDos,
}

/// One name of a file, as its `$FILE_NAME` attribute records it.
#[derive(Debug, Clone)]
pub struct FileNameEntry {
    pub namespace: FileNamespace,
    /// File record number of the directory the name lives in.
    pub parent: u64,
    pub name: String,
}

/// Whether a name is in the namespace asked for (any, for `None`) and in
/// the given parent directory.
pub open spec fn name_matches(e: FileNameEntry, namespace: Option<FileNamespace>, parent: u64) -> bool {
    &&& e.parent == parent
    &&& (namespace matches Some(ns) ==> e.namespace == ns)
}

/// Whether some name matches.
pub open spec fn has_match(names: Seq<FileNameEntry>, namespace: Option<FileNamespace>, parent: u64) -> bool {
    exists|i: int| 0 <= i < names.len() && name_matches(names[i], namespace, parent)
}

/// Whether `i` is the first name that matches.
pub open spec fn first_match(names: Seq<FileNameEntry>, namespace: Option<FileNamespace>, parent: u64, i: int) -> bool {
    &&& 0 <= i < names.len()
    &&& name_matches(names[i], namespace, parent)
    &&& forall|j: int| 0 <= j < i ==> !name_matches(names[j], namespace, parent)
}

/// The first name that matches, if any.
fn find_name(names: &Vec<FileNameEntry>, namespace: Option<FileNamespace>, parent: u64) -> (r: Option<usize>)
    ensures
        r matches Some(i) ==> first_match(names@, namespace, parent, i as int),
        r is None ==> !has_match(names@, namespace, parent),
{
    let mut i: usize = 0;
    while i < names.len()
        invariant
            i <= names@.len(),
            forall|j: int| 0 <= j < i ==> !name_matches(names@[j], namespace, parent),
        decreases names@.len() - i,
    {
        let e = &names[i];
        let ns_ok = match namespace {
            Some(ns) => e.namespace == ns,
            None => true,
        };
        if e.parent == parent && ns_ok {
            return Some(i);
        }
        i = i + 1;
    }
    None
}

/// Whether `i` is the name to show for a file: its first long (Win32) name
/// in the parent directory; failing that, its first Win32AndDos name there;
/// failing that, its first name there in any namespace.
pub open spec fn is_best_name(names: Seq<FileNameEntry>, parent: u64, i: int) -> bool {
    if has_match(names, Some(FileNamespace::Win32), parent) {
        first_match(names, Some(FileNamespace::Win32), parent, i)
    } else if has_match(names, Some(FileNamespace::Win32AndDos), parent) {
        first_match(names, Some(FileNamespace::Win32AndDos), parent, i)
    } else {
        first_match(names, None, parent, i)
    }
}

/// Picks the name to show for a file among its names, by namespace
/// priority; there is none when no name lives in the parent directory.
pub fn best_file_name(names: &Vec<FileNameEntry>, parent: u64) -> (r: Option<usize>)
    ensures
        r is None <==> !has_match(names@, None, parent),
        r matches Some(i) ==> is_best_name(names@, parent, i as int),
{
    match find_name(names, Some(FileNamespace::Win32), parent) {
        Some(i) => Some(i),
        None => match find_name(names, Some(FileNamespace::Win32AndDos), parent) {
            Some(i) => Some(i),
            None => {
                let r = find_name(names, None, parent);
                proof {
                    if r is None && has_match(names@, Some(FileNamespace::Win32), parent) {
                        let i = choose|i: int| 0 <= i < names@.len() && name_matches(names@[i], Some(FileNamespace::Win32), parent);
                        assert(name_matches(names@[i], None, parent));
                    }
                }
                r
            },
        },
    }
}

/// What a directory index lookup found.
pub enum Lookup {
    /// No entry of that name.
    Missing,
    /// An entry: its file record, whether it is a directory, and its names.
    Found { record: u64, is_directory: bool, names: Vec<FileNameEntry> },
}

/// What one `cd` did.
#[derive(Debug, Clone, Copy, PartialEq, Eq, Structural)]
pub enum CdOutcome {
    /// Entered the directory.
    Resolved,
    /// Nothing to do (an empty component, or `..` at the root).
    Unchanged,
    /// Went up one level.
    WentUp,
    /// No entry of that name.
    NotFound,
    /// The entry is not a directory.
    NotADirectory,
    /// The entry has no name in the current directory.
    Unnamed,
}

impl CdOutcome {
    /// Whether the walk can go on after this step.
    pub open spec fn is_ok(self) -> bool {
        self == CdOutcome::Resolved || self == CdOutcome::Unchanged || self == CdOutcome::WentUp
    }

    /// The walk goes on after a step that moved or did nothing, and fails
    /// with `PathResolutionFailed` after one that found no directory.
    pub fn into_result(self) -> (r: Result<(), GcookieError>)
        ensures
            self.is_ok() ==> r is Ok,
            !self.is_ok() ==> r == Err::<(), GcookieError>(GcookieError::PathResolutionFailed),
    {
        match self {
            CdOutcome::Resolved | CdOutcome::Unchanged | CdOutcome::WentUp => Ok(()),
            _ => Err(GcookieError::PathResolutionFailed),
        }
    }
}

/// What the caller must do for one path component.
#[derive(Debug, Clone, Copy, PartialEq, Eq, Structural)]
pub enum CdStep {
    /// Nothing (an empty component).
    Stay,
    /// Go up one level: call `up`.
    Up,
    /// Look the component up in `current` and call `enter`.
    Lookup,
}

/// Whether a component is `..`.
pub open spec fn is_parent_ref(arg: Seq<char>) -> bool {
    arg == seq!['.', '.']
}

/// The printable path of a stack of directory names, joined by backslashes.
pub open spec fn joined_path(names: Seq<Seq<char>>) -> Seq<char>
    decreases names.len(),
{
    if names.len() == 0 {
        Seq::empty()
    } else if names.len() == 1 {
        names[0]
    } else {
        joined_path(names.drop_last()) + seq!['\\'] + names.last()
    }
}

/// The stack of directories from the root to the current one.
pub struct Navigator {
    records: Vec<u64>,
    names: Vec<String>,
}

impl Navigator {
    /// File record numbers from the root (first) to the current directory.
    pub closed spec fn record_stack(&self) -> Seq<u64> {
        self.records@
    }

    /// Display names of the directories below the root, in order.
    pub closed spec fn name_stack(&self) -> Seq<Seq<char>> {
        self.names@.map_values(|s: String| s@)
    }

    /// The stack is never empty, and has one name per level below the root.
    pub open spec fn wf(&self) -> bool {
        &&& self.record_stack().len() >= 1
        &&& self.record_stack().len() == self.name_stack().len() + 1
    }

    /// A navigator at the root directory.
    pub fn new(root: u64) -> (r: Navigator)
        ensures
            r.wf(),
            r.record_stack() == seq![root],
            r.name_stack() == Seq::<Seq<char>>::empty(),
    {
        let mut records: Vec<u64> = Vec::new();
        records.push(root);
        let names: Vec<String> = Vec::new();
        let r = Navigator { records, names };
        assert(r.name_stack() =~= Seq::<Seq<char>>::empty());
        r
    }

    /// The file record number of the current directory.
    pub fn current(&self) -> (r: u64)
        requires
            self.wf(),
        ensures
            r == self.record_stack().last(),
    {
        self.records[self.records.len() - 1]
    }

    /// How many levels below the root the current directory is.
    pub fn depth(&self) -> (r: usize)
        requires
            self.wf(),
        ensures
            r == self.name_stack().len(),
    {
        self.names.len()
    }

    /// The current directory's path below the root, for messages.
    pub fn display_path(&self) -> (r: String)
        ensures
            r@ == joined_path(self.name_stack()),
    {
        let mut out = String::new();
        let sep = "\\";
        proof {
            reveal_strlit("\\");
        }
        let mut i: usize = 0;
        while i < self.names.len()
            invariant
                0 <= i <= self.names@.len(),
                out@ == joined_path(self.name_stack().subrange(0, i as int)),
                sep@ == seq!['\\'],
            decreases self.names@.len() - i,
        {
            if i > 0 {
                out.append(sep);
            }
            out.append(self.names[i].as_str());
            proof {
                let s = self.name_stack().subrange(0, i + 1);
                assert(s.drop_last() =~= self.name_stack().subrange(0, i as int));
                assert(s.last() == self.names@[i as int]@);
                if i == 0 {
                    assert(out@ =~= s[0]);
                } else {
                    assert(out@ =~= joined_path(s.drop_last()) + seq!['\\'] + s.last());
                }
            }
            i = i + 1;
        }
        assert(self.name_stack().subrange(0, self.names@.len() as int) =~= self.name_stack());
        out
    }

    /// What a path component asks for: nothing when it is empty, going up
    /// for `..`, a lookup otherwise.
    pub fn plan_cd(&self, arg: &str) -> (r: CdStep)
        ensures
            arg@.len() == 0 ==> r == CdStep::Stay,
            is_parent_ref(arg@) ==> r == CdStep::Up,
            arg@.len() > 0 && !is_parent_ref(arg@) ==> r == CdStep::Lookup,
    {
        let n = arg.unicode_len();
        if n == 0 {
            CdStep::Stay
        } else if n == 2 && arg.get_char(0) == '.' && arg.get_char(1) == '.' {
            assert(arg@ =~= seq!['.', '.']);
            CdStep::Up
        } else {
            CdStep::Lookup
        }
    }

    /// Goes up one level; at the root, stays there.
    pub fn up(&mut self) -> (r: CdOutcome)
        requires
            old(self).wf(),
        ensures
            final(self).wf(),
            old(self).record_stack().len() == 1 ==> final(self).record_stack() == old(self).record_stack()
                && final(self).name_stack() == old(self).name_stack() && r == CdOutcome::Unchanged,
            old(self).record_stack().len() > 1 ==> final(self).record_stack() == old(self).record_stack().drop_last()
                && final(self).name_stack() == old(self).name_stack().drop_last() && r == CdOutcome::WentUp,
    {
        if self.names.len() == 0 {
            return CdOutcome::Unchanged;
        }
        self.records.pop();
        self.names.pop();
        assert(self.name_stack() =~= old(self).name_stack().drop_last());
        CdOutcome::WentUp
    }

    /// Enters the directory that a lookup found. A missing entry, an entry
    /// that is not a directory, or one with no name in the current
    /// directory leaves the navigator where it is.
    pub fn enter(&mut self, found: Lookup) -> (r: CdOutcome)
        requires
            old(self).wf(),
        ensures
            final(self).wf(),
            match found {
                Lookup::Missing => r == CdOutcome::NotFound,
                Lookup::Found { record, is_directory, names } => if !is_directory {
                    r == CdOutcome::NotADirectory
                } else if !has_match(names@, None, old(self).record_stack().last()) {
                    r == CdOutcome::Unnamed
                } else {
                    &&& r == CdOutcome::Resolved
                    &&& final(self).record_stack() == old(self).record_stack().push(record)
                    &&& exists|i: int|
                        is_best_name(names@, old(self).record_stack().last(), i)
                            && final(self).name_stack() == old(self).name_stack().push(names@[i].name@)
                },
            },
            r != CdOutcome::Resolved ==> final(self).record_stack() == old(self).record_stack()
                && final(self).name_stack() == old(self).name_stack(),
    {
        match found {
            Lookup::Missing => CdOutcome::NotFound,
            Lookup::Found { record, is_directory, names } => {
                if !is_directory {
                    return CdOutcome::NotADirectory;
                }
                let parent = self.current();
                match best_file_name(&names, parent) {
                    None => CdOutcome::Unnamed,
                    Some(i) => {
                        let name = names[i].name.clone();
                        self.records.push(record);
                        self.names.push(name);
                        assert(self.name_stack() =~= old(self).name_stack().push(names@[i as int].name@));
                        CdOutcome::Resolved
                    },
                }
            },
        }
    }
}

} // verus!

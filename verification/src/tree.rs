use vstd::prelude::*;
use vstd::string::StrSliceExecFns;

verus! {

/// One entry of a directory tree, held as plain values.
///
/// Paths are relative to the root of the tree being packaged (the root itself
/// is the empty prefix and is not an entry). A directory and a regular file
/// carry their permission bits; a symbolic link carries its target verbatim.
#[derive(Clone, Debug, PartialEq, Eq)]
pub enum TreeEntry {
    /// A directory at `path` with permission bits `mode`.
    Dir { path: String, mode: u32 },
    /// A regular file at `path` with permission bits `mode` and contents `data`.
    File { path: String, mode: u32, data: Vec<u8> },
    /// A symbolic link at `path` pointing at `target`.
    Symlink { path: String, target: String },
}

/// The mathematical model of one tree entry: the same three kinds, over
/// sequences instead of heap-allocated values.
pub enum EntryModel {
    Dir { path: Seq<char>, mode: u32 },
    File { path: Seq<char>, mode: u32, data: Seq<u8> },
    Symlink { path: Seq<char>, target: Seq<char> },
}

impl View for TreeEntry {
    type V = EntryModel;

    open spec fn view(&self) -> EntryModel {
        match self {
            TreeEntry::Dir { path, mode } => EntryModel::Dir { path: path@, mode: *mode },
            TreeEntry::File { path, mode, data } => EntryModel::File {
                path: path@,
                mode: *mode,
                data: data@,
            },
            TreeEntry::Symlink { path, target } => EntryModel::Symlink {
                path: path@,
                target: target@,
            },
        }
    }
}

/// The model of a whole tree: its entries, in order.
pub open spec fn tree_model(entries: Seq<TreeEntry>) -> Seq<EntryModel> {
    entries.map_values(|e: TreeEntry| e@)
}

/// Whether position `i` of `s` starts a `.` component.
pub open spec fn dot_component_at(s: Seq<char>, i: int) -> bool {
    &&& 0 <= i < s.len()
    &&& (i == 0 || s[i - 1] == '/')
    &&& s[i] == '.'
    &&& (i + 1 == s.len() || s[i + 1] == '/')
}

/// Whether position `i` of `s` starts a `..` component.
pub open spec fn dotdot_component_at(s: Seq<char>, i: int) -> bool {
    &&& 0 <= i && i + 1 < s.len()
    &&& (i == 0 || s[i - 1] == '/')
    &&& s[i] == '.'
    &&& s[i + 1] == '.'
    &&& (i + 2 == s.len() || s[i + 2] == '/')
}

/// A clean relative path, which the serializer records verbatim: non-empty,
/// free of NUL characters, no leading or trailing separator, and no empty,
/// `.` or `..` component. Anything else the serializer would refuse or,
/// worse, silently rewrite.
pub open spec fn clean_path(s: Seq<char>) -> bool {
    &&& s.len() > 0
    &&& s[0] != '/'
    &&& s[s.len() - 1] != '/'
    &&& forall|i: int|
        #![trigger s[i]]
        0 <= i < s.len() ==> s[i] != '\0' && !(0 < i && s[i - 1] == '/' && s[i] == '/')
            && !dot_component_at(s, i) && !dotdot_component_at(s, i)
}

/// A clean link target, which the serializer records verbatim: non-empty,
/// free of NUL characters, no trailing separator, and no empty or `.`
/// component. A target may be absolute and may climb with `..`.
pub open spec fn clean_target(s: Seq<char>) -> bool {
    &&& s.len() > 0
    &&& s[s.len() - 1] != '/'
    &&& forall|i: int|
        #![trigger s[i]]
        0 <= i < s.len() ==> s[i] != '\0' && !(0 < i && s[i - 1] == '/' && s[i] == '/')
            && !dot_component_at(s, i)
}

/// Whether the serializer can record this entry verbatim: clean names, and
/// permission bits that fit the archive's twelve-bit mode field.
pub open spec fn entry_encodable(m: EntryModel) -> bool {
    match m {
        EntryModel::Dir { path, mode } => clean_path(path) && mode <= 0o7777,
        EntryModel::File { path, mode, .. } => clean_path(path) && mode <= 0o7777,
        EntryModel::Symlink { path, target } => clean_path(path) && clean_target(target),
    }
}

/// Whether the serializer can record every entry of this tree verbatim.
pub open spec fn tree_encodable(t: Seq<EntryModel>) -> bool {
    forall|j: int| 0 <= j < t.len() ==> entry_encodable(#[trigger] t[j])
}

/// Decide [`clean_path`] for a path held as a string.
pub fn clean_path_check(s: &str) -> (r: bool)
    ensures
        r == clean_path(s@),
{
    let n = s.unicode_len();
    if n == 0 {
        return false;
    }
    if s.get_char(0) == '/' || s.get_char(n - 1) == '/' {
        return false;
    }
    let mut i: usize = 0;
    while i < n
        invariant
            n == s@.len(),
            0 < n,
            i <= n,
            s@[0] != '/',
            s@[n - 1] != '/',
            forall|j: int|
                #![trigger s@[j]]
                0 <= j < i ==> s@[j] != '\0' && !(0 < j && s@[j - 1] == '/' && s@[j] == '/')
                    && !dot_component_at(s@, j) && !dotdot_component_at(s@, j),
        decreases n - i,
    {
        let c = s.get_char(i);
        if c == '\0' {
            return false;
        }
        if c == '/' && s.get_char(i - 1) == '/' {
            return false;
        }
        if c == '.' && (i == 0 || s.get_char(i - 1) == '/') {
            if i + 1 == n || s.get_char(i + 1) == '/' {
                proof {
                    assert(dot_component_at(s@, i as int));
                }
                return false;
            }
            if s.get_char(i + 1) == '.' && (i + 2 == n || s.get_char(i + 2) == '/') {
                proof {
                    assert(dotdot_component_at(s@, i as int));
                }
                return false;
            }
        }
        i = i + 1;
    }
    true
}

/// Decide [`clean_target`] for a link target held as a string.
pub fn clean_target_check(s: &str) -> (r: bool)
    ensures
        r == clean_target(s@),
{
    let n = s.unicode_len();
    if n == 0 {
        return false;
    }
    if s.get_char(n - 1) == '/' {
        return false;
    }
    let mut i: usize = 0;
    while i < n
        invariant
            n == s@.len(),
            0 < n,
            i <= n,
            s@[n - 1] != '/',
            forall|j: int|
                #![trigger s@[j]]
                0 <= j < i ==> s@[j] != '\0' && !(0 < j && s@[j - 1] == '/' && s@[j] == '/')
                    && !dot_component_at(s@, j),
        decreases n - i,
    {
        let c = s.get_char(i);
        if c == '\0' {
            return false;
        }
        if c == '/' && i > 0 && s.get_char(i - 1) == '/' {
            return false;
        }
        if c == '.' && (i == 0 || s.get_char(i - 1) == '/') {
            if i + 1 == n || s.get_char(i + 1) == '/' {
                proof {
                    assert(dot_component_at(s@, i as int));
                }
                return false;
            }
        }
        i = i + 1;
    }
    true
}

/// Decide [`tree_encodable`] for a tree held as plain values: whether the
/// serializer records every entry verbatim. Encryption rejects a tree that
/// fails this, and a caller unpacking a decrypted tree onto a filesystem
/// should refuse one too: a path with `..` or an absolute path would land
/// outside the chosen destination.
pub fn tree_encodable_check(entries: &Vec<TreeEntry>) -> (r: bool)
    ensures
        r == tree_encodable(tree_model(entries@)),
{
    let mut i: usize = 0;
    while i < entries.len()
        invariant
            i <= entries.len(),
            forall|j: int| 0 <= j < i ==> entry_encodable(#[trigger] entries@[j]@),
        decreases entries.len() - i,
    {
        let ok = match &entries[i] {
            TreeEntry::Dir { path, mode } => clean_path_check(path.as_str()) && *mode <= 0o7777,
            TreeEntry::File { path, mode, .. } => clean_path_check(path.as_str()) && *mode
                <= 0o7777,
            TreeEntry::Symlink { path, target } => clean_path_check(path.as_str())
                && clean_target_check(target.as_str()),
        };
        if !ok {
            proof {
                assert(!entry_encodable(entries@[i as int]@));
                assert(tree_model(entries@)[i as int] == entries@[i as int]@);
            }
            return false;
        }
        i = i + 1;
    }
    proof {
        assert forall|j: int| 0 <= j < tree_model(entries@).len() implies entry_encodable(
            #[trigger] tree_model(entries@)[j],
        ) by {
            assert(tree_model(entries@)[j] == entries@[j]@);
        }
    }
    true
}

} // verus!

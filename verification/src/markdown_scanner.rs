//! The decisions of a directory scan for markdown files: which directories
//! are skipped and which files are markdown.
use vstd::prelude::*;
use crate::text::{
    ascii_lowercase, chars_of, is_ascii_text, lowercase, str_eq, string_of_range, to_lowercase,
};

verus! {

pub struct MarkdownScanner {}

/// What the scan does with a directory entry.
#[derive(Debug, Clone, Copy, PartialEq, Eq, Structural)]
pub enum EntryAction {
    /// Scan the directory's entries too.
    Descend,
    /// A directory that is not scanned.
    SkipDirectory,
    /// A markdown file: it belongs to the result.
    Collect,
    /// Anything else.
    Ignore,
}

/// Directories that are never scanned.
pub open spec fn skipped_directory(name: Seq<char>) -> bool {
    ||| name == ".git"@
    ||| name == ".svn"@
    ||| name == ".hg"@
    ||| name == "node_modules"@
    ||| name == "target"@
    ||| name == "build"@
    ||| name == "dist"@
    ||| name == ".vscode"@
    ||| name == ".idea"@
    ||| name == ".vs"@
    ||| name == "__pycache__"@
    ||| name == ".pytest_cache"@
    ||| name == "vendor"@
    ||| name == "deps"@
}

/// Index of the last '.' in `s`, or -1.
pub open spec fn last_dot(s: Seq<char>) -> int
    decreases s.len(),
{
    if s.len() == 0 {
        -1
    } else if s.last() == '.' {
        s.len() - 1
    } else {
        last_dot(s.drop_last())
    }
}

/// The extension of a file name (`Path::extension`): the text after its
/// last '.', unless there is no '.', the only '.' begins the name, or the
/// name is "..".
pub open spec fn extension(name: Seq<char>) -> Option<Seq<char>> {
    let d = last_dot(name);
    if d <= 0 || name == ".."@ {
        None
    } else {
        Some(name.subrange(d + 1, name.len() as int))
    }
}

/// A markdown extension, once lowercased.
pub open spec fn is_markdown_extension_spec(lower: Seq<char>) -> bool {
    lower == "md"@ || lower == "markdown"@
}

/// A markdown file name: its extension, lowercased, is "md" or "markdown".
pub open spec fn is_markdown_name(name: Seq<char>) -> bool {
    match extension(name) {
        Some(ext) => is_markdown_extension_spec(lowercase(ext)),
        None => false,
    }
}

/// A markdown extension: lowercased, it is "md" or "markdown" (`None` when
/// the entry has no extension or its extension is not valid Unicode).
pub open spec fn is_markdown_ext(ext: Option<Seq<char>>) -> bool {
    match ext {
        Some(e) => is_markdown_extension_spec(lowercase(e)),
        None => false,
    }
}

/// The action for an entry named `name` with extension `ext` (each `None`
/// when absent or not valid Unicode): a directory is skipped by its name, a
/// file is collected by its extension.
pub open spec fn entry_action(
    name: Option<Seq<char>>,
    ext: Option<Seq<char>>,
    is_dir: bool,
    is_file: bool,
) -> EntryAction {
    if is_dir {
        match name {
            Some(n) => if skipped_directory(n) {
                EntryAction::SkipDirectory
            } else {
                EntryAction::Descend
            },
            None => EntryAction::Descend,
        }
    } else if is_file {
        if is_markdown_ext(ext) {
            EntryAction::Collect
        } else {
            EntryAction::Ignore
        }
    } else {
        EntryAction::Ignore
    }
}

/// The directories that a scan never enters, by name.
pub open spec fn skipped_names() -> Set<Seq<char>> {
    set![
        ".git"@,
        ".svn"@,
        ".hg"@,
        "node_modules"@,
        "target"@,
        "build"@,
        "dist"@,
        ".vscode"@,
        ".idea"@,
        ".vs"@,
        "__pycache__"@,
        ".pytest_cache"@,
        "vendor"@,
        "deps"@,
    ]
}

/// A scan skips a directory exactly when its name is one of the well-known
/// tool and dependency directories; a file is never skipped, and a
/// directory whose name is not valid Unicode is entered.
pub proof fn law_skipped_directories(name: Seq<char>, ext: Option<Seq<char>>, is_file: bool)
    ensures
        entry_action(Some(name), ext, true, is_file) == EntryAction::SkipDirectory <==> skipped_names().contains(name),
        entry_action(Some(name), ext, true, is_file) != EntryAction::SkipDirectory ==> entry_action(
            Some(name),
            ext,
            true,
            is_file,
        ) == EntryAction::Descend,
        entry_action(None, ext, true, is_file) == EntryAction::Descend,
        entry_action(Some(name), ext, false, is_file) != EntryAction::SkipDirectory,
{
    reveal_strlit(".git");
    reveal_strlit(".svn");
    reveal_strlit(".hg");
    reveal_strlit("node_modules");
    reveal_strlit("target");
    reveal_strlit("build");
    reveal_strlit("dist");
    reveal_strlit(".vscode");
    reveal_strlit(".idea");
    reveal_strlit(".vs");
    reveal_strlit("__pycache__");
    reveal_strlit(".pytest_cache");
    reveal_strlit("vendor");
    reveal_strlit("deps");
    assert(skipped_directory(name) <==> skipped_names().contains(name));
}

pub proof fn lemma_last_dot_bounds(s: Seq<char>)
    ensures
        -1 <= last_dot(s) < s.len(),
    decreases s.len(),
{
    if s.len() > 0 && s.last() != '.' {
        lemma_last_dot_bounds(s.drop_last());
    }
}

/// The extension of a file name.
pub fn extension_of(name: &str) -> (r: Option<String>)
    ensures
        match r {
            Some(e) => extension(name@) == Some(e@),
            None => extension(name@) is None,
        },
{
    let cs = chars_of(name);
    let ghost s = cs@;
    proof {
        lemma_last_dot_bounds(s);
    }
    let mut j = cs.len();
    assert(s.take(j as int) =~= s);
    while j > 0 && cs[j - 1] != '.'
        invariant
            j <= cs@.len(),
            s == cs@,
            last_dot(s) == last_dot(s.take(j as int)),
        decreases j,
    {
        assert(s.take(j as int).drop_last() =~= s.take(j - 1));
        j = j - 1;
    }
    if j > 0 {
        assert(s.take(j as int).last() == '.');
    } else {
        assert(s.take(0) =~= Seq::<char>::empty());
    }
    if j <= 1 || str_eq(name, "..") {
        return None;
    }
    Some(string_of_range(cs.as_slice(), j, cs.len()))
}

/// Whether an already lowercased extension is a markdown one.
pub fn is_markdown_extension(lower: &str) -> (r: bool)
    ensures
        r == is_markdown_extension_spec(lower@),
{
    str_eq(lower, "md") || str_eq(lower, "markdown")
}

impl MarkdownScanner {
    pub fn new() -> (r: Self)
        ensures
            r == (MarkdownScanner {}),
    {
        Self {}
    }

    /// Check whether the file name is that of a markdown file
    pub fn is_markdown_file(&self, file_name: &str) -> (r: bool)
        ensures
            r == is_markdown_name(file_name@),
            is_ascii_text(file_name@) ==> r == match extension(file_name@) {
                Some(ext) => is_markdown_extension_spec(ascii_lowercase(ext)),
                None => false,
            },
    {
        match extension_of(file_name) {
            Some(ext) => {
                proof {
                    let d = last_dot(file_name@);
                    lemma_last_dot_bounds(file_name@);
                    if is_ascii_text(file_name@) {
                        assert forall|k: int| 0 <= k < ext@.len() implies (#[trigger] ext@[k] as u32) < 128 by {
                            assert(ext@[k] == file_name@[d + 1 + k]);
                        }
                    }
                }
                let lower = to_lowercase(ext.as_str());
                is_markdown_extension(lower.as_str())
            },
            None => false,
        }
    }

    /// Check whether a directory should be skipped
    pub fn should_skip_directory(&self, dir_name: &str) -> (r: bool)
        ensures
            r == skipped_directory(dir_name@),
    {
        str_eq(dir_name, ".git") || str_eq(dir_name, ".svn") || str_eq(dir_name, ".hg") || str_eq(
            dir_name,
            "node_modules",
        ) || str_eq(dir_name, "target") || str_eq(dir_name, "build") || str_eq(dir_name, "dist")
            || str_eq(dir_name, ".vscode") || str_eq(dir_name, ".idea") || str_eq(dir_name, ".vs")
            || str_eq(dir_name, "__pycache__") || str_eq(dir_name, ".pytest_cache") || str_eq(
            dir_name,
            "vendor",
        ) || str_eq(dir_name, "deps")
    }

    /// What the scan does with an entry named `name` whose extension is `ext`
    /// (each `None` when absent or not valid Unicode) that is a directory, a
    /// file, or neither.
    pub fn classify_entry(
        &self,
        name: Option<&str>,
        ext: Option<&str>,
        is_dir: bool,
        is_file: bool,
    ) -> (r: EntryAction)
        ensures
            r == entry_action(
                match name {
                    Some(n) => Some(n@),
                    None => None,
                },
                match ext {
                    Some(e) => Some(e@),
                    None => None,
                },
                is_dir,
                is_file,
            ),
            match ext {
                Some(e) => is_file && !is_dir && is_ascii_text(e@) ==> (r == EntryAction::Collect
                    <==> is_markdown_extension_spec(ascii_lowercase(e@))),
                None => true,
            },
    {
        if is_dir {
            match name {
                Some(n) => if self.should_skip_directory(n) {
                    EntryAction::SkipDirectory
                } else {
                    EntryAction::Descend
                },
                None => EntryAction::Descend,
            }
        } else if is_file {
            match ext {
                Some(e) => {
                    let lower = to_lowercase(e);
                    if is_markdown_extension(lower.as_str()) {
                        EntryAction::Collect
                    } else {
                        EntryAction::Ignore
                    }
                },
                None => EntryAction::Ignore,
            }
        } else {
            EntryAction::Ignore
        }
    }
}

} // verus!

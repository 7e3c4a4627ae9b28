//! The file browser's rules: which entries of a directory match what was
//! typed, and how a path reads relative to the directory it was found in.

use vstd::prelude::*;
use vstd::string::*;

verus! {

/// What `pathdiff::diff_paths` returns for a path and a base, both as
/// text: the path relative to the base, or nothing where there is none.
pub uninterp spec fn path_difference(path: Seq<char>, base: Seq<char>) -> Option<Seq<char>>;

/// What `str::to_lowercase` returns for a text.
pub uninterp spec fn lowercase_of(text: Seq<char>) -> Seq<char>;

/// The text of an optional string.
pub open spec fn optional_text(value: Option<String>) -> Option<Seq<char>> {
    match value {
        Some(text) => Some(text@),
        None => None,
    }
}

/// `pathdiff::diff_paths`, on paths given and returned as text: the
/// result is the crate's own, named `path_difference`.
#[verifier::external_body]
fn diff_paths(path: &str, base: &str) -> (r: Option<String>)
    ensures
        optional_text(r) == path_difference(path@, base@),
{
    match pathdiff::diff_paths(path, base) {
        Some(relative) => Some(relative.to_string_lossy().into_owned()),
        None => None,
    }
}

/// `str::to_lowercase` of the standard library: the result is its own,
/// named `lowercase_of`.
#[verifier::external_body]
fn to_lowercase(text: &str) -> (r: String)
    ensures
        r@ == lowercase_of(text@),
{
    text.to_lowercase()
}

/// `str::starts_with` of the standard library with a string as pattern:
/// tells whether `prefix` is a prefix of `text`.
#[verifier::external_body]
fn starts_with(text: &str, prefix: &str) -> (r: bool)
    ensures
        r == prefix@.is_prefix_of(text@),
{
    text.starts_with(prefix)
}

/// Why the browser has nothing to open.
#[derive(Clone, Debug, PartialEq, Eq)]
pub enum BrowseError {
    /// No entry matches what was typed.
    NoMatch(String),
    /// The path cannot be written relative to its directory.
    NotRelative(String),
}

impl BrowseError {
    /// The text of the error.
    pub open spec fn text(self) -> Seq<char> {
        match self {
            BrowseError::NoMatch(typed) => "No files found that matches \""@ + typed@ + "\""@,
            BrowseError::NotRelative(path) => "Failed to get relative path of \""@ + path@ + "\""@,
        }
    }

    /// The text of the error.
    pub fn message(&self) -> (m: String)
        ensures
            m@ == self.text(),
    {
        match self {
            BrowseError::NoMatch(typed) => {
                let mut m = String::from_str("No files found that matches \"");
                m.append(typed.as_str());
                m.append("\"");
                m
            },
            BrowseError::NotRelative(path) => {
                let mut m = String::from_str("Failed to get relative path of \"");
                m.append(path.as_str());
                m.append("\"");
                m
            },
        }
    }
}

/// How `path` reads for the browser: as it is where no base is given, and
/// relative to `base` otherwise.
pub open spec fn shown_path(path: Seq<char>, base: Option<Seq<char>>) -> Option<Seq<char>> {
    match base {
        Some(base) => path_difference(path, base),
        None => Some(path),
    }
}

/// Writes `path` relative to `base`, both canonical; without a base the
/// path stays as it is.
pub fn path_canonicalize(path: &str, base_path: Option<&str>) -> (r: Result<String, BrowseError>)
    ensures
        match r {
            Ok(shown) => shown_path(path@, optional_base(base_path)) == Some(shown@),
            Err(error) => shown_path(path@, optional_base(base_path)) is None && (error matches BrowseError::NotRelative(
                named,
            ) && named@ == path@),
        },
{
    match base_path {
        Some(base) => {
            match diff_paths(path, base) {
                Some(relative) => Ok(relative),
                None => Err(BrowseError::NotRelative(String::from_str(path))),
            }
        },
        None => Ok(String::from_str(path)),
    }
}

/// The text of an optional base.
pub open spec fn optional_base(base: Option<&str>) -> Option<Seq<char>> {
    match base {
        Some(text) => Some(text@),
        None => None,
    }
}

/// The directory that the browser lists for what was typed.
#[derive(Clone, Copy, Debug, PartialEq, Eq, Structural)]
pub enum BrowseTarget {
    /// What was typed is a directory: all of its entries are offered.
    Typed,
    /// What was typed lies in a directory: the entries of that directory
    /// are offered that begin with the last name typed.
    Parent,
    /// Anything else: the entries of the directory that is open are
    /// offered that begin with what was typed.
    Current,
}

/// The directory to list: that of an absolute path that is a directory,
/// the parent of an absolute path whose parent is one, and the open
/// directory otherwise.
pub open spec fn target_of(is_absolute: bool, is_dir: bool, parent_is_dir: Option<bool>) -> BrowseTarget {
    if is_absolute && is_dir {
        BrowseTarget::Typed
    } else if is_absolute && parent_is_dir == Some(true) {
        BrowseTarget::Parent
    } else {
        BrowseTarget::Current
    }
}

/// Picks the directory to list for what was typed: `is_absolute` and
/// `is_dir` tell whether that is an absolute path and a directory, and
/// `parent_is_dir` whether it has a parent and that is a directory.
pub fn browse_target(is_absolute: bool, is_dir: bool, parent_is_dir: Option<bool>) -> (target: BrowseTarget)
    ensures
        target == target_of(is_absolute, is_dir, parent_is_dir),
{
    if !is_absolute {
        BrowseTarget::Current
    } else if is_dir {
        BrowseTarget::Typed
    } else {
        match parent_is_dir {
            Some(true) => BrowseTarget::Parent,
            _ => BrowseTarget::Current,
        }
    }
}

/// `entry` begins with what was typed, letter case set aside.
pub open spec fn matches_typed(entry: Seq<char>, typed: Seq<char>) -> bool {
    lowercase_of(typed).is_prefix_of(lowercase_of(entry))
}

/// The entries that begin with what was typed, in their order.
pub open spec fn matching(entries: Seq<Seq<char>>, typed: Seq<char>) -> Seq<Seq<char>>
    decreases entries.len(),
{
    if entries.len() == 0 {
        Seq::<Seq<char>>::empty()
    } else if matches_typed(entries.last(), typed) {
        matching(entries.drop_last(), typed).push(entries.last())
    } else {
        matching(entries.drop_last(), typed)
    }
}

/// The entries that the browser lists before it filters: those of the
/// directory, led by `..` where the directory has a parent and what was
/// typed is not an absolute path.
pub open spec fn listed(entries: Seq<Seq<char>>, has_parent: bool, typed_is_absolute: bool) -> Seq<Seq<char>> {
    if has_parent && !typed_is_absolute {
        seq!["..".view()] + entries
    } else {
        entries
    }
}

/// The texts of a vector of strings.
pub open spec fn names(entries: Seq<String>) -> Seq<Seq<char>> {
    entries.map_values(|entry: String| entry@)
}

/// The entries of a directory that the browser offers for `typed`: `..`
/// first where the directory has a parent and `typed` is not an absolute
/// path, then the directory's own entries, of all these the ones that
/// begin with `typed`, letter case set aside.
pub fn find_dir_contents(entries: Vec<String>, has_parent: bool, typed_is_absolute: bool, typed: &str) -> (r: Vec<String>)
    ensures
        names(r@) == matching(listed(names(entries@), has_parent, typed_is_absolute), typed@),
{
    let wanted = to_lowercase(typed);
    let mut all: Vec<String> = Vec::new();
    if has_parent && !typed_is_absolute {
        all.push(String::from_str(".."));
    }
    let mut rest = entries;
    let ghost lead = names(all@);
    let ghost given = names(rest@);
    all.append(&mut rest);
    proof {
        assert(names(all@) =~= lead + given);
        assert(names(all@) =~= listed(given, has_parent, typed_is_absolute));
    }
    let ghost source = names(all@);
    let mut out: Vec<String> = Vec::new();
    let mut i: usize = 0;
    let n = all.len();
    proof {
        assert(source.subrange(0, 0) =~= Seq::<Seq<char>>::empty());
        assert(names(out@) =~= matching(source.subrange(0, 0), typed@));
    }
    while i < n
        invariant
            0 <= i <= n,
            n == all@.len(),
            source == names(all@),
            wanted@ == lowercase_of(typed@),
            names(out@) == matching(source.subrange(0, i as int), typed@),
        decreases n - i,
    {
        let lowered = to_lowercase(all[i].as_str());
        let keep = starts_with(lowered.as_str(), wanted.as_str());
        proof {
            let shorter = source.subrange(0, i as int);
            let longer = source.subrange(0, i as int + 1);
            assert(longer.drop_last() =~= shorter);
            assert(longer.last() == all@[i as int]@);
            assert(keep == matches_typed(all@[i as int]@, typed@));
        }
        if keep {
            let entry = all[i].clone();
            proof {
                assert(names(out@.push(entry)) =~= names(out@).push(entry@));
            }
            out.push(entry);
        }
        i = i + 1;
    }
    proof {
        assert(source.subrange(0, n as int) =~= source);
    }
    out
}

/// Which of `count` offered entries the browser opens when scrolled to
/// `scroll`: that entry, or an error that names what was typed where
/// nothing is offered.
pub fn go_to_path(count: usize, scroll: usize, typed: &str) -> (r: Result<usize, BrowseError>)
    requires
        count > 0 ==> scroll < count,
    ensures
        count > 0 ==> r == Ok::<usize, BrowseError>(scroll),
        count == 0 ==> (r matches Err(BrowseError::NoMatch(named)) && named@ == typed@),
{
    if count == 0 {
        Err(BrowseError::NoMatch(String::from_str(typed)))
    } else {
        Ok(scroll)
    }
}

} // verus!

use vstd::prelude::*;
use vstd::string::StrSliceExecFns;
use vstd::string::StringExecFns;

verus! {

/// Path separators of either platform: an archive written on Windows may use
/// backslashes.
pub open spec fn is_separator(c: char) -> bool {
    c == '/' || c == '\\'
}

/// The characters from `i` on spell a `..` component of `name`.
pub open spec fn parent_step_at(name: Seq<char>, i: int) -> bool {
    &&& 0 <= i
    &&& i + 1 < name.len()
    &&& name[i] == '.'
    &&& name[i + 1] == '.'
    &&& (i == 0 || is_separator(name[i - 1]))
    &&& (i + 2 == name.len() || is_separator(name[i + 2]))
}

/// `name` starts at a root or a drive rather than at the directory it is
/// resolved against.
pub open spec fn is_rooted(name: Seq<char>) -> bool {
    (name.len() > 0 && is_separator(name[0])) || (name.len() > 1 && name[1] == ':')
}

/// An entry name accepted for extraction: relative (no leading separator, no
/// drive), with no `..` component at all and no NUL character. This is a
/// sufficient condition for the name, joined to a destination directory, to
/// stay inside it; it also refuses some names that would stay inside, such as
/// `a/../b`.
pub open spec fn is_enclosed(name: Seq<char>) -> bool {
    &&& !is_rooted(name)
    &&& forall|i: int| !parent_step_at(name, i)
    &&& forall|i: int| 0 <= i < name.len() ==> name[i] != '\0'
}

/// `dir/rel`.
pub open spec fn joined(dir: Seq<char>, rel: Seq<char>) -> Seq<char> {
    dir + seq!['/'] + rel
}

/// Position of the last separator among the first `k` characters, or -1.
pub open spec fn last_separator_before(name: Seq<char>, k: int) -> int
    decreases k,
{
    if k <= 0 {
        -1
    } else if is_separator(name[k - 1]) {
        k - 1
    } else {
        last_separator_before(name, k - 1)
    }
}

/// The directory that holds the file `rel` once extracted under `dest`.
pub open spec fn parent_dir(dest: Seq<char>, rel: Seq<char>) -> Seq<char> {
    let s = last_separator_before(rel, rel.len() as int);
    if s < 0 {
        dest
    } else {
        joined(dest, rel.subrange(0, s))
    }
}

/// What extracting one archive entry amounts to.
#[derive(Debug, Clone, PartialEq, Eq)]
pub enum EntryPlan {
    /// The entry is left out: it has no usable name or would escape the
    /// destination directory.
    Skip,
    /// Create the directory `path` with any missing ancestors.
    MakeDir { path: String },
    /// Create the directory `dir` with any missing ancestors, then write the
    /// entry's contents to the file `path`, replacing any file there.
    WriteFile { dir: String, path: String },
}

/// Decides where an archive entry goes under `dest`. `name` is the entry's
/// stored path (absent where the archive gives no usable one) and `is_dir`
/// tells a directory entry from a file.
///
/// An entry is extracted exactly when its name is enclosed, and then only to
/// `dest/name`: no output path of an accepted entry can leave `dest`.
pub fn plan_entry(dest: &str, name: Option<&str>, is_dir: bool) -> (r: EntryPlan)
    ensures
        match name {
            None => r == EntryPlan::Skip,
            Some(n) => if !is_enclosed(n@) {
                r == EntryPlan::Skip
            } else if is_dir {
                r matches EntryPlan::MakeDir { path } && path@ == joined(dest@, n@)
            } else {
                r matches EntryPlan::WriteFile { dir, path } && dir@ == parent_dir(dest@, n@)
                    && path@ == joined(dest@, n@)
            },
        },
{
    match name {
        None => EntryPlan::Skip,
        Some(n) => {
            if !check_enclosed(n) {
                return EntryPlan::Skip;
            }
            let path = join_path(dest, n);
            if is_dir {
                EntryPlan::MakeDir { path }
            } else {
                let len = n.unicode_len();
                let mut k: usize = len;
                while k > 0 && !is_separator_char(n.get_char(k - 1))
                    invariant
                        k <= len,
                        len == n@.len(),
                        last_separator_before(n@, k as int) == last_separator_before(
                            n@,
                            len as int,
                        ),
                    decreases k,
                {
                    k = k - 1;
                }
                let dir = if k == 0 {
                    String::from_str(dest)
                } else {
                    join_path(dest, n.substring_char(0, k - 1))
                };
                EntryPlan::WriteFile { dir, path }
            }
        },
    }
}

fn is_separator_char(c: char) -> (r: bool)
    ensures
        r == is_separator(c),
{
    c == '/' || c == '\\'
}

/// `dir/rel` as a new string.
pub fn join_path(dir: &str, rel: &str) -> (r: String)
    ensures
        r@ == joined(dir@, rel@),
{
    let mut r = String::from_str(dir);
    let sep = "/";
    proof {
        reveal_strlit("/");
    }
    r.append(sep);
    r.append(rel);
    r
}

/// Whether `name` is enclosed (see `is_enclosed`).
pub fn check_enclosed(name: &str) -> (r: bool)
    ensures
        r == is_enclosed(name@),
{
    let len = name.unicode_len();
    if len > 0 && is_separator_char(name.get_char(0)) {
        return false;
    }
    if len > 1 && name.get_char(1) == ':' {
        return false;
    }
    let mut i: usize = 0;
    while i < len
        invariant
            i <= len,
            len == name@.len(),
            !is_rooted(name@),
            forall|j: int| 0 <= j < i ==> !parent_step_at(name@, j),
            forall|j: int| 0 <= j < i ==> name@[j] != '\0',
        decreases len - i,
    {
        let c = name.get_char(i);
        if c == '\0' {
            return false;
        }
        if c == '.' && i + 1 < len && name.get_char(i + 1) == '.' {
            let starts = i == 0 || is_separator_char(name.get_char(i - 1));
            let ends = i + 2 == len || is_separator_char(name.get_char(i + 2));
            if starts && ends {
                assert(parent_step_at(name@, i as int));
                return false;
            }
        }
        i = i + 1;
    }
    assert forall|j: int| !parent_step_at(name@, j) by {
        if 0 <= j < len {
        }
    }
    true
}

} // verus!

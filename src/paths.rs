use vstd::prelude::*;
use vstd::string::StrSliceExecFns;
use vstd::string::StringExecFns;

verus! {

/// The text of a path, or the empty string where the path is not valid
/// UTF-8 (`text` is `None`).
pub fn path_to_str<'a>(text: Option<&'a str>) -> (r: &'a str)
    ensures
        match text {
            Some(t) => r@ == t@,
            None => r@ == ""@,
        },
{
    match text {
        Some(t) => t,
        None => "",
    }
}

/// Position of the last `/` among the first `k` characters, or -1.
pub open spec fn last_slash_before(path: Seq<char>, k: int) -> int
    decreases k,
{
    if k <= 0 {
        -1
    } else if path[k - 1] == '/' {
        k - 1
    } else {
        last_slash_before(path, k - 1)
    }
}

/// What follows the last `/` of `path` (all of it where it has none).
pub open spec fn last_segment(path: Seq<char>) -> Seq<char> {
    path.subrange(last_slash_before(path, path.len() as int) + 1, path.len() as int)
}

proof fn lemma_last_slash_bounds(path: Seq<char>, k: int)
    requires
        0 <= k <= path.len(),
    ensures
        -1 <= last_slash_before(path, k) < k,
    decreases k,
{
    if k > 0 {
        lemma_last_slash_bounds(path, k - 1);
    }
}

/// The file name of `path`: its last `/`-separated segment where the path
/// names a file (`is_file`), else `not-a-file`.
pub fn get_filename<'a>(path: &'a str, is_file: bool) -> (r: &'a str)
    ensures
        is_file ==> r@ == last_segment(path@),
        !is_file ==> r@ == "not-a-file"@,
{
    if !is_file {
        return "not-a-file";
    }
    let len = path.unicode_len();
    let mut k: usize = len;
    while k > 0 && path.get_char(k - 1) != '/'
        invariant
            k <= len,
            len == path@.len(),
            last_slash_before(path@, k as int) == last_slash_before(path@, len as int),
        decreases k,
    {
        k = k - 1;
    }
    proof {
        lemma_last_slash_bounds(path@, len as int);
    }
    path.substring_char(k, len)
}

/// The names of a directory's entries, in the order listed, where `entries`
/// is the listing (`None` where the path is no directory). An entry that
/// could not be read or whose name is not valid UTF-8 is `None` and gives an
/// empty name; no directory gives the single name `not-a-directory`.
pub fn list_dir(entries: Option<Vec<Option<String>>>) -> (r: Vec<String>)
    ensures
        match entries {
            None => r@.len() == 1 && r@[0]@ == "not-a-directory"@,
            Some(es) => r@.len() == es@.len() && forall|i: int|
                0 <= i < es@.len() ==> #[trigger] r@[i]@ == match es@[i] {
                    Some(name) => name@,
                    None => Seq::<char>::empty(),
                },
        },
{
    match entries {
        None => {
            let mut r: Vec<String> = Vec::new();
            r.push(String::from_str("not-a-directory"));
            r
        },
        Some(es) => {
            let ghost all = es@;
            let mut r: Vec<String> = Vec::new();
            for e in it: es.into_iter()
                invariant
                    it.seq() == all,
                    r@.len() == it.index(),
                    forall|i: int|
                        0 <= i < it.index() ==> #[trigger] r@[i]@ == match all[i] {
                            Some(name) => name@,
                            None => Seq::<char>::empty(),
                        },
            {
                match e {
                    Some(name) => r.push(name),
                    None => r.push(String::new()),
                }
            }
            r
        },
    }
}

} // verus!

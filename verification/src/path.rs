//! Paths as text. A path that begins with `/` is read the POSIX way, with `/`
//! between its components; any other path is read the DOS way, where `\` and
//! `/` both separate components and a separator behind a drive's colon is the
//! drive's root. Paths are expected in canonical form: no empty, `.` or `..`
//! components, no separator at the end but in a root.

use vstd::prelude::*;
use vstd::string::*;

verus! {

/// Whether `path` is read the POSIX way.
pub open spec fn posix_style(path: Seq<char>) -> bool {
    path.len() > 0 && path[0] == '/'
}

/// Whether `c` separates components in `path`.
pub open spec fn is_separator(path: Seq<char>, c: char) -> bool {
    c == '/' || (c == '\\' && !posix_style(path))
}

/// The position of the last separator of `path` before `end`, or -1 where
/// there is none.
pub open spec fn last_separator(path: Seq<char>, end: int) -> int
    decreases end,
{
    if end <= 0 {
        -1
    } else if is_separator(path, path[end - 1]) {
        end - 1
    } else {
        last_separator(path, end - 1)
    }
}

/// The last component of `path`: what follows its last separator.
pub open spec fn file_name_of(path: Seq<char>) -> Seq<char> {
    path.subrange(last_separator(path, path.len() as int) + 1, path.len() as int)
}

/// Whether the last component of `path` can name a file.
pub open spec fn has_file_name(path: Seq<char>) -> bool {
    let name = file_name_of(path);
    name.len() > 0 && name != seq!['.'] && name != seq!['.', '.']
}

/// The directory that holds the last component of `path`: the text before the
/// last separator, with that separator where the directory is a root. Empty
/// where `path` has no separator.
pub open spec fn parent_of(path: Seq<char>) -> Seq<char> {
    let cut = last_separator(path, path.len() as int);
    if cut < 0 {
        Seq::empty()
    } else if cut == 0 || (!posix_style(path) && path[cut - 1] == ':') {
        path.subrange(0, cut + 1)
    } else {
        path.subrange(0, cut)
    }
}

/// The position of the last `.` of `name` before `end`, or -1 where there is
/// none.
pub open spec fn last_dot(name: Seq<char>, end: int) -> int
    decreases end,
{
    if end <= 0 {
        -1
    } else if name[end - 1] == '.' {
        end - 1
    } else {
        last_dot(name, end - 1)
    }
}

/// A file name without its extension: the text before the last `.`, or the
/// whole name where it has no `.` behind its first character.
pub open spec fn stem_of(name: Seq<char>) -> Seq<char> {
    let dot = last_dot(name, name.len() as int);
    if dot <= 0 {
        name
    } else {
        name.subrange(0, dot)
    }
}

/// `name` placed in the directory `dir`: a separator of `dir`'s style stands
/// between them unless `dir` is empty or ends in one.
pub open spec fn child_of(dir: Seq<char>, name: Seq<char>) -> Seq<char> {
    if dir.len() == 0 || is_separator(dir, dir.last()) {
        dir + name
    } else if posix_style(dir) {
        dir + seq!['/'] + name
    } else {
        dir + seq!['\\'] + name
    }
}

/// Whether `name` is a single component: not empty, and without `/` and
/// `\`.
pub open spec fn is_component(name: Seq<char>) -> bool {
    &&& name.len() > 0
    &&& forall|i: int| 0 <= i < name.len() ==> name[i] != '/' && name[i] != '\\'
}

/// Whether `dir` ends as a directory in canonical form does: it is not
/// empty, a separator at its end is that of a root, and it is more than a
/// drive's name.
pub open spec fn is_directory(dir: Seq<char>) -> bool {
    let end = dir.len() as int;
    &&& end > 0
    &&& if is_separator(dir, dir[end - 1]) {
        end == 1 || (!posix_style(dir) && dir[end - 2] == ':')
    } else {
        posix_style(dir) || dir[end - 1] != ':'
    }
}

/// The last separator is one, and nothing behind it is.
pub proof fn lemma_last_separator(path: Seq<char>, end: int)
    requires
        0 <= end <= path.len(),
    ensures
        -1 <= last_separator(path, end) < end,
        last_separator(path, end) >= 0 ==> is_separator(
            path,
            path[last_separator(path, end)],
        ),
        forall|j: int| last_separator(path, end) < j < end ==> !is_separator(path, path[j]),
    decreases end,
{
    if end > 0 && !is_separator(path, path[end - 1]) {
        lemma_last_separator(path, end - 1);
    }
}

/// A single component placed in a directory lies directly in it: the path
/// has the component as its file name and the directory as its parent.
pub proof fn law_child_lies_in_directory(dir: Seq<char>, name: Seq<char>)
    requires
        is_directory(dir),
        is_component(name),
    ensures
        file_name_of(child_of(dir, name)) == name,
        parent_of(child_of(dir, name)) == dir,
{
    let path = child_of(dir, name);
    let start = path.len() - name.len();
    assert forall|j: int| start <= j < path.len() implies !is_separator(path, path[j]) by {
        assert(path[j] == name[j - start]);
    }
    lemma_last_separator_skips(path, start, path.len() as int);
}

/// Where nothing from `from` up to `end` is a separator, the last separator
/// before `end` is the last one before `from`.
proof fn lemma_last_separator_skips(path: Seq<char>, from: int, end: int)
    requires
        0 <= from <= end <= path.len(),
        forall|j: int| from <= j < end ==> !is_separator(path, path[j]),
    ensures
        last_separator(path, end) == last_separator(path, from),
    decreases end - from,
{
    if from < end {
        lemma_last_separator_skips(path, from, end - 1);
    }
}

fn separates(posix: bool, c: char) -> (yes: bool)
    ensures
        yes == (c == '/' || (c == '\\' && !posix)),
{
    c == '/' || (c == '\\' && !posix)
}

fn is_posix(path: &str) -> (posix: bool)
    ensures
        posix == posix_style(path@),
{
    path.unicode_len() > 0 && path.get_char(0) == '/'
}

/// Where the last component of `path` begins: one past the last separator.
fn name_start(path: &str) -> (start: usize)
    ensures
        start == last_separator(path@, path@.len() as int) + 1,
{
    let posix = is_posix(path);
    let mut end: usize = path.unicode_len();
    while end > 0 && !separates(posix, path.get_char(end - 1))
        invariant
            end <= path@.len(),
            posix == posix_style(path@),
            last_separator(path@, end as int) == last_separator(path@, path@.len() as int),
        decreases end,
    {
        end = end - 1;
    }
    end
}

/// The last component of `path`, where it can name a file.
pub fn file_name(path: &str) -> (name: Option<String>)
    ensures
        name is Some <==> has_file_name(path@),
        name matches Some(text) ==> text@ == file_name_of(path@),
{
    let start = name_start(path);
    let len = path.unicode_len();
    proof {
        lemma_last_separator(path@, path@.len() as int);
    }
    let name = path.substring_char(start, len);
    let count = len - start;
    if count == 0 {
        return None;
    }
    if count == 1 && name.get_char(0) == '.' {
        assert(name@ =~= seq!['.']);
        return None;
    }
    if count == 2 && name.get_char(0) == '.' && name.get_char(1) == '.' {
        assert(name@ =~= seq!['.', '.']);
        return None;
    }
    Some(String::from_str(name))
}

/// The directory that holds the last component of `path`.
pub fn parent_dir(path: &str) -> (dir: String)
    ensures
        dir@ == parent_of(path@),
{
    let start = name_start(path);
    proof {
        lemma_last_separator(path@, path@.len() as int);
    }
    if start == 0 {
        return String::new();
    }
    let cut = start - 1;
    if cut == 0 || (!is_posix(path) && path.get_char(cut - 1) == ':') {
        String::from_str(path.substring_char(0, start))
    } else {
        String::from_str(path.substring_char(0, cut))
    }
}

/// A file name without its extension.
pub fn file_stem(name: &str) -> (stem: String)
    ensures
        stem@ == stem_of(name@),
{
    let mut end: usize = name.unicode_len();
    while end > 0 && name.get_char(end - 1) != '.'
        invariant
            end <= name@.len(),
            last_dot(name@, end as int) == last_dot(name@, name@.len() as int),
        decreases end,
    {
        end = end - 1;
    }
    if end <= 1 {
        String::from_str(name)
    } else {
        String::from_str(name.substring_char(0, end - 1))
    }
}

/// The path of `name` in the directory `dir`.
pub fn child(dir: &str, name: &str) -> (path: String)
    ensures
        path@ == child_of(dir@, name@),
{
    let len = dir.unicode_len();
    let posix = is_posix(dir);
    let mut path = String::from_str(dir);
    if len > 0 && !separates(posix, dir.get_char(len - 1)) {
        if posix {
            proof {
                reveal_strlit("/");
            }
            path.append("/");
        } else {
            proof {
                reveal_strlit("\\");
            }
            path.append("\\");
        }
    }
    path.append(name);
    path
}

} // verus!

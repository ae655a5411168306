//! The rule that makes an object key of a path and a file name.

use vstd::prelude::*;
use vstd::string::StrSliceExecFns;
use vstd::string::StringExecFns;

verus! {

/// The separator between the parts of a path.
pub open spec fn separator() -> char {
    '/'
}

/// `name` appended to `path` as one more part of it: a `name` that starts at
/// the root stands alone, and a separator comes between the two unless `path`
/// is empty or already ends in one.
pub open spec fn joined(path: Seq<char>, name: Seq<char>) -> Seq<char> {
    if name.len() > 0 && name[0] == separator() {
        name
    } else if path.len() == 0 || path.last() == separator() {
        path + name
    } else {
        path + seq![separator()] + name
    }
}

/// `key` without its first character, where that is a separator.
pub open spec fn relative(key: Seq<char>) -> Seq<char> {
    if key.len() > 0 && key[0] == separator() {
        key.subrange(1, key.len() as int)
    } else {
        key
    }
}

/// The key under which the object store holds the file `name` of the
/// directory `path`.
pub open spec fn object_key_of(path: Seq<char>, name: Seq<char>) -> Seq<char> {
    relative(joined(path, name))
}

/// Whether `text` starts with a separator.
fn starts_at_root(text: &str) -> (rooted: bool)
    ensures
        rooted == (text@.len() > 0 && text@[0] == separator()),
{
    text.unicode_len() > 0 && text.get_char(0) == '/'
}

/// Joins a directory and a file name into one path.
pub fn join(path: &str, name: &str) -> (whole: String)
    ensures
        whole@ == joined(path@, name@),
{
    if starts_at_root(name) {
        return String::from_str(name);
    }
    let path_len = path.unicode_len();
    let mut whole = String::from_str(path);
    if path_len > 0 && path.get_char(path_len - 1) != '/' {
        proof {
            reveal_strlit("/");
        }
        whole.append("/");
    }
    whole.append(name);
    whole
}

/// Drops one leading separator, if there is one.
pub fn strip_root(key: String) -> (stripped: String)
    ensures
        stripped@ == relative(key@),
{
    if starts_at_root(key.as_str()) {
        let len = key.as_str().unicode_len();
        String::from_str(key.as_str().substring_char(1, len))
    } else {
        key
    }
}

/// The object key of the file `name` of the directory `path`.
pub fn object_key(path: &str, name: &str) -> (key: String)
    ensures
        key@ == object_key_of(path@, name@),
{
    strip_root(join(path, name))
}

/// A leading separator on the path makes no difference to the key: a path
/// from the root and the same path without its first separator name the same
/// object.
pub proof fn law_leading_separator(path: Seq<char>, name: Seq<char>)
    requires
        !(path.len() > 0 && path[0] == separator()),
        !(name.len() > 0 && name[0] == separator()),
    ensures
        object_key_of(seq![separator()] + path, name) == object_key_of(path, name),
        object_key_of(path, name) == joined(path, name),
{
}

} // verus!

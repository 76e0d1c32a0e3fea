//! The icon that a `.url` file names for itself.

use crate::error::IconError;
use vstd::prelude::*;

verus! {

/// The line of a `.url` file names the file's icon.
pub open spec fn names_icon_file(line: Seq<char>) -> bool {
    "IconFile="@.is_prefix_of(line)
}

/// Line `i` is the first of `lines` that names an icon file, and names
/// `path`.
pub open spec fn first_icon_line(lines: Seq<String>, i: int, path: Seq<char>) -> bool {
    &&& 0 <= i < lines.len()
    &&& "IconFile="@ + path == lines[i]@
    &&& forall|j: int| 0 <= j < i ==> !names_icon_file(#[trigger] lines[j]@)
}

/// `str::strip_prefix` with a text as its pattern: if `line` starts with
/// `prefix`, what follows the prefix; else nothing.
#[verifier::external_body]
fn strip_prefix<'a>(line: &'a str, prefix: &str) -> (rest: Option<&'a str>)
    ensures
        rest.is_some() <==> prefix@.is_prefix_of(line@),
        rest.is_some() ==> prefix@ + rest.unwrap()@ == line@,
{
    line.strip_prefix(prefix)
}

/// The path of the icon that a `.url` file names: what follows `IconFile=` in
/// the first of its lines that starts so. A file without such a line has no
/// icon of its own.
pub fn get_icon_from_url_file(lines: &Vec<String>) -> (res: Result<String, IconError>)
    ensures
        res.is_ok() <==> exists|i: int|
            0 <= i < lines@.len() && names_icon_file(#[trigger] lines@[i]@),
        res.is_ok() ==> exists|i: int| #[trigger] first_icon_line(lines@, i, res.unwrap()@),
        res.is_err() ==> res.unwrap_err() == IconError::NotFound,
{
    let mut i: usize = 0;
    while i < lines.len()
        invariant
            i <= lines@.len(),
            forall|j: int| 0 <= j < i ==> !names_icon_file(#[trigger] lines@[j]@),
        decreases lines@.len() - i,
    {
        match strip_prefix(lines[i].as_str(), "IconFile=") {
            Some(rest) => {
                let path: String = rest.to_owned();
                assert(names_icon_file(lines@[i as int]@));
                let found: Result<String, IconError> = Ok(path);
                assert(first_icon_line(lines@, i as int, found.unwrap()@));
                return found;
            },
            None => {},
        }
        i += 1;
    }
    Err(IconError::NotFound)
}

} // verus!

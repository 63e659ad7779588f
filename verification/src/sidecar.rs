//! The `.import` file that the editor writes beside each file it has
//! imported: where it lies, told from the path of the file it belongs to.
//!
//! Paths are plain strings whose parts are separated by `/`. A path that ends
//! in a separator names no file.

use crate::error::MaterialError;
use crate::text::{chars_of, string_of_range};
use vstd::prelude::*;
use vstd::string::StringExecFns;

verus! {

/// The index of the last `c` in `s`, or -1 where there is none.
pub open spec fn last_index_of(s: Seq<char>, c: char) -> int
    decreases s.len(),
{
    if s.len() == 0 {
        -1
    } else if s.last() == c {
        s.len() - 1
    } else {
        last_index_of(s.drop_last(), c)
    }
}

/// The last part of a path: what follows its last separator.
pub open spec fn file_name(path: Seq<char>) -> Seq<char> {
    path.skip(last_index_of(path, '/') + 1)
}

/// The extension of the file that a path names: what follows the last dot of
/// the file name. A name that only starts with its last dot has none, and
/// neither has the name `..`.
pub open spec fn extension(path: Seq<char>) -> Option<Seq<char>> {
    let name = file_name(path);
    let dot = last_index_of(name, '.');
    if dot > 0 && name != seq!['.', '.'] {
        Some(name.skip(dot + 1))
    } else {
        None
    }
}

/// The path of the `.import` file of a file: the file's own path, its
/// extension lengthened by `.import`.
pub open spec fn sidecar_of(path: Seq<char>) -> Seq<char> {
    path + ".import"@
}

pub proof fn lemma_last_index_of(s: Seq<char>, c: char)
    ensures
        -1 <= last_index_of(s, c) < s.len(),
        last_index_of(s, c) >= 0 ==> s[last_index_of(s, c)] == c,
        forall|j: int| last_index_of(s, c) < j < s.len() ==> s[j] != c,
    decreases s.len(),
{
    if s.len() > 0 && s.last() != c {
        let front = s.drop_last();
        lemma_last_index_of(front, c);
        assert forall|j: int| last_index_of(s, c) < j < s.len() implies s[j] != c by {
            if j < front.len() {
                assert(s[j] == front[j]);
            }
        }
    }
}

/// The last occurrence of a character is fixed by what follows it.
pub proof fn lemma_last_index_is(s: Seq<char>, c: char, at: int)
    requires
        -1 <= at < s.len(),
        at >= 0 ==> s[at] == c,
        forall|j: int| at < j < s.len() ==> s[j] != c,
    ensures
        last_index_of(s, c) == at,
{
    lemma_last_index_of(s, c);
}

/// The `.import` file of a file bears the file's name with `.import` after it,
/// and lies in the same directory. Where the file has an extension, that of
/// its `.import` file is `import`.
pub proof fn lemma_sidecar_file_name(path: Seq<char>)
    ensures
        file_name(sidecar_of(path)) == file_name(path) + ".import"@,
        sidecar_of(path).take(last_index_of(sidecar_of(path), '/') + 1) == path.take(
            last_index_of(path, '/') + 1,
        ),
        extension(path) is Some ==> extension(sidecar_of(path)) == Some("import"@),
{
    reveal_strlit(".import");
    reveal_strlit("import");
    let suffix = ".import"@;
    let sidecar = path + suffix;
    let at = last_index_of(path, '/');
    lemma_last_index_of(path, '/');
    assert forall|j: int| at < j < sidecar.len() implies sidecar[j] != '/' by {}
    lemma_last_index_is(sidecar, '/', at);
    if extension(path) is Some {
        let name = file_name(path);
        let long = name + suffix;
        lemma_last_index_of(name, '.');
        assert forall|j: int| name.len() < j < long.len() implies long[j] != '.' by {}
        lemma_last_index_is(long, '.', name.len() as int);
    }
}

/// The index of the last `c` in `chars[from..]`, counted from `from`; `None`
/// where there is none.
fn find_last(chars: &Vec<char>, from: usize, c: char) -> (at: Option<usize>)
    requires
        from <= chars.len(),
    ensures
        match at {
            Some(i) => from + i < chars.len() && i == last_index_of(chars@.skip(from as int), c),
            None => last_index_of(chars@.skip(from as int), c) == -1,
        },
{
    let ghost tail = chars@.skip(from as int);
    let mut i: usize = chars.len();
    while i > from
        invariant
            from <= i <= chars.len(),
            tail == chars@.skip(from as int),
            forall|j: int| i - from <= j < tail.len() ==> tail[j] != c,
        decreases i,
    {
        i -= 1;
        if chars[i] == c {
            proof {
                lemma_last_index_is(tail, c, i - from);
            }
            return Some(i - from);
        }
    }
    proof {
        lemma_last_index_is(tail, c, -1);
    }
    None
}

/// Where the file name starts in a path.
fn file_name_start(chars: &Vec<char>) -> (start: usize)
    ensures
        start <= chars.len(),
        start == last_index_of(chars@, '/') + 1,
{
    assert(chars@.skip(0) =~= chars@);
    match find_last(chars, 0, '/') {
        Some(i) => i + 1,
        None => 0,
    }
}

/// The last part of a path.
pub fn file_name_of(path: &str) -> (name: String)
    ensures
        name@ == file_name(path@),
{
    let chars = chars_of(path);
    let start = file_name_start(&chars);
    string_of_range(&chars, start, chars.len())
}

/// The extension of the file that a path names, if it has one.
pub fn extension_of(path: &str) -> (ext: Option<String>)
    ensures
        match ext {
            Some(e) => extension(path@) == Some(e@),
            None => extension(path@) is None,
        },
{
    let chars = chars_of(path);
    let start = file_name_start(&chars);
    let ghost name = file_name(path@);
    let is_parent = chars.len() - start == 2 && chars[start] == '.' && chars[start + 1] == '.';
    proof {
        if is_parent {
            assert(name =~= seq!['.', '.']);
        }
    }
    match find_last(&chars, start, '.') {
        Some(dot) => {
            if dot > 0 && !is_parent {
                let ext = string_of_range(&chars, start + dot + 1, chars.len());
                Some(ext)
            } else {
                None
            }
        },
        None => None,
    }
}

/// The path of the `.import` file that belongs to `path`, or `None` where the
/// file has no extension.
pub fn sidecar_path(path: &str) -> (sidecar: Option<String>)
    ensures
        match sidecar {
            Some(s) => extension(path@) is Some && s@ == sidecar_of(path@),
            None => extension(path@) is None,
        },
{
    match extension_of(path) {
        Some(_) => {
            let mut sidecar = String::from_str(path);
            sidecar.append(".import");
            Some(sidecar)
        },
        None => None,
    }
}

/// The paths of the `.import` files of all candidate files, in their order.
/// A candidate without an extension fails the whole run.
pub fn sidecar_paths(files: &Vec<String>) -> (sidecars: Result<Vec<String>, MaterialError>)
    ensures
        match sidecars {
            Ok(paths) => {
                &&& paths.len() == files.len()
                &&& forall|i: int| 0 <= i < files.len() ==> extension(#[trigger] files[i]@) is Some
                &&& forall|i: int|
                    0 <= i < files.len() ==> #[trigger] paths[i]@ == sidecar_of(files[i]@)
            },
            Err(e) => {
                &&& e == MaterialError::MissingExtension
                &&& exists|i: int| 0 <= i < files.len() && extension(#[trigger] files[i]@) is None
            },
        },
{
    let mut paths: Vec<String> = Vec::new();
    let mut i: usize = 0;
    while i < files.len()
        invariant
            i <= files.len(),
            paths.len() == i,
            forall|k: int| 0 <= k < i ==> extension(#[trigger] files[k]@) is Some,
            forall|k: int| 0 <= k < i ==> #[trigger] paths[k]@ == sidecar_of(files[k]@),
        decreases files.len() - i,
    {
        match sidecar_path(files[i].as_str()) {
            Some(sidecar) => {
                paths.push(sidecar);
            },
            None => {
                return Err(MaterialError::MissingExtension);
            },
        }
        i += 1;
    }
    Ok(paths)
}

} // verus!

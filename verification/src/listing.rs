//! From the listing of a directory to a source of card images.
//!
//! A listing names every file of the directory with its full path and, where
//! it is known, its media type. The images among the files become the faces
//! of the deck, in the order of their names.

use crate::card::DirectoryCardType;
use vstd::prelude::*;
use vstd::string::StringExecFns;

verus! {

/// One file of a directory listing.
#[derive(Debug)]
pub struct FileInfo {
    /// The file's name.
    pub name: String,
    /// The file's path, which ends in a slash and the file's name.
    pub path: String,
    /// The file's media type, where it is known.
    pub kind: Option<String>,
}

/// Whether `a` comes before `b`, or is `b`, in the order of a dictionary
/// whose alphabet is the code chart.
pub open spec fn text_le(a: Seq<char>, b: Seq<char>) -> bool
    decreases a.len(),
{
    if a.len() == 0 {
        true
    } else if b.len() == 0 {
        false
    } else if a[0] != b[0] {
        (a[0] as u32) < (b[0] as u32)
    } else {
        text_le(a.skip(1), b.skip(1))
    }
}

/// Whether `texts` is in order.
pub open spec fn in_order(texts: Seq<Seq<char>>) -> bool {
    forall|i: int, j: int| 0 <= i <= j < texts.len() ==> text_le(texts[i], texts[j])
}

/// The texts of `names`.
pub open spec fn texts(names: Seq<String>) -> Seq<Seq<char>> {
    Seq::new(names.len(), |i: int| names[i]@)
}

/// Whether `file` is an image: its media type is known and begins with
/// "image".
pub open spec fn is_image(file: FileInfo) -> bool {
    match file.kind {
        Some(kind) => "image"@.is_prefix_of(kind@),
        None => false,
    }
}

/// The names of the images among `files`, in the order of the listing.
pub open spec fn image_names(files: Seq<FileInfo>) -> Seq<Seq<char>>
    decreases files.len(),
{
    if files.len() == 0 {
        Seq::empty()
    } else if is_image(files.last()) {
        image_names(files.drop_last()).push(files.last().name@)
    } else {
        image_names(files.drop_last())
    }
}

/// The directory that `files` lie in: what is left of the first file's path
/// once the slash and the file's name are taken off its end. The empty
/// listing is that of a directory without a name; a first path that does
/// not end in the file's name names no directory.
pub open spec fn folder_of(files: Seq<FileInfo>) -> Option<Seq<char>> {
    if files.len() == 0 {
        Some(Seq::empty())
    } else {
        let tail = "/"@ + files[0].name@;
        let path = files[0].path@;
        if tail.is_suffix_of(path) {
            Some(path.subrange(0, path.len() - tail.len()))
        } else {
            None
        }
    }
}

/// Whether `text` begins with `prefix`, by `str::starts_with` of the
/// standard library, which answers whether the pattern matches a prefix of
/// the text.
#[verifier::external_body]
fn starts_with(text: &str, prefix: &str) -> (yes: bool)
    ensures
        yes == prefix@.is_prefix_of(text@),
{
    text.starts_with(prefix)
}

/// `text` without `suffix` at its end, by `str::strip_suffix` of the
/// standard library: the part before the suffix if the text ends with it,
/// and `None` if it does not.
#[verifier::external_body]
fn strip_suffix<'a>(text: &'a str, suffix: &str) -> (head: Option<&'a str>)
    ensures
        match head {
            Some(rest) => suffix@.is_suffix_of(text@) && rest@ == text@.subrange(
                0,
                text@.len() - suffix@.len(),
            ),
            None => !suffix@.is_suffix_of(text@),
        },
{
    text.strip_suffix(suffix)
}

/// Sorts `names`, by `sort` of the standard library, which orders strings as
/// a dictionary does, by the places of their characters in the code chart:
/// afterwards the names are those of before, each as often as before, and
/// in order.
#[verifier::external_body]
fn sort_names(names: &mut Vec<String>)
    ensures
        final(names)@.len() == old(names)@.len(),
        texts(final(names)@).to_multiset() == texts(old(names)@).to_multiset(),
        in_order(texts(final(names)@)),
{
    names.sort();
}

impl DirectoryCardType {
    /// The source of card images that the listing `files` describes: the
    /// directory that the files lie in, with the images among them as its
    /// faces, in the order of their names. A listing whose first path does
    /// not end in the first file's name describes none.
    pub fn from_listing(files: &Vec<FileInfo>) -> (found: Option<DirectoryCardType>)
        ensures
            match (found, folder_of(files@)) {
                (Some(directory), Some(folder)) => {
                    &&& directory.spec_path() == folder
                    &&& directory.names().to_multiset() == image_names(files@).to_multiset()
                    &&& in_order(directory.names())
                },
                (None, None) => true,
                _ => false,
            },
    {
        let mut folder = String::new();
        if files.len() > 0 {
            let mut tail = String::from_str("/");
            tail.append(files[0].name.as_str());
            match strip_suffix(files[0].path.as_str(), tail.as_str()) {
                Some(rest) => {
                    folder = String::from_str(rest);
                },
                None => {
                    return None;
                },
            }
        }
        let mut names: Vec<String> = Vec::new();
        let mut at: usize = 0;
        while at < files.len()
            invariant
                at <= files@.len(),
                texts(names@) == image_names(files@.take(at as int)),
            decreases files@.len() - at,
        {
            let ghost before = files@.take(at as int);
            let ghost after = files@.take(at + 1);
            assert(after.drop_last() =~= before);
            assert(after.last() == files@[at as int]);
            let image = match &files[at].kind {
                Some(kind) => starts_with(kind.as_str(), "image"),
                None => false,
            };
            if image {
                names.push(files[at].name.clone());
                assert(texts(names@) =~= image_names(before).push(files@[at as int].name@));
            }
            at = at + 1;
        }
        assert(files@.take(at as int) =~= files@);
        sort_names(&mut names);
        let ghost sorted = texts(names@);
        let directory = DirectoryCardType::new(folder, names);
        assert(directory.names() =~= sorted);
        Some(directory)
    }
}

} // verus!

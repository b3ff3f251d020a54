//! File discovery: which of the entries found below the input paths are
//! images to compress.
//!
//! Reading the file system is the caller's part. The caller hands over, for
//! each input path, what it found there; the choice among the entries is made
//! here.

use vstd::prelude::*;
use vstd::string::StringExecFns;

use crate::text::{lemma_texts_push, option_text, texts};

verus! {

/// One entry that a directory walk came across.
#[derive(Debug)]
pub struct WalkEntry {
    /// The path of the entry.
    pub path: String,
    /// How many directories below the walk's root the entry lies. The root
    /// itself has depth 0, its children have depth 1.
    pub depth: usize,
    /// Whether the entry itself is a regular file. A symbolic link is not,
    /// and is asked for its type like a regular file unless it leads to a
    /// directory.
    pub is_file: bool,
    /// Whether the path leads to a directory, symbolic links followed.
    pub is_dir: bool,
}

/// One input path, with what the file system holds there.
#[derive(Debug)]
pub struct RootListing {
    /// The input path as it was given.
    pub path: String,
    /// Whether anything exists at the path.
    pub exists: bool,
    /// Whether the path leads to a directory.
    pub is_dir: bool,
    /// The entries of a walk of the directory, in the order of the walk. Not
    /// read unless the path leads to a directory.
    pub entries: Vec<WalkEntry>,
}

/// What `mime_guess::from_path` followed by `MimeGuess::first_raw` returns for
/// a path: the first media type that the crate's table lists for the path's
/// extension, if it lists any.
pub uninterp spec fn guessed_mime(path: Seq<char>) -> Option<Seq<char>>;

/// Calls `mime_guess::from_path` and `MimeGuess::first_raw`. The guess looks at
/// the extension of the path alone, in a table that is part of the crate, and
/// reads no file. The contract only names the result: which media type the
/// table gives for which extension is not stated.
#[verifier::external_body]
pub(crate) fn guess_mime(path: &str) -> (mime: Option<String>)
    ensures
        match mime {
            Some(text) => guessed_mime(path@) == Some(text@),
            None => guessed_mime(path@) is None,
        },
{
    match mime_guess::from_path(path).first_raw() {
        Some(mime) => Some(mime.to_string()),
        None => None,
    }
}

/// Whether a guessed media type is one of the two that are compressed. A
/// missing guess is not.
pub open spec fn is_image_type(mime: Option<Seq<char>>) -> bool {
    mime == Some("image/jpeg"@) || mime == Some("image/png"@)
}

/// Whether the walk keeps an entry: a directory is kept, so that the walk can
/// go on below it, and every other entry is kept if its guessed media type is
/// an image type. An entry whose type cannot be guessed is not kept.
pub open spec fn entry_is_valid(entry: WalkEntry) -> bool {
    (!entry.is_file && entry.is_dir) || is_image_type(guessed_mime(entry.path@))
}

/// Whether an entry of a walk is one of the discovered files: it lies within
/// the depth that is visited, the walk keeps it, and it is no directory.
pub open spec fn entry_is_selected(entry: WalkEntry, recursive: bool) -> bool {
    &&& recursive || entry.depth <= 1
    &&& entry_is_valid(entry)
    &&& !entry.is_dir
}

/// The paths of the selected entries of a walk, in the order of the walk.
pub open spec fn selected_paths(entries: Seq<WalkEntry>, recursive: bool) -> Seq<Seq<char>>
    decreases entries.len(),
{
    if entries.len() == 0 {
        Seq::empty()
    } else {
        let before = selected_paths(entries.drop_last(), recursive);
        if entry_is_selected(entries.last(), recursive) {
            before.push(entries.last().path@)
        } else {
            before
        }
    }
}

/// The files that one input path contributes: the selected entries of a
/// directory, the path itself where it exists and is no directory, nothing
/// where nothing exists.
pub open spec fn root_files(root: RootListing, recursive: bool) -> Seq<Seq<char>> {
    if root.exists && root.is_dir {
        selected_paths(root.entries@, recursive)
    } else if root.exists {
        seq![root.path@]
    } else {
        Seq::empty()
    }
}

/// The discovered files of all input paths, in the order of the inputs.
pub open spec fn discovered(roots: Seq<RootListing>, recursive: bool) -> Seq<Seq<char>>
    decreases roots.len(),
{
    if roots.len() == 0 {
        Seq::empty()
    } else {
        discovered(roots.drop_last(), recursive) + root_files(roots.last(), recursive)
    }
}

/// The depth to which a directory is walked: its children only, unless the
/// scan is recursive, which has no limit.
pub fn walk_depth(recursive: bool) -> (limit: Option<usize>)
    ensures
        limit == if recursive { None::<usize> } else { Some(1usize) },
{
    if recursive {
        None
    } else {
        Some(1)
    }
}

/// Decides whether a guessed media type is one of the two that are compressed.
pub fn is_supported_type(mime: &Option<String>) -> (supported: bool)
    ensures
        supported == is_image_type(option_text(*mime)),
{
    match mime {
        Some(text) => {
            let jpeg = String::from_str("image/jpeg");
            let png = String::from_str("image/png");
            *text == jpeg || *text == png
        },
        None => false,
    }
}

/// Decides whether the walk keeps an entry.
pub fn is_valid(entry: &WalkEntry) -> (result: bool)
    ensures
        result == entry_is_valid(*entry),
{
    let mut result = true;
    if entry.is_file || !entry.is_dir {
        let guess = guess_mime(entry.path.as_str());
        result = is_supported_type(&guess);
    }
    result
}

/// Decides whether an entry of a walk is one of the discovered files.
pub fn is_selected(entry: &WalkEntry, recursive: bool) -> (result: bool)
    ensures
        result == entry_is_selected(*entry, recursive),
{
    (recursive || entry.depth <= 1) && is_valid(entry) && !entry.is_dir
}

/// The discovered files of a walk are its images: an entry is selected
/// exactly when it lies within the depth that is visited, is no directory,
/// and has a guessed media type that is an image type.
pub proof fn lemma_selected_entries_are_images(entry: WalkEntry, recursive: bool)
    ensures
        entry_is_selected(entry, recursive) <==> {
            &&& recursive || entry.depth <= 1
            &&& !entry.is_dir
            &&& is_image_type(guessed_mime(entry.path@))
        },
{
}

/// Whether a path is the path of a selected entry of a walk.
pub open spec fn is_path_of_selected(entries: Seq<WalkEntry>, recursive: bool, path: Seq<char>) -> bool {
    exists|k: int|
        0 <= k < entries.len() && entry_is_selected(#[trigger] entries[k], recursive)
            && entries[k].path@ == path
}

/// What a walk contributes is what its selected entries hold: every path that
/// is found is the path of a selected entry, which is never a directory and
/// never an entry of another type than the image types, and the path of every
/// selected entry is found.
pub proof fn lemma_selected_paths_are_the_selected_entries(entries: Seq<WalkEntry>, recursive: bool)
    ensures
        selected_paths(entries, recursive).len() <= entries.len(),
        forall|p: int|
            0 <= p < selected_paths(entries, recursive).len() ==> is_path_of_selected(
                entries,
                recursive,
                #[trigger] selected_paths(entries, recursive)[p],
            ),
        forall|k: int|
            0 <= k < entries.len() && entry_is_selected(#[trigger] entries[k], recursive)
                ==> selected_paths(entries, recursive).contains(entries[k].path@),
    decreases entries.len(),
{
    if entries.len() > 0 {
        let front = entries.drop_last();
        let found = selected_paths(entries, recursive);
        let before = selected_paths(front, recursive);
        lemma_selected_paths_are_the_selected_entries(front, recursive);
        assert forall|p: int| 0 <= p < found.len() implies is_path_of_selected(
            entries,
            recursive,
            #[trigger] found[p],
        ) by {
            if p < before.len() {
                assert(found[p] == before[p]);
                assert(is_path_of_selected(front, recursive, before[p]));
                let k = choose|k: int|
                    0 <= k < front.len() && entry_is_selected(#[trigger] front[k], recursive)
                        && front[k].path@ == before[p];
                assert(entries[k] == front[k]);
            } else {
                assert(entry_is_selected(entries[entries.len() - 1], recursive));
            }
        }
        assert forall|k: int|
            0 <= k < entries.len() && entry_is_selected(
                #[trigger] entries[k],
                recursive,
            ) implies found.contains(entries[k].path@) by {
            if k < front.len() {
                assert(entries[k] == front[k]);
                assert(before.contains(front[k].path@));
                let p = choose|p: int| 0 <= p < before.len() && before[p] == front[k].path@;
                assert(found[p] == before[p]);
            } else {
                assert(found[found.len() - 1] == entries[k].path@);
            }
        }
    }
}

/// Collects the files to compress from what was found at the input paths.
///
/// A path that leads to a directory contributes the selected entries of its
/// walk. Any other path that exists is taken as it is, whatever its type. A
/// path at which nothing exists is passed over.
pub fn scanfiles(roots: Vec<RootListing>, recursive: bool) -> (files: Vec<String>)
    ensures
        texts(files@) == discovered(roots@, recursive),
{
    let mut files: Vec<String> = Vec::new();
    let mut i: usize = 0;
    assert(texts(files@) =~= discovered(roots@.take(0), recursive));
    while i < roots.len()
        invariant
            i <= roots.len(),
            texts(files@) == discovered(roots@.take(i as int), recursive),
        decreases roots.len() - i,
    {
        let root = &roots[i];
        let ghost before = texts(files@);
        if root.exists && root.is_dir {
            let mut j: usize = 0;
            assert(texts(files@) =~= before + selected_paths(root.entries@.take(0), recursive));
            while j < root.entries.len()
                invariant
                    j <= root.entries.len(),
                    texts(files@) == before + selected_paths(
                        root.entries@.take(j as int),
                        recursive,
                    ),
                decreases root.entries.len() - j,
            {
                let entry = &root.entries[j];
                proof {
                    assert(root.entries@.take(j + 1).drop_last() =~= root.entries@.take(j as int));
                    lemma_texts_push(files@, entry.path);
                }
                if is_selected(entry, recursive) {
                    files.push(entry.path.clone());
                    assert(texts(files@) =~= before + selected_paths(
                        root.entries@.take(j + 1),
                        recursive,
                    ));
                }
                j += 1;
            }
            assert(root.entries@.take(j as int) =~= root.entries@);
        } else if root.exists {
            proof {
                lemma_texts_push(files@, root.path);
            }
            files.push(root.path.clone());
            assert(texts(files@) =~= before + seq![root.path@]);
        } else {
            assert(texts(files@) =~= before + Seq::<Seq<char>>::empty());
        }
        proof {
            assert(roots@.take(i + 1).drop_last() =~= roots@.take(i as int));
        }
        i += 1;
    }
    assert(roots@.take(i as int) =~= roots@);
    files
}

} // verus!

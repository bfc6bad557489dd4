//! The choice of a file: a path that names a file stands for itself, a
//! path that names a directory for one of the directory's files of a
//! wanted kind, picked at random.

use vstd::prelude::*;

verus! {

/// Why no file was found.
#[derive(Debug, Clone, Copy, PartialEq, Eq, Structural)]
pub enum FindError {
    /// The path names nothing.
    NoSuchFile,
    /// The directory holds no file of a wanted kind.
    NoFiles,
}

/// A file of a directory: its path, and the extension of its name, empty
/// where the name has none.
#[derive(Debug, Clone)]
pub struct Candidate {
    pub path: String,
    pub extension: String,
}

/// Whether an extension is among the wanted ones.
pub open spec fn wanted(extensions: Seq<String>, extension: String) -> bool {
    exists|i: int| 0 <= i < extensions.len() && (#[trigger] extensions[i])@ == extension@
}

/// The paths of the files with a wanted extension, in the directory's
/// order.
pub open spec fn matching(files: Seq<Candidate>, extensions: Seq<String>) -> Seq<String>
    decreases files.len(),
{
    if files.len() == 0 {
        Seq::empty()
    } else {
        let rest = matching(files.drop_last(), extensions);
        if wanted(extensions, files.last().extension) {
            rest.push(files.last().path)
        } else {
            rest
        }
    }
}

/// `rand::seq::IteratorRandom::choose` on the numbers below `n`, with the
/// thread's generator: one of them, or `None` if and only if there is
/// none. Which one is left open.
#[verifier::external_body]
fn choose_index(n: usize) -> (r: Option<usize>)
    ensures
        n == 0 ==> r is None,
        n > 0 ==> r is Some && r->0 < n,
{
    rand::seq::IteratorRandom::choose(0..n, &mut rand::thread_rng())
}

/// Whether an extension is among the wanted ones.
pub fn is_wanted(extensions: &Vec<String>, extension: &String) -> (r: bool)
    ensures
        r == wanted(extensions@, *extension),
{
    let mut i: usize = 0;
    while i < extensions.len()
        invariant
            i <= extensions.len(),
            forall|j: int| 0 <= j < i ==> (#[trigger] extensions@[j])@ != extension@,
        decreases extensions.len() - i,
    {
        if extensions[i] == *extension {
            return true;
        }
        i = i + 1;
    }
    false
}

/// The paths of the files with a wanted extension.
pub fn candidates(files: &Vec<Candidate>, extensions: &Vec<String>) -> (r: Vec<String>)
    ensures
        r@ == matching(files@, extensions@),
{
    let mut found: Vec<String> = Vec::new();
    let mut i: usize = 0;
    while i < files.len()
        invariant
            i <= files.len(),
            found@ == matching(files@.take(i as int), extensions@),
        decreases files.len() - i,
    {
        assert(files@.take(i + 1).drop_last() == files@.take(i as int));
        if is_wanted(extensions, &files[i].extension) {
            found.push(files[i].path.clone());
        }
        i = i + 1;
    }
    assert(files@.take(i as int) == files@);
    found
}

/// The file for a pick among the paths: the path at the pick. A pick that
/// is none, or beyond the paths, finds no file.
pub fn pick(paths: Vec<String>, picked: Option<usize>) -> (r: Result<String, FindError>)
    ensures
        r == match picked {
            Some(i) => if i < paths@.len() {
                Ok::<String, FindError>(paths@[i as int])
            } else {
                Err::<String, FindError>(FindError::NoFiles)
            },
            None => Err::<String, FindError>(FindError::NoFiles),
        },
{
    match picked {
        Some(i) => if i < paths.len() {
            Ok(paths[i].clone())
        } else {
            Err(FindError::NoFiles)
        },
        None => Err(FindError::NoFiles),
    }
}

/// Finds the file that a path stands for. `exists` says whether the path
/// names anything, and `listing` holds the files of the directory that it
/// names, or is `None` where it names a file.
pub fn find_file(
    path: String,
    exists: bool,
    listing: Option<Vec<Candidate>>,
    extensions: &Vec<String>,
) -> (r: Result<String, FindError>)
    ensures
        !exists ==> r == Err::<String, FindError>(FindError::NoSuchFile),
        exists && listing is None ==> r == Ok::<String, FindError>(path),
        exists && listing is Some ==> {
            let paths = matching(listing->0@, extensions@);
            if paths.len() == 0 {
                r == Err::<String, FindError>(FindError::NoFiles)
            } else {
                r is Ok && paths.contains(r->Ok_0)
            }
        },
{
    if !exists {
        return Err(FindError::NoSuchFile);
    }
    match listing {
        None => Ok(path),
        Some(files) => {
            let paths = candidates(&files, extensions);
            let picked = choose_index(paths.len());
            pick(paths, picked)
        },
    }
}

} // verus!

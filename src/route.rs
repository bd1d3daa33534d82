//! Deciding how a request is answered once its target has been classified.

use vstd::prelude::*;
use crate::url::joined;

verus! {

/// What the filesystem reports of a request's target.
#[derive(Clone, Copy, Debug, PartialEq, Eq, Structural)]
pub enum PathKind {
    Directory,
    RegularFile,
    /// Neither a directory nor a regular file; `exists` tells a missing path
    /// from one that is there (a device, or one whose metadata could not be
    /// read).
    Unclassified { exists: bool },
}

/// The kind of a target from what the filesystem reports of it: the directory
/// test comes first, then the regular-file test; a target that passes neither
/// is unclassified.
pub open spec fn kind_of_path(is_dir: bool, is_file: bool, exists: bool) -> PathKind {
    if is_dir {
        PathKind::Directory
    } else if is_file {
        PathKind::RegularFile
    } else {
        PathKind::Unclassified { exists }
    }
}

/// Classifies a request's target from what the filesystem reports of it.
/// `is_dir` and `is_file` are as the host reports them for the path, following
/// symbolic links; `exists` tells whether anything at all is at the path.
pub fn classify_path(is_dir: bool, is_file: bool, exists: bool) -> (r: PathKind)
    ensures
        r == kind_of_path(is_dir, is_file, exists),
{
    if is_dir {
        PathKind::Directory
    } else if is_file {
        PathKind::RegularFile
    } else {
        PathKind::Unclassified { exists }
    }
}

/// Every target is classified as exactly one of directory, regular file and
/// unclassified; a directory is never taken for a file, and a target that is
/// neither is unclassified.
pub proof fn lemma_classification_exhaustive(is_dir: bool, is_file: bool, exists: bool)
    ensures
        ({
            let k = kind_of_path(is_dir, is_file, exists);
            let d = k is Directory;
            let f = k is RegularFile;
            let u = k is Unclassified;
            (d && !f && !u) || (!d && f && !u) || (!d && !f && u)
        }),
        (kind_of_path(is_dir, is_file, exists) is Directory) == is_dir,
        (kind_of_path(is_dir, is_file, exists) is RegularFile) == (!is_dir && is_file),
        (kind_of_path(is_dir, is_file, exists) is Unclassified) == (!is_dir && !is_file),
{
}

/// How a request is answered.
#[derive(Debug)]
pub enum Reply {
    /// The HTML listing of the directory at `fs_path`.
    DirectoryListing { fs_path: String },
    /// The contents of the file at `fs_path`, streamed, under `content_type`.
    FileStream { fs_path: String, content_type: String },
    /// An error status with a plain-text message.
    Failure { status: u16, message: String },
}

/// The first media type that `mime_guess` registers for the extension of
/// `path`, if any.
pub uninterp spec fn mime_guess_of(path: Seq<char>) -> Option<Seq<char>>;

/// Relies on `mime_guess::from_path(path).first()`: a table lookup on the
/// extension of `path`, so the result depends on `path` alone.
#[verifier::external_body]
fn guess_mime(path: &str) -> (r: Option<String>)
    ensures
        match r {
            Some(m) => mime_guess_of(path@) == Some(m@),
            None => mime_guess_of(path@) is None,
        },
{
    mime_guess::from_path(path).first().map(|m| m.to_string())
}

/// The content type sent where no media type is known.
pub open spec fn fallback_content_type() -> Seq<char> {
    "application/octet-stream"@
}

/// The content type sent for a guess `guess`.
pub open spec fn content_type_of(guess: Option<Seq<char>>) -> Seq<char> {
    match guess {
        Some(m) => m,
        None => fallback_content_type(),
    }
}

/// The content type sent for a guess: the guessed media type, or
/// `application/octet-stream` where there is none.
pub fn content_type_from_guess(guess: Option<String>) -> (r: String)
    ensures
        r@ == content_type_of(
            match guess {
                Some(m) => Some(m@),
                None => None,
            },
        ),
{
    match guess {
        Some(m) => m,
        None => String::from_str("application/octet-stream"),
    }
}

/// The content type sent for the file at `path`, guessed from its name.
pub fn content_type_for(path: &str) -> (r: String)
    ensures
        r@ == content_type_of(mime_guess_of(path@)),
{
    let guess = guess_mime(path);
    content_type_from_guess(guess)
}

/// The status of a failure: 404 where nothing is at the path, 500 otherwise.
pub open spec fn failure_status(exists: bool) -> u16 {
    if exists {
        500
    } else {
        404
    }
}

/// The message of a failure on the path `fs_path`.
pub open spec fn failure_message(fs_path: Seq<char>, exists: bool) -> Seq<char> {
    if exists {
        "unhandled type. path="@ + fs_path
    } else {
        "not found. path="@ + fs_path
    }
}

/// `r` is how a target at `fs_path` of kind `kind` is answered.
pub open spec fn answers(r: Reply, fs_path: Seq<char>, kind: PathKind) -> bool {
    match kind {
        PathKind::Directory => match r {
            Reply::DirectoryListing { fs_path: p } => p@ == fs_path,
            _ => false,
        },
        PathKind::RegularFile => match r {
            Reply::FileStream { fs_path: p, content_type: t } => p@ == fs_path && t@
                == content_type_of(mime_guess_of(fs_path)),
            _ => false,
        },
        PathKind::Unclassified { exists } => match r {
            Reply::Failure { status, message } => status == failure_status(exists) && message@
                == failure_message(fs_path, exists),
            _ => false,
        },
    }
}

/// How a request whose target at `fs_path` is of kind `kind` is answered: a
/// directory by its listing, a regular file by its contents, anything else by
/// an error that names the path.
pub fn plan_reply(fs_path: &str, kind: PathKind) -> (r: Reply)
    ensures
        answers(r, fs_path@, kind),
{
    match kind {
        PathKind::Directory => Reply::DirectoryListing { fs_path: String::from_str(fs_path) },
        PathKind::RegularFile => {
            let content_type = content_type_for(fs_path);
            Reply::FileStream { fs_path: String::from_str(fs_path), content_type }
        },
        PathKind::Unclassified { exists } => {
            let mut message = if exists {
                String::from_str("unhandled type. path=")
            } else {
                String::from_str("not found. path=")
            };
            message.append(fs_path);
            Reply::Failure { status: if exists { 500 } else { 404 }, message }
        },
    }
}

/// A request that reaches no directory or regular file is answered with a
/// status outside 2xx and a message that ends with the requested path.
pub proof fn lemma_unclassified_reply_names_path(
    r: Reply,
    root: Seq<char>,
    url_path: Seq<char>,
    exists: bool,
)
    requires
        answers(r, joined(root, url_path), PathKind::Unclassified { exists }),
    ensures
        r matches Reply::Failure { status, message } && !(200 <= status < 300) && message@.len()
            >= url_path.len() && message@.subrange(
            message@.len() - url_path.len(),
            message@.len() as int,
        ) == url_path,
{
    crate::url::lemma_joined_ends_with(root, url_path);
    let p = joined(root, url_path);
    let m = failure_message(p, exists);
    assert(m.subrange(m.len() - url_path.len(), m.len() as int) =~= p.subrange(
        p.len() - url_path.len(),
        p.len() as int,
    ));
}

} // verus!

use crate::digest::{sha256_hex, sha256_hex_of};
use vstd::prelude::*;

verus! {

/// What kind of entry a path resolves to, following symbolic links.
#[derive(Clone, Copy, Debug, PartialEq, Eq, Structural)]
pub enum EntryKind {
    /// A regular file.
    File,
    /// A directory.
    Directory,
    /// Anything else: a device, a socket, a pipe.
    Other,
}

/// What a stat of a path reported: the entry's kind and its size in bytes.
#[derive(Clone, Copy, Debug, PartialEq, Eq, Structural)]
pub struct Metadata {
    pub kind: EntryKind,
    pub len: u64,
}

/// Why a filesystem call on a path failed.
#[derive(Clone, Copy, Debug, PartialEq, Eq, Structural)]
pub enum FsError {
    /// The path does not resolve to any entry.
    NotFound,
    /// Any other failure: permissions, an I/O fault, a lock.
    Io,
}

/// The filesystem call that removing a path takes.
#[derive(Clone, Copy, Debug, PartialEq, Eq, Structural)]
pub enum Removal {
    /// Delete the single regular file.
    RemoveFile,
    /// Delete the directory and everything under it.
    RemoveTree,
    /// Nothing to delete: the path is absent or of another kind.
    Nothing,
}

/// A filesystem path, stored verbatim. It holds no other state: every answer
/// is computed from what the filesystem reports at the time of the query.
pub struct File {
    path: String,
}

/// The path resolves to some entry.
pub open spec fn entry_exists(md: Result<Metadata, FsError>) -> bool {
    md is Ok
}

/// The path resolves to a regular file.
pub open spec fn entry_is_file(md: Result<Metadata, FsError>) -> bool {
    match md {
        Ok(m) => m.kind == EntryKind::File,
        Err(_) => false,
    }
}

/// The path resolves to a directory.
pub open spec fn entry_is_directory(md: Result<Metadata, FsError>) -> bool {
    match md {
        Ok(m) => m.kind == EntryKind::Directory,
        Err(_) => false,
    }
}

/// The content hash of a path: the hex SHA-256 of its content when it is a
/// regular file whose content could be read, and empty text otherwise.
pub open spec fn hash_text(
    md: Result<Metadata, FsError>,
    content: Result<Seq<u8>, FsError>,
) -> Seq<char> {
    match content {
        Ok(c) => if entry_is_file(md) {
            sha256_hex_of(c)
        } else {
            Seq::empty()
        },
        Err(_) => Seq::empty(),
    }
}

/// Two hash texts match when the first is present and both are equal.
pub open spec fn hashes_agree(a: Seq<char>, b: Seq<char>) -> bool {
    a.len() > 0 && a == b
}

/// Shallow match: both paths are regular files whose contents were read and
/// have equal SHA-256 hex digests.
pub open spec fn shallow_match(
    a_md: Result<Metadata, FsError>,
    a_content: Result<Seq<u8>, FsError>,
    b_md: Result<Metadata, FsError>,
    b_content: Result<Seq<u8>, FsError>,
) -> bool {
    entry_is_file(a_md) && entry_is_file(b_md) && match (a_content, b_content) {
        (Ok(a), Ok(b)) => sha256_hex_of(a) == sha256_hex_of(b),
        _ => false,
    }
}

/// Deep match: both paths are regular files whose contents were read and are
/// byte-for-byte equal.
pub open spec fn deep_match(
    a_md: Result<Metadata, FsError>,
    a_content: Result<Seq<u8>, FsError>,
    b_md: Result<Metadata, FsError>,
    b_content: Result<Seq<u8>, FsError>,
) -> bool {
    entry_is_file(a_md) && entry_is_file(b_md) && match (a_content, b_content) {
        (Ok(a), Ok(b)) => a == b,
        _ => false,
    }
}

/// The view of a read result: the bytes, or the error.
pub open spec fn read_view(r: Result<Vec<u8>, FsError>) -> Result<Seq<u8>, FsError> {
    match r {
        Ok(v) => Ok(v@),
        Err(e) => Err(e),
    }
}

impl View for File {
    type V = Seq<char>;

    closed spec fn view(&self) -> Seq<char> {
        self.path@
    }
}

fn bytes_equal(a: &[u8], b: &[u8]) -> (r: bool)
    ensures
        r == (a@ == b@),
{
    if a.len() != b.len() {
        return false;
    }
    let mut i: usize = 0;
    while i < a.len()
        invariant
            a@.len() == b@.len(),
            i <= a@.len(),
            forall|j: int| 0 <= j < i ==> a@[j] == b@[j],
        decreases a@.len() - i,
    {
        if a[i] != b[i] {
            return false;
        }
        i = i + 1;
    }
    assert(a@ =~= b@);
    true
}

impl File {
    /// A handle on `path`, stored as given. Nothing on disk is touched.
    pub fn new(path: &str) -> (r: File)
        ensures
            r@ == path@,
    {
        File { path: path.to_owned() }
    }

    /// The stored path.
    pub fn path(&self) -> (r: &str)
        ensures
            r@ == self@,
    {
        self.path.as_str()
    }

    /// The size in bytes of the path's target, or the error that its stat
    /// reported.
    pub fn len(md: &Result<Metadata, FsError>) -> (r: Result<u64, FsError>)
        ensures
            match *md {
                Ok(m) => r == Ok::<u64, FsError>(m.len),
                Err(e) => r == Err::<u64, FsError>(e),
            },
    {
        match md {
            Ok(m) => Ok(m.len),
            Err(e) => Err(*e),
        }
    }

    /// Whether the path resolves to any entry; a failed stat counts as absent.
    pub fn path_exists(md: &Result<Metadata, FsError>) -> (r: bool)
        ensures
            r == entry_exists(*md),
    {
        md.is_ok()
    }

    /// Whether the path resolves to a regular file; a failed stat gives `false`.
    pub fn is_file(md: &Result<Metadata, FsError>) -> (r: bool)
        ensures
            r == entry_is_file(*md),
    {
        match md {
            Ok(m) => m.kind == EntryKind::File,
            Err(_) => false,
        }
    }

    /// Whether the path resolves to a directory; a failed stat gives `false`.
    pub fn is_directory(md: &Result<Metadata, FsError>) -> (r: bool)
        ensures
            r == entry_is_directory(*md),
    {
        match md {
            Ok(m) => m.kind == EntryKind::Directory,
            Err(_) => false,
        }
    }

    /// The content hash: 64 lowercase hex digits of the SHA-256 of the content
    /// when the path is a regular file that could be read, else empty text.
    pub fn hash(md: &Result<Metadata, FsError>, content: &Result<Vec<u8>, FsError>) -> (r: String)
        ensures
            r@ == hash_text(*md, read_view(*content)),
            entry_is_file(*md) && content is Ok ==> r@.len() == 64,
    {
        if !Self::is_file(md) {
            return String::new();
        }
        match content {
            Ok(c) => sha256_hex(c.as_slice()),
            Err(_) => String::new(),
        }
    }

    /// Whether two hash texts identify the same content: the first is
    /// present and both are equal. Two empty texts do not match.
    pub fn hashes_match(a: &String, b: &String) -> (r: bool)
        ensures
            r == hashes_agree(a@, b@),
    {
        !a.as_str().is_empty() && *a == *b
    }

    /// Shallow match: both paths are regular files and their content hashes
    /// are present and equal.
    pub fn is_match(
        a_md: &Result<Metadata, FsError>,
        a_content: &Result<Vec<u8>, FsError>,
        b_md: &Result<Metadata, FsError>,
        b_content: &Result<Vec<u8>, FsError>,
    ) -> (r: bool)
        ensures
            r == shallow_match(*a_md, read_view(*a_content), *b_md, read_view(*b_content)),
    {
        if !Self::is_file(a_md) || !Self::is_file(b_md) {
            return false;
        }
        let a = Self::hash(a_md, a_content);
        let b = Self::hash(b_md, b_content);
        Self::hashes_match(&a, &b)
    }

    /// Deep match: both paths are regular files whose contents were read and
    /// are byte-for-byte equal.
    pub fn is_deep_match(
        a_md: &Result<Metadata, FsError>,
        a_content: &Result<Vec<u8>, FsError>,
        b_md: &Result<Metadata, FsError>,
        b_content: &Result<Vec<u8>, FsError>,
    ) -> (r: bool)
        ensures
            r == deep_match(*a_md, read_view(*a_content), *b_md, read_view(*b_content)),
    {
        if !Self::is_file(a_md) || !Self::is_file(b_md) {
            return false;
        }
        match (a_content, b_content) {
            (Ok(a), Ok(b)) => bytes_equal(a.as_slice(), b.as_slice()),
            _ => false,
        }
    }

    /// What removing the path takes: a single delete for a regular file, a
    /// recursive delete for a directory, and nothing at all (a success) for
    /// an absent path or an entry of another kind.
    pub fn rm(md: &Result<Metadata, FsError>) -> (r: Removal)
        ensures
            entry_is_file(*md) ==> r == Removal::RemoveFile,
            entry_is_directory(*md) ==> r == Removal::RemoveTree,
            !entry_is_file(*md) && !entry_is_directory(*md) ==> r == Removal::Nothing,
    {
        if Self::is_file(md) {
            Removal::RemoveFile
        } else if Self::is_directory(md) {
            Removal::RemoveTree
        } else {
            Removal::Nothing
        }
    }
}

/// A stat that reports a regular file answers: it exists, it is a file, it
/// is not a directory.
pub proof fn lemma_regular_file_queries(m: Metadata)
    requires
        m.kind == EntryKind::File,
    ensures
        entry_exists(Ok(m)),
        entry_is_file(Ok(m)),
        !entry_is_directory(Ok(m)),
{
}

/// A stat that reports a directory answers: it exists, it is a directory, it
/// is not a file.
pub proof fn lemma_directory_queries(m: Metadata)
    requires
        m.kind == EntryKind::Directory,
    ensures
        entry_exists(Ok(m)),
        entry_is_directory(Ok(m)),
        !entry_is_file(Ok(m)),
{
}

/// A path whose stat fails does not exist, is neither a file nor a
/// directory, and has the empty hash whatever a read of it gave.
pub proof fn lemma_absent_path_queries(e: FsError, content: Result<Seq<u8>, FsError>)
    ensures
        !entry_exists(Err(e)),
        !entry_is_file(Err(e)),
        !entry_is_directory(Err(e)),
        hash_text(Err(e), content) == Seq::<char>::empty(),
{
}

/// The hash depends on the content alone: two regular files with identical
/// bytes have the same hash.
pub proof fn lemma_hash_follows_content(
    a_md: Result<Metadata, FsError>,
    a: Seq<u8>,
    b_md: Result<Metadata, FsError>,
    b: Seq<u8>,
)
    requires
        entry_is_file(a_md),
        entry_is_file(b_md),
        a == b,
    ensures
        hash_text(a_md, Ok(a)) == hash_text(b_md, Ok(b)),
{
}

/// Two regular files with identical bytes match.
pub proof fn lemma_identical_files_match(
    a_md: Result<Metadata, FsError>,
    a: Seq<u8>,
    b_md: Result<Metadata, FsError>,
    b: Seq<u8>,
)
    requires
        entry_is_file(a_md),
        entry_is_file(b_md),
        a == b,
    ensures
        shallow_match(a_md, Ok(a), b_md, Ok(b)),
        deep_match(a_md, Ok(a), b_md, Ok(b)),
{
}

/// Neither match holds unless both paths are regular files: a file never
/// matches an absent path or a directory, whatever the reads gave.
pub proof fn lemma_match_needs_two_files(
    a_md: Result<Metadata, FsError>,
    a_content: Result<Seq<u8>, FsError>,
    b_md: Result<Metadata, FsError>,
    b_content: Result<Seq<u8>, FsError>,
)
    requires
        !entry_is_file(a_md) || !entry_is_file(b_md),
    ensures
        !shallow_match(a_md, a_content, b_md, b_content),
        !deep_match(a_md, a_content, b_md, b_content),
{
}

/// A deep match is always a shallow match: byte-equal files have equal
/// digests.
pub proof fn lemma_deep_match_implies_match(
    a_md: Result<Metadata, FsError>,
    a_content: Result<Seq<u8>, FsError>,
    b_md: Result<Metadata, FsError>,
    b_content: Result<Seq<u8>, FsError>,
)
    requires
        deep_match(a_md, a_content, b_md, b_content),
    ensures
        shallow_match(a_md, a_content, b_md, b_content),
{
}

} // verus!

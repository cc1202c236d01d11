//! Bookkeeping for temporary file paths.
//!
//! This module holds the I/O-free logic of temporary-file handling: the
//! [`TempPath`] record that tracks a path together with its keep flag, the
//! error record that hands the path back when persisting fails, random
//! temporary names, and the retry policy for creating files under fresh
//! names. The surrounding application performs the filesystem operations and
//! reports their outcomes to these functions.

use vstd::prelude::*;

verus! {

/// Number of attempts made when creating a temporary file under a random
/// name.
pub const NUM_RETRIES: u32 = 1 << 31;

/// A path to a named temporary file, with the flag that says whether the
/// file is meant to outlive this record.
#[derive(Debug)]
pub struct TempPath {
    path: String,
    keep: bool,
}

/// Error record produced when persisting a temporary file path fails: it
/// carries the failure text and hands the unchanged [`TempPath`] back.
#[derive(Debug)]
pub struct PathPersistError {
    /// Text of the underlying failure.
    pub error: String,
    /// The temporary file path that could not be persisted.
    pub path: TempPath,
}

impl TempPath {
    /// The path this record tracks.
    pub closed spec fn spec_path(&self) -> Seq<char> {
        self.path@
    }

    /// Whether the file is meant to be kept when the record is dropped.
    pub closed spec fn spec_keep(&self) -> bool {
        self.keep
    }

    /// Create a `TempPath` from an existing path, to be deleted when the
    /// record goes away. This can be done even if no file exists at the path.
    pub fn from_path(path: String) -> (r: TempPath)
        ensures
            r.spec_path() == path@,
            r.spec_keep() == false,
    {
        TempPath { path, keep: false }
    }

    /// Create a `TempPath` with an explicit keep flag.
    pub fn new(path: String, keep: bool) -> (r: TempPath)
        ensures
            r.spec_path() == path@,
            r.spec_keep() == keep,
    {
        TempPath { path, keep }
    }

    /// Read access to the tracked path.
    pub fn path(&self) -> (r: &String)
        ensures
            r@ == self.spec_path(),
    {
        &self.path
    }

    /// Whether the file is meant to be kept.
    pub fn keeps_file(&self) -> (b: bool)
        ensures
            b == self.spec_keep(),
    {
        self.keep
    }

    /// Record the outcome of persisting the temporary file at a target path
    /// by an atomic, overwriting rename. On success the record is consumed:
    /// the file now belongs to its new home. On failure the record comes back
    /// unchanged inside the error.
    pub fn persist(self, rename_outcome: Result<(), String>) -> (r: Result<(), PathPersistError>)
        ensures
            rename_outcome is Ok ==> r is Ok,
            rename_outcome matches Err(e) ==> (r matches Err(p) && p.error@ == e@
                && p.path.spec_path() == self.spec_path() && p.path.spec_keep()
                == self.spec_keep()),
    {
        match rename_outcome {
            Ok(()) => Ok(()),
            Err(e) => Err(PathPersistError { error: e, path: self }),
        }
    }

    /// Record the outcome of persisting the temporary file at a target path
    /// where an existing file must not be overwritten. The bookkeeping is the
    /// same as for [`TempPath::persist`]; only the filesystem operation whose
    /// outcome is reported differs.
    pub fn persist_noclobber(self, rename_outcome: Result<(), String>) -> (r: Result<
        (),
        PathPersistError,
    >)
        ensures
            rename_outcome is Ok ==> r is Ok,
            rename_outcome matches Err(e) ==> (r matches Err(p) && p.error@ == e@
                && p.path.spec_path() == self.spec_path() && p.path.spec_keep()
                == self.spec_keep()),
    {
        match rename_outcome {
            Ok(()) => Ok(()),
            Err(e) => Err(PathPersistError { error: e, path: self }),
        }
    }

    /// Record the outcome of marking the temporary file as non-temporary in
    /// place. On success the path is handed to the caller and the record is
    /// consumed; on failure the record comes back unchanged inside the error.
    pub fn keep(self, keep_outcome: Result<(), String>) -> (r: Result<String, PathPersistError>)
        ensures
            keep_outcome is Ok ==> (r matches Ok(p) && p@ == self.spec_path()),
            keep_outcome matches Err(e) ==> (r matches Err(p) && p.error@ == e@
                && p.path.spec_path() == self.spec_path() && p.path.spec_keep()
                == self.spec_keep()),
    {
        match keep_outcome {
            Ok(()) => Ok(self.path),
            Err(e) => Err(PathPersistError { error: e, path: self }),
        }
    }
}

/// Whether `c` is an ASCII letter or digit.
pub open spec fn is_alphanumeric_char(c: char) -> bool {
    ||| 'a' as u32 <= c as u32 <= 'z' as u32
    ||| 'A' as u32 <= c as u32 <= 'Z' as u32
    ||| '0' as u32 <= c as u32 <= '9' as u32
}

/// Relies on fastrand::alphanumeric: returns one character chosen uniformly
/// from the set `A-Z a-z 0-9`.
#[verifier::external_body]
fn random_alphanumeric() -> (c: char)
    ensures
        is_alphanumeric_char(c),
{
    fastrand::alphanumeric()
}

/// Relies on std's String::push: appends the one character to the string.
#[verifier::external_body]
fn push_char(s: &mut String, c: char)
    ensures
        final(s)@ == old(s)@.push(c),
{
    s.push(c);
}

/// Builds a temporary file name: the prefix, then `rand_len` random
/// alphanumeric characters, then the suffix.
pub fn tmpname(prefix: &str, suffix: &str, rand_len: usize) -> (name: String)
    ensures
        name@.len() == prefix@.len() + rand_len + suffix@.len(),
        name@.subrange(0, prefix@.len() as int) == prefix@,
        name@.subrange((prefix@.len() + rand_len) as int, name@.len() as int) == suffix@,
        forall|i: int|
            prefix@.len() <= i < prefix@.len() + rand_len ==> is_alphanumeric_char(
                #[trigger] name@[i],
            ),
{
    let mut buf = prefix.to_owned();
    let mut i: usize = 0;
    while i < rand_len
        invariant
            i <= rand_len,
            buf@.len() == prefix@.len() + i,
            buf@.subrange(0, prefix@.len() as int) == prefix@,
            forall|j: int|
                prefix@.len() <= j < buf@.len() ==> is_alphanumeric_char(#[trigger] buf@[j]),
        decreases rand_len - i,
    {
        let c = random_alphanumeric();
        push_char(&mut buf, c);
        proof {
            assert(buf@.subrange(0, prefix@.len() as int) =~= prefix@);
        }
        i = i + 1;
    }
    buf.append(suffix);
    proof {
        assert(buf@.subrange(0, prefix@.len() as int) =~= prefix@);
        assert(buf@.subrange((prefix@.len() + rand_len) as int, buf@.len() as int) =~= suffix@);
    }
    buf
}

/// The error classes that decide whether creating a temporary file is
/// retried under a fresh name.
#[derive(Clone, Copy, Debug, PartialEq, Eq, Structural)]
pub enum CreateErrorKind {
    /// A file with the candidate name already exists.
    AlreadyExists,
    /// The candidate path is already bound, as for a socket address.
    AddrInUse,
    /// Any other failure.
    Other,
}

/// How many names file creation may try: many while the name carries a
/// random part, exactly one when the name is fixed.
pub fn create_retry_budget(random_len: usize) -> (n: u32)
    ensures
        n == if random_len != 0 {
            NUM_RETRIES as int
        } else {
            1int
        },
{
    if random_len != 0 {
        NUM_RETRIES
    } else {
        1
    }
}

/// Whether a failed creation attempt is retried under a fresh name: only
/// name collisions are retried, and only while the budget allows more than
/// the final attempt.
pub fn create_should_retry(kind: CreateErrorKind, num_retries: u32) -> (b: bool)
    ensures
        b == (num_retries > 1 && (kind is AlreadyExists || kind is AddrInUse)),
{
    num_retries > 1 && (matches!(kind, CreateErrorKind::AlreadyExists) || matches!(
        kind,
        CreateErrorKind::AddrInUse,
    ))
}

} // verus!

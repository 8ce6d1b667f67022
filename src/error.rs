use libloading::Error as LoaderError;
use notify::Error as WatcherError;
use vstd::prelude::*;

verus! {

/// The I/O error reported by a failed filesystem step (copy, delete).
#[verifier::external_type_specification]
#[verifier::external_body]
pub struct ExIoError(std::io::Error);

/// The error reported by the dynamic-library loader.
#[verifier::external_type_specification]
#[verifier::external_body]
pub struct ExLoaderError(LoaderError);

/// The error reported by the filesystem-change notifier.
#[verifier::external_type_specification]
#[verifier::external_body]
pub struct ExWatcherError(WatcherError);

/// Every way in which an operation of this library can fail.
#[derive(Debug)]
pub enum Error {
    /// The watched path does not exist or is not a regular file.
    PathNotFound,
    /// No module is loaded: a symbol cannot be reached.
    LibraryUnloaded,
    /// A filesystem copy, read or delete failed.
    IoFailure(std::io::Error),
    /// The loader could not load (or unload) a generation file.
    LoadLibraryError(LoaderError),
    /// The loader could not resolve a named export.
    LoadSymbolError(LoaderError),
    /// The notifier could not start or stop watching.
    FileWatcherError(WatcherError),
}

pub type Result<T> = core::result::Result<T, Error>;

impl Error {
    /// The fixed, human-readable headline of each kind of error.
    pub open spec fn headline(&self) -> Seq<char> {
        match self {
            Error::PathNotFound => "Path could not be found."@,
            Error::LibraryUnloaded => "Library has been unloaded and cannot be used."@,
            Error::IoFailure(_) => "File system IO error."@,
            Error::LoadLibraryError(_) => "Could not load library."@,
            Error::LoadSymbolError(_) => "Could not load symbol."@,
            Error::FileWatcherError(_) => "File watcher error."@,
        }
    }

    /// The headline of this error, without the underlying cause.
    pub fn message(&self) -> (r: &'static str)
        ensures
            r@ == self.headline(),
    {
        match self {
            Error::PathNotFound => "Path could not be found.",
            Error::LibraryUnloaded => "Library has been unloaded and cannot be used.",
            Error::IoFailure(_) => "File system IO error.",
            Error::LoadLibraryError(_) => "Could not load library.",
            Error::LoadSymbolError(_) => "Could not load symbol.",
            Error::FileWatcherError(_) => "File watcher error.",
        }
    }
}

/// The aggregate of two steps that were both attempted: the first failure,
/// else the second outcome.
pub open spec fn first_failure(first: Result<()>, second: Result<()>) -> Result<()> {
    match first {
        Err(_) => first,
        Ok(_) => second,
    }
}

/// Aggregates the outcomes of two steps that were both attempted.
pub fn combine(first: Result<()>, second: Result<()>) -> (r: Result<()>)
    ensures
        r == first_failure(first, second),
{
    match first {
        Err(e) => Err(e),
        Ok(()) => second,
    }
}

} // verus!

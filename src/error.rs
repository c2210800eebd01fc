use vstd::prelude::*;

verus! {

/// Why a file could not be produced.
#[derive(Debug, Hash, PartialEq, Eq)]
pub enum FileError {
    /// Nothing exists at this path.
    NotFound(String),
    /// The path is not allowed, or escapes its root.
    AccessDenied,
    /// A directory was found where a file was expected.
    IsDirectory,
    /// The file is not a source file.
    NotSource,
    /// The bytes are not valid UTF-8.
    InvalidUtf8,
    /// The package holding the file could not be prepared.
    Package(String),
    /// Another failure, with a message.
    Other(String),
}

impl FileError {
    /// A copy equal to `self`.
    pub fn duplicate(&self) -> (r: FileError)
        ensures
            r == *self,
    {
        match self {
            FileError::NotFound(p) => FileError::NotFound(p.clone()),
            FileError::AccessDenied => FileError::AccessDenied,
            FileError::IsDirectory => FileError::IsDirectory,
            FileError::NotSource => FileError::NotSource,
            FileError::InvalidUtf8 => FileError::InvalidUtf8,
            FileError::Package(m) => FileError::Package(m.clone()),
            FileError::Other(m) => FileError::Other(m.clone()),
        }
    }
}

} // verus!

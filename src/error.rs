use vstd::prelude::*;
use vstd::string::*;

verus! {

/// The enumeration that a rejected ordinal was meant for.
#[derive(Clone, Copy, Debug, PartialEq, Eq, Structural)]
pub enum EnumKind {
    BorderMode,
    DataType,
    EdgeFilterMode,
    EdgeId,
    MeshType,
    MetaDataType,
}

/// The kind of index that fell outside its valid range.
#[derive(Clone, Copy, Debug, PartialEq, Eq, Structural)]
pub enum BoundsKind {
    FaceId,
    Channel,
    Edge,
    Texel,
}

/// Errors reported by caches, textures and writers.
#[derive(Clone, Debug, PartialEq, Eq)]
pub enum Error {
    /// A texture could not be opened: the path and the reason.
    OpenFailed(String, String),
    /// An ordinal outside its enumeration.
    InvalidEnum(EnumKind, i64),
    /// The first failure met while writing, reported when the writer closes.
    WriteFailed(String),
    /// An index outside its valid range.
    BoundsError(BoundsKind, i64),
}

/// What an [`Error`] says, with its strings as character sequences.
pub enum ErrorView {
    OpenFailed(Seq<char>, Seq<char>),
    InvalidEnum(EnumKind, i64),
    WriteFailed(Seq<char>),
    BoundsError(BoundsKind, i64),
}

impl View for Error {
    type V = ErrorView;

    open spec fn view(&self) -> ErrorView {
        match self {
            Error::OpenFailed(p, m) => ErrorView::OpenFailed(p@, m@),
            Error::InvalidEnum(k, v) => ErrorView::InvalidEnum(*k, *v),
            Error::WriteFailed(m) => ErrorView::WriteFailed(m@),
            Error::BoundsError(k, i) => ErrorView::BoundsError(*k, *i),
        }
    }
}

/// The reason given for a texture that failed to open without a message of its own.
pub open spec fn default_open_message(path: Seq<char>) -> Seq<char> {
    "can't open ptex file: "@ + path
}

impl Error {
    /// The error for a texture at `path` that failed to open; an empty
    /// `message` is replaced by a default one that names the path.
    pub fn open_failed(path: &str, message: &str) -> (r: Error)
        ensures
            r@ == ErrorView::OpenFailed(
                path@,
                if message@.len() == 0 {
                    default_open_message(path@)
                } else {
                    message@
                },
            ),
    {
        let reason = if message.unicode_len() == 0 {
            String::from_str("can't open ptex file: ").concat(path)
        } else {
            String::from_str(message)
        };
        Error::OpenFailed(String::from_str(path), reason)
    }
}

} // verus!

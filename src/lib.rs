//! Per-face texture data model: packed resolutions, face adjacency records,
//! an LRU cache of open texture handles and a face-by-face texture writer.
//!
//! Reading and writing texture files is left to a texture store outside
//! this crate: the cache decides which handles to open, keep and close, the
//! writer decides which faces and meta data entries are accepted, and the
//! store performs the I/O.

pub mod error;
pub mod laws;
pub mod reader;
pub mod texture;
pub mod types;
pub mod writer;

pub use error::{BoundsKind, EnumKind, Error, ErrorView};
pub use reader::{Cache, CacheView, EntryView, DEFAULT_MAX_FILES};
pub use texture::{Header, PixelRequest, Texture, TextureView};
pub use types::{
    BorderMode, DataSize, DataType, EdgeFilterMode, EdgeId, FaceInfo, MeshType, MetaDataType,
    OneValue, Res, FLAG_CONSTANT, FLAG_HAS_EDITS, FLAG_NEIGHBORHOOD_CONSTANT, FLAG_SUBFACE,
};
pub use writer::{
    Writer, WriterView, MSG_FACE_ID, MSG_META_KEY, MSG_META_SIZE, MSG_META_STRING, MSG_RESOLUTION,
    MSG_SHORT_BUFFER, MSG_STRIDE, MSG_TEXEL_TYPE, MSG_TRIANGLE_RES,
};

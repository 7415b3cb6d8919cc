use vstd::prelude::*;

use crate::error::{BoundsKind, Error, ErrorView};
use crate::types::{BorderMode, DataType, EdgeFilterMode, FaceInfo, MeshType};

verus! {

/// Header of a texture: its layout and how it is filtered.
#[derive(Clone, Copy, Debug, PartialEq, Eq, Structural)]
pub struct Header {
    pub mesh_type: MeshType,
    pub data_type: DataType,
    /// Number of channels per texel.
    pub num_channels: i32,
    /// Index of the alpha channel, or -1 when there is none.
    pub alpha_channel: i32,
    pub border_mode_u: BorderMode,
    pub border_mode_v: BorderMode,
    pub edge_filter_mode: EdgeFilterMode,
    pub has_edits: bool,
    pub has_mip_maps: bool,
}

impl Header {
    /// A header from the ordinals that a texture store reports. Ordinals are
    /// checked in the order of the parameters and the first one outside its
    /// enumeration is rejected.
    pub fn from_ordinals(
        mesh_type: u32,
        data_type: u32,
        num_channels: i32,
        alpha_channel: i32,
        border_mode_u: u32,
        border_mode_v: u32,
        edge_filter_mode: u32,
        has_edits: bool,
        has_mip_maps: bool,
    ) -> (r: Result<Header, Error>)
        ensures
            mesh_type >= 2 ==> (r matches Err(e) && e@ == ErrorView::InvalidEnum(
                crate::error::EnumKind::MeshType,
                mesh_type as i64,
            )),
            mesh_type < 2 && data_type >= 4 ==> (r matches Err(e) && e@ == ErrorView::InvalidEnum(
                crate::error::EnumKind::DataType,
                data_type as i64,
            )),
            mesh_type < 2 && data_type < 4 && border_mode_u >= 3 ==> (r matches Err(e) && e@
                == ErrorView::InvalidEnum(crate::error::EnumKind::BorderMode, border_mode_u as i64)),
            mesh_type < 2 && data_type < 4 && border_mode_u < 3 && border_mode_v >= 3 ==> (r matches Err(
                e,
            ) && e@ == ErrorView::InvalidEnum(
                crate::error::EnumKind::BorderMode,
                border_mode_v as i64,
            )),
            mesh_type < 2 && data_type < 4 && border_mode_u < 3 && border_mode_v < 3
                && edge_filter_mode >= 2 ==> (r matches Err(e) && e@ == ErrorView::InvalidEnum(
                crate::error::EnumKind::EdgeFilterMode,
                edge_filter_mode as i64,
            )),
            mesh_type < 2 && data_type < 4 && border_mode_u < 3 && border_mode_v < 3
                && edge_filter_mode < 2 ==> (r matches Ok(h) && h.mesh_type.spec_ordinal()
                == mesh_type && h.data_type.spec_ordinal() == data_type && h.num_channels
                == num_channels && h.alpha_channel == alpha_channel
                && h.border_mode_u.spec_ordinal() == border_mode_u
                && h.border_mode_v.spec_ordinal() == border_mode_v
                && h.edge_filter_mode.spec_ordinal() == edge_filter_mode && h.has_edits
                == has_edits && h.has_mip_maps == has_mip_maps),
    {
        let mesh_type = match MeshType::from_ordinal(mesh_type) {
            Ok(m) => m,
            Err(e) => return Err(e),
        };
        let data_type = match DataType::from_ordinal(data_type) {
            Ok(d) => d,
            Err(e) => return Err(e),
        };
        let border_mode_u = match BorderMode::from_ordinal(border_mode_u) {
            Ok(b) => b,
            Err(e) => return Err(e),
        };
        let border_mode_v = match BorderMode::from_ordinal(border_mode_v) {
            Ok(b) => b,
            Err(e) => return Err(e),
        };
        let edge_filter_mode = match EdgeFilterMode::from_ordinal(edge_filter_mode) {
            Ok(f) => f,
            Err(e) => return Err(e),
        };
        Ok(
            Header {
                mesh_type,
                data_type,
                num_channels,
                alpha_channel,
                border_mode_u,
                border_mode_v,
                edge_filter_mode,
                has_edits,
                has_mip_maps,
            },
        )
    }
}

/// A validated request for one texel of a texture: the face, the texel's
/// coordinates, and the window of channels to read.
#[derive(Clone, Copy, Debug, PartialEq, Eq, Structural)]
pub struct PixelRequest {
    pub face_id: i32,
    pub u: i32,
    pub v: i32,
    pub first_channel: i32,
    pub num_channels: i32,
}

/// The window `[first, first + count)` cut down to the channels `[0, total)`,
/// as its first channel and its length (possibly empty).
pub open spec fn channel_window(first: int, count: int, total: int) -> (int, int) {
    let lo = if first < 0 {
        0
    } else {
        first
    };
    let hi = if first + count > total {
        total
    } else {
        first + count
    };
    (lo, if hi > lo {
        hi - lo
    } else {
        0
    })
}

/// What a texture handle holds, as plain values.
pub struct TextureView {
    /// Handle in the texture store; none for a texture not yet written.
    pub handle: Option<u64>,
    pub path: Seq<char>,
    pub header: Header,
    /// Resolution and adjacency of each face, by face id.
    pub faces: Seq<FaceInfo>,
}

/// A texture: its header and the table of its faces, bound to a handle in
/// the texture store once it has been opened through a cache.
pub struct Texture {
    handle: Option<u64>,
    path: String,
    header: Header,
    faces: Vec<FaceInfo>,
}

impl View for Texture {
    type V = TextureView;

    closed spec fn view(&self) -> TextureView {
        TextureView { handle: self.handle, path: self.path@, header: self.header, faces: self.faces@ }
    }
}

impl Texture {
    #[verifier::type_invariant]
    spec fn face_count_fits(&self) -> bool {
        self.faces.len() <= i32::MAX
    }

    /// The texture opened at `path` with handle `handle` in the texture store.
    pub fn new(path: &str, handle: u64, header: Header, faces: Vec<FaceInfo>) -> (r: Texture)
        requires
            faces.len() <= i32::MAX,
        ensures
            r@ == (TextureView { handle: Some(handle), path: path@, header, faces: faces@ }),
    {
        Texture { handle: Some(handle), path: String::from_str(path), header, faces }
    }

    /// A texture at `path` that is bound to no handle yet.
    pub fn unbound(path: &str, header: Header, faces: Vec<FaceInfo>) -> (r: Texture)
        requires
            faces.len() <= i32::MAX,
        ensures
            r@ == (TextureView { handle: None, path: path@, header, faces: faces@ }),
    {
        Texture { handle: None, path: String::from_str(path), header, faces }
    }

    /// Is the texture bound to no handle?
    pub fn is_null(&self) -> (r: bool)
        ensures
            r == (self@.handle is None),
    {
        self.handle.is_none()
    }

    /// The handle in the texture store, if bound.
    pub fn handle(&self) -> (r: Option<u64>)
        ensures
            r == self@.handle,
    {
        self.handle
    }

    /// Path of the texture's file.
    pub fn path(&self) -> (r: String)
        ensures
            r@ == self@.path,
    {
        self.path.clone()
    }

    /// The header.
    pub fn header(&self) -> (r: Header)
        ensures
            r == self@.header,
    {
        self.header
    }

    /// Does the texture contain in-memory edits?
    pub fn has_edits(&self) -> (r: bool)
        ensures
            r == self@.header.has_edits,
    {
        self.header.has_edits
    }

    /// Does the texture have mip-maps?
    pub fn has_mip_maps(&self) -> (r: bool)
        ensures
            r == self@.header.has_mip_maps,
    {
        self.header.has_mip_maps
    }

    /// Index of the alpha channel, or -1 when there is none.
    pub fn alpha_channel(&self) -> (r: i32)
        ensures
            r == self@.header.alpha_channel,
    {
        self.header.alpha_channel
    }

    /// Number of channels per texel.
    pub fn num_channels(&self) -> (r: i32)
        ensures
            r == self@.header.num_channels,
    {
        self.header.num_channels
    }

    /// Number of faces.
    pub fn num_faces(&self) -> (r: i32)
        ensures
            r == self@.faces.len(),
    {
        proof {
            use_type_invariant(self);
        }
        self.faces.len() as i32
    }

    /// Type of the mesh that the texture is defined on.
    pub fn mesh_type(&self) -> (r: MeshType)
        ensures
            r == self@.header.mesh_type,
    {
        self.header.mesh_type
    }

    /// Type of the stored data.
    pub fn data_type(&self) -> (r: DataType)
        ensures
            r == self@.header.data_type,
    {
        self.header.data_type
    }

    /// Border mode along u.
    pub fn border_mode_u(&self) -> (r: BorderMode)
        ensures
            r == self@.header.border_mode_u,
    {
        self.header.border_mode_u
    }

    /// Border mode along v.
    pub fn border_mode_v(&self) -> (r: BorderMode)
        ensures
            r == self@.header.border_mode_v,
    {
        self.header.border_mode_v
    }

    /// How values are transformed across edges when filtering.
    pub fn edge_filter_mode(&self) -> (r: EdgeFilterMode)
        ensures
            r == self@.header.edge_filter_mode,
    {
        self.header.edge_filter_mode
    }

    /// Resolution and adjacency of face `face_id` (0 to the number of faces
    /// less one); any other id is rejected.
    pub fn face_info(&self, face_id: i32) -> (r: Result<FaceInfo, Error>)
        ensures
            0 <= face_id < self@.faces.len() ==> r == Ok::<FaceInfo, Error>(
                self@.faces[face_id as int],
            ),
            !(0 <= face_id < self@.faces.len()) ==> (r matches Err(e) && e@
                == ErrorView::BoundsError(BoundsKind::FaceId, face_id as i64)),
    {
        if face_id < 0 || face_id as usize >= self.faces.len() {
            return Err(Error::BoundsError(BoundsKind::FaceId, face_id as i64));
        }
        Ok(self.faces[face_id as usize])
    }
    /// Check a request for texel (`u`, `v`) of face `face_id`, reading
    /// `num_channels` channels from `first_channel`. The face id and the
    /// coordinates must lie within the texture and the face's resolution;
    /// the channel window is cut down to the texture's channels and must
    /// keep at least one.
    pub fn pixel_request(
        &self,
        face_id: i32,
        u: i32,
        v: i32,
        first_channel: i32,
        num_channels: i32,
    ) -> (r: Result<PixelRequest, Error>)
        ensures
            !(0 <= face_id < self@.faces.len()) ==> (r matches Err(e) && e@
                == ErrorView::BoundsError(BoundsKind::FaceId, face_id as i64)),
            0 <= face_id < self@.faces.len() ==> ({
                let res = self@.faces[face_id as int].res;
                let w = channel_window(
                    first_channel as int,
                    num_channels as int,
                    self@.header.num_channels as int,
                );
                let in_u = 0 <= res.ulog2 <= 30 && 0 <= u < res.spec_u();
                let in_v = 0 <= res.vlog2 <= 30 && 0 <= v < res.spec_v();
                let in_face = in_u && in_v;
                &&& !in_u ==> (r matches Err(e) && e@ == ErrorView::BoundsError(
                    BoundsKind::Texel,
                    u as i64,
                ))
                &&& (in_u && !in_v) ==> (r matches Err(e) && e@ == ErrorView::BoundsError(
                    BoundsKind::Texel,
                    v as i64,
                ))
                &&& (in_face && w.1 == 0) ==> (r matches Err(e) && e@ == ErrorView::BoundsError(
                    BoundsKind::Channel,
                    first_channel as i64,
                ))
                &&& (in_face && w.1 > 0) ==> r == Ok::<PixelRequest, Error>(
                    PixelRequest {
                        face_id,
                        u,
                        v,
                        first_channel: w.0 as i32,
                        num_channels: w.1 as i32,
                    },
                )
            }),
    {
        let info = match self.face_info(face_id) {
            Ok(f) => f,
            Err(e) => return Err(e),
        };
        let res = info.res;
        if res.ulog2 < 0 || res.ulog2 > 30 || u < 0 || u >= res.u() {
            return Err(Error::BoundsError(BoundsKind::Texel, u as i64));
        }
        if res.vlog2 < 0 || res.vlog2 > 30 || v < 0 || v >= res.v() {
            return Err(Error::BoundsError(BoundsKind::Texel, v as i64));
        }
        let total = self.header.num_channels as i64;
        let lo: i64 = if first_channel < 0 {
            0
        } else {
            first_channel as i64
        };
        let end: i64 = first_channel as i64 + num_channels as i64;
        let hi: i64 = if end > total {
            total
        } else {
            end
        };
        if hi <= lo {
            return Err(Error::BoundsError(BoundsKind::Channel, first_channel as i64));
        }
        Ok(
            PixelRequest {
                face_id,
                u,
                v,
                first_channel: lo as i32,
                num_channels: (hi - lo) as i32,
            },
        )
    }
}

} // verus!

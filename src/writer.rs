use vstd::arithmetic::power2::*;
use vstd::prelude::*;
use vstd::string::*;

use crate::error::{BoundsKind, EnumKind, Error, ErrorView};
use crate::texture::{Header, Texture, TextureView};
use crate::types::{
    data_size, BorderMode, DataType, EdgeFilterMode, FaceInfo, MeshType, MetaDataType, Res,
};

verus! {

/// Reason recorded for texels whose element type does not match the declared data type.
pub const MSG_TEXEL_TYPE: &'static str = "PtexWriter error: texel type does not match data type";

/// Reason recorded for a face id outside the declared face count.
pub const MSG_FACE_ID: &'static str = "PtexWriter error: faceid out of range";

/// Reason recorded for a face resolution outside 1 to 2^15 texels per axis.
pub const MSG_RESOLUTION: &'static str = "PtexWriter error: invalid face resolution";

/// Reason recorded for a triangle face whose u and v resolutions differ.
pub const MSG_TRIANGLE_RES: &'static str =
    "PtexWriter error: asymmetric face res not supported for triangle textures";

/// Reason recorded for a negative row stride or one shorter than a row.
pub const MSG_STRIDE: &'static str = "PtexWriter error: invalid stride";

/// Reason recorded for a texel buffer shorter than the face.
pub const MSG_SHORT_BUFFER: &'static str = "PtexWriter error: texel buffer too small";

/// Reason recorded for a meta data entry with an empty key.
pub const MSG_META_KEY: &'static str = "PtexWriter error: empty meta data key";

/// Reason recorded for a string meta data value without its terminating null byte.
pub const MSG_META_STRING: &'static str = "PtexWriter error: meta data string is not null-terminated";

/// Reason recorded for numeric meta data whose bytes are not `count` values of its type.
pub const MSG_META_SIZE: &'static str = "PtexWriter error: meta data size does not match its type";

/// Largest log2 resolution of a written face along either axis.
pub const MAX_FACE_LOG2: i8 = 15;

/// A resolution that a face may be written with.
pub open spec fn valid_face_res(res: Res) -> bool {
    0 <= res.ulog2 <= MAX_FACE_LOG2 && 0 <= res.vlog2 <= MAX_FACE_LOG2
}

/// Bytes in one row of texels of a face.
pub open spec fn row_bytes(h: Header, res: Res) -> int {
    res.spec_u() * h.num_channels * data_size(h.data_type)
}

/// Bytes a texel buffer needs for a face, rows `stride` bytes apart
/// (packed rows when `stride` is zero).
pub open spec fn required_bytes(h: Header, res: Res, stride: int) -> int {
    if stride == 0 {
        row_bytes(h, res) * res.spec_v()
    } else {
        stride * (res.spec_v() - 1) + row_bytes(h, res)
    }
}

/// Size in bytes of one value of a meta data type.
pub open spec fn meta_size(t: MetaDataType) -> int {
    match t {
        MetaDataType::String => 1,
        MetaDataType::Int8 => 1,
        MetaDataType::Int16 => 2,
        MetaDataType::Int32 => 4,
        MetaDataType::Float => 4,
        MetaDataType::Double => 8,
    }
}

/// The state of a writer as plain values.
pub struct WriterView {
    pub path: Seq<char>,
    pub header: Header,
    /// The face table: what was last written for each face id, a face of
    /// resolution 1x1 with no neighbours for a face not yet written.
    pub faces: Seq<FaceInfo>,
    /// Which faces have been written.
    pub written: Seq<bool>,
    /// The first failure met, kept until the writer closes.
    pub first_error: Option<Seq<char>>,
    pub closed: bool,
}

impl WriterView {
    /// One written flag per face, a face count that fits an `i32`, at least one channel.
    pub open spec fn wf(self) -> bool {
        &&& self.written.len() == self.faces.len()
        &&& self.faces.len() <= i32::MAX
        &&& self.header.num_channels > 0
    }

    /// Why writing face `face_id` with resolution `res` fails, if it does.
    /// `elem_width` is the byte width of the buffer's elements, 0 for raw
    /// bytes of the declared type; `nbytes` is the buffer's length in bytes.
    pub open spec fn face_fault(
        self,
        face_id: int,
        res: Res,
        elem_width: int,
        nbytes: int,
        stride: int,
    ) -> Option<Seq<char>> {
        if elem_width != 0 && elem_width != data_size(self.header.data_type) {
            Some(MSG_TEXEL_TYPE@)
        } else if !(0 <= face_id < self.faces.len()) {
            Some(MSG_FACE_ID@)
        } else if !valid_face_res(res) {
            Some(MSG_RESOLUTION@)
        } else if self.header.mesh_type == MeshType::Triangle && res.ulog2 != res.vlog2 {
            Some(MSG_TRIANGLE_RES@)
        } else if stride < 0 || (stride != 0 && stride < row_bytes(self.header, res)) {
            Some(MSG_STRIDE@)
        } else if nbytes < required_bytes(self.header, res, stride) {
            Some(MSG_SHORT_BUFFER@)
        } else {
            None
        }
    }

    /// Keep `message` as the failure to report, unless one is kept already.
    pub open spec fn record(self, message: Seq<char>) -> WriterView {
        WriterView {
            first_error: if self.first_error is None {
                Some(message)
            } else {
                self.first_error
            },
            ..self
        }
    }

    /// Write face `face_id`: on success its entry in the face table becomes
    /// `info`; on failure the reason is recorded. A closed writer refuses
    /// and records nothing.
    pub open spec fn spec_write_face(
        self,
        face_id: int,
        info: FaceInfo,
        elem_width: int,
        nbytes: int,
        stride: int,
    ) -> (WriterView, bool) {
        if self.closed {
            (self, false)
        } else {
            match self.face_fault(face_id, info.res, elem_width, nbytes, stride) {
                Some(m) => (self.record(m), false),
                None => (
                    WriterView {
                        faces: self.faces.update(face_id, info),
                        written: self.written.update(face_id, true),
                        ..self
                    },
                    true,
                ),
            }
        }
    }

    /// Why a meta data entry is refused, if it is: an empty key; a string
    /// without its terminating null byte; numeric data that is not `count`
    /// (at least one) values of its type.
    pub open spec fn meta_fault(
        self,
        key: Seq<char>,
        t: MetaDataType,
        data: Seq<u8>,
        count: int,
    ) -> Option<Seq<char>> {
        if key.len() == 0 {
            Some(MSG_META_KEY@)
        } else if t == MetaDataType::String {
            if data.len() > 0 && data.last() == 0 {
                None
            } else {
                Some(MSG_META_STRING@)
            }
        } else if count >= 1 && data.len() == count * meta_size(t) {
            None
        } else {
            Some(MSG_META_SIZE@)
        }
    }

    /// Accept a meta data entry, or record why it is refused. A closed
    /// writer refuses and records nothing.
    pub open spec fn spec_write_meta_data(
        self,
        key: Seq<char>,
        t: MetaDataType,
        data: Seq<u8>,
        count: int,
    ) -> (WriterView, bool) {
        if self.closed {
            (self, false)
        } else {
            match self.meta_fault(key, t, data, count) {
                Some(m) => (self.record(m), false),
                None => (self, true),
            }
        }
    }

    /// Close: the first time, report the kept failure if there is one;
    /// afterwards, report nothing.
    pub open spec fn spec_close(self) -> (WriterView, Option<Seq<char>>) {
        if self.closed {
            (self, None)
        } else {
            (WriterView { closed: true, ..self }, self.first_error)
        }
    }

    /// The texture that the writer describes, bound to no handle.
    pub open spec fn spec_texture(self) -> TextureView {
        TextureView { handle: None, path: self.path, header: self.header, faces: self.faces }
    }
}

/// Bounds on the bytes of a face of at most 2^15 by 2^15 texels.
proof fn lemma_face_bytes(u: int, v: int, nch: int, ds: int, stride: int)
    requires
        1 <= u <= 0x8000,
        1 <= v <= 0x8000,
        1 <= nch <= 0x7fff_ffff,
        1 <= ds <= 4,
        0 <= stride <= 0x7fff_ffff,
    ensures
        0 < u * nch < 0x1_0000_0000_0000,
        0 < u * nch * ds < 0x1_0000_0000_0000,
        0 < u * nch * ds * v < 0x1_0000_0000_0000_0000_0000,
        0 <= stride * (v - 1) < 0x1_0000_0000_0000,
{
    assert(0 < u * nch < 0x1_0000_0000_0000) by (nonlinear_arith)
        requires
            1 <= u <= 0x8000,
            1 <= nch <= 0x7fff_ffff,
    ;
    assert(0 < u * nch * ds < 0x1_0000_0000_0000) by (nonlinear_arith)
        requires
            1 <= u <= 0x8000,
            1 <= nch <= 0x7fff_ffff,
            1 <= ds <= 4,
    ;
    assert(0 < u * nch * ds * v < 0x1_0000_0000_0000_0000_0000) by (nonlinear_arith)
        requires
            0 < u * nch * ds < 0x1_0000_0000_0000,
            1 <= v <= 0x8000,
    ;
    assert(0 <= stride * (v - 1) < 0x1_0000_0000_0000) by (nonlinear_arith)
        requires
            1 <= v <= 0x8000,
            0 <= stride <= 0x7fff_ffff,
    ;
}

/// Writes a texture face by face.
///
/// The writer checks each face and meta data entry before it is handed to
/// the texture store. A refused write leaves the writer usable; the first
/// failure is kept and reported when the writer is closed.
pub struct Writer {
    path: String,
    header: Header,
    faces: Vec<FaceInfo>,
    written: Vec<bool>,
    first_error: Option<String>,
    closed: bool,
}

impl View for Writer {
    type V = WriterView;

    closed spec fn view(&self) -> WriterView {
        WriterView {
            path: self.path@,
            header: self.header,
            faces: self.faces@,
            written: self.written@,
            first_error: match self.first_error {
                Some(s) => Some(s@),
                None => None,
            },
            closed: self.closed,
        }
    }
}

impl Writer {
    /// The writer's bookkeeping agrees with its face table.
    pub open spec fn wf(&self) -> bool {
        self@.wf()
    }

    /// Open a writer for a texture at `path` of `num_faces` faces, each texel
    /// holding `num_channels` values of the data type with ordinal
    /// `data_type`, on a mesh of the type with ordinal `mesh_type`;
    /// `alpha_channel` is the alpha channel's index, or -1 for none. With
    /// `generate_mipmaps` the written texture is declared to have mip-maps.
    /// Checked in this order, the first failure is returned: each ordinal
    /// must name a variant; there must be a channel; the alpha channel must
    /// be one of them or -1; the face count must not be negative.
    pub fn new(
        path: &str,
        mesh_type: u32,
        data_type: u32,
        num_channels: i32,
        alpha_channel: i32,
        num_faces: i32,
        generate_mipmaps: bool,
    ) -> (r: Result<Writer, Error>)
        ensures
            mesh_type >= 2 ==> (r matches Err(e) && e@ == ErrorView::InvalidEnum(
                EnumKind::MeshType,
                mesh_type as i64,
            )),
            mesh_type < 2 && data_type >= 4 ==> (r matches Err(e) && e@ == ErrorView::InvalidEnum(
                EnumKind::DataType,
                data_type as i64,
            )),
            mesh_type < 2 && data_type < 4 && num_channels <= 0 ==> (r matches Err(e) && e@
                == ErrorView::BoundsError(BoundsKind::Channel, num_channels as i64)),
            mesh_type < 2 && data_type < 4 && num_channels > 0 && alpha_channel != -1 && !(0
                <= alpha_channel < num_channels) ==> (r matches Err(e) && e@
                == ErrorView::BoundsError(BoundsKind::Channel, alpha_channel as i64)),
            mesh_type < 2 && data_type < 4 && num_channels > 0 && (alpha_channel == -1 || 0
                <= alpha_channel < num_channels) && num_faces < 0 ==> (r matches Err(e) && e@
                == ErrorView::BoundsError(BoundsKind::FaceId, num_faces as i64)),
            mesh_type < 2 && data_type < 4 && num_channels > 0 && (alpha_channel == -1 || 0
                <= alpha_channel < num_channels) && num_faces >= 0 ==> (r matches Ok(w) && {
                &&& w.wf()
                &&& w@.path == path@
                &&& w@.header.mesh_type.spec_ordinal() == mesh_type
                &&& w@.header.data_type.spec_ordinal() == data_type
                &&& w@.header.num_channels == num_channels
                &&& w@.header.alpha_channel == alpha_channel
                &&& w@.header.border_mode_u == BorderMode::Clamp
                &&& w@.header.border_mode_v == BorderMode::Clamp
                &&& w@.header.edge_filter_mode == EdgeFilterMode::NoTransform
                &&& !w@.header.has_edits
                &&& w@.header.has_mip_maps == generate_mipmaps
                &&& w@.faces.len() == num_faces
                &&& forall|i: int| 0 <= i < num_faces ==> (#[trigger] w@.faces[i]).is_blank()
                &&& forall|i: int| 0 <= i < num_faces ==> !(#[trigger] w@.written[i])
                &&& w@.first_error is None
                &&& !w@.closed
            }),
    {
        let mesh_type = match MeshType::from_ordinal(mesh_type) {
            Ok(m) => m,
            Err(e) => return Err(e),
        };
        let data_type = match DataType::from_ordinal(data_type) {
            Ok(d) => d,
            Err(e) => return Err(e),
        };
        if num_channels <= 0 {
            return Err(Error::BoundsError(BoundsKind::Channel, num_channels as i64));
        }
        if alpha_channel != -1 && (alpha_channel < 0 || alpha_channel >= num_channels) {
            return Err(Error::BoundsError(BoundsKind::Channel, alpha_channel as i64));
        }
        if num_faces < 0 {
            return Err(Error::BoundsError(BoundsKind::FaceId, num_faces as i64));
        }
        let mut faces: Vec<FaceInfo> = Vec::new();
        let mut written: Vec<bool> = Vec::new();
        let mut i: i32 = 0;
        while i < num_faces
            invariant
                0 <= i <= num_faces,
                faces@.len() == i,
                written@.len() == i,
                forall|k: int| 0 <= k < i ==> (#[trigger] faces@[k]).is_blank(),
                forall|k: int| 0 <= k < i ==> !(#[trigger] written@[k]),
            decreases num_faces - i,
        {
            faces.push(FaceInfo::new());
            written.push(false);
            i = i + 1;
        }
        let header = Header {
            mesh_type,
            data_type,
            num_channels,
            alpha_channel,
            border_mode_u: BorderMode::Clamp,
            border_mode_v: BorderMode::Clamp,
            edge_filter_mode: EdgeFilterMode::NoTransform,
            has_edits: false,
            has_mip_maps: generate_mipmaps,
        };
        Ok(
            Writer {
                path: String::from_str(path),
                header,
                faces,
                written,
                first_error: None,
                closed: false,
            },
        )
    }

    /// Why a face write fails, if it does (see [`WriterView::face_fault`]).
    fn face_fault(&self, face_id: i32, res: Res, elem_width: u8, nbytes: u128, stride: i32) -> (r:
        Option<String>)
        requires
            self.wf(),
        ensures
            match r {
                Some(m) => self@.face_fault(
                    face_id as int,
                    res,
                    elem_width as int,
                    nbytes as int,
                    stride as int,
                ) == Some(m@),
                None => self@.face_fault(
                    face_id as int,
                    res,
                    elem_width as int,
                    nbytes as int,
                    stride as int,
                ) is None,
            },
    {
        let ds = crate::types::DataSize::get(self.header.data_type);
        if elem_width != 0 && elem_width as i32 != ds {
            return Some(String::from_str(MSG_TEXEL_TYPE));
        }
        if face_id < 0 || face_id as usize >= self.faces.len() {
            return Some(String::from_str(MSG_FACE_ID));
        }
        if res.ulog2 < 0 || res.ulog2 > MAX_FACE_LOG2 || res.vlog2 < 0 || res.vlog2 > MAX_FACE_LOG2 {
            return Some(String::from_str(MSG_RESOLUTION));
        }
        if self.header.mesh_type == MeshType::Triangle && res.ulog2 != res.vlog2 {
            return Some(String::from_str(MSG_TRIANGLE_RES));
        }
        let u = res.u();
        let v = res.v();
        proof {
            lemma2_to64();
            if res.ulog2 < 15 {
                lemma_pow2_strictly_increases(res.ulog2 as nat, 15);
            }
            if res.vlog2 < 15 {
                lemma_pow2_strictly_increases(res.vlog2 as nat, 15);
            }
            lemma_face_bytes(
                u as int,
                v as int,
                self.header.num_channels as int,
                ds as int,
                if stride >= 0 {
                    stride as int
                } else {
                    0
                },
            );
        }
        let row: u128 = (u as u128) * (self.header.num_channels as u128) * (ds as u128);
        if stride < 0 || (stride != 0 && (stride as u128) < row) {
            return Some(String::from_str(MSG_STRIDE));
        }
        let need: u128 = if stride == 0 {
            row * (v as u128)
        } else {
            (stride as u128) * ((v - 1) as u128) + row
        };
        if nbytes < need {
            return Some(String::from_str(MSG_SHORT_BUFFER));
        }
        None
    }

    /// Keep `message` as the failure to report unless one is kept already.
    fn keep_first(&mut self, message: String)
        requires
            old(self).wf(),
        ensures
            final(self).wf(),
            final(self)@ == old(self)@.record(message@),
    {
        if self.first_error.is_none() {
            self.first_error = Some(message);
        }
    }

    fn write_face_checked(
        &mut self,
        face_id: i32,
        face_info: &FaceInfo,
        elem_width: u8,
        nbytes: u128,
        stride: i32,
    ) -> (r: bool)
        requires
            old(self).wf(),
        ensures
            final(self).wf(),
            (final(self)@, r) == old(self)@.spec_write_face(
                face_id as int,
                *face_info,
                elem_width as int,
                nbytes as int,
                stride as int,
            ),
    {
        if self.closed {
            return false;
        }
        match self.face_fault(face_id, face_info.res, elem_width, nbytes, stride) {
            Some(m) => {
                self.keep_first(m);
                false
            },
            None => {
                self.faces.set(face_id as usize, *face_info);
                self.written.set(face_id as usize, true);
                true
            },
        }
    }

    /// Write face `face_id` from 8-bit texels, channel-interleaved, in
    /// v-major rows `stride` bytes apart (0 for packed rows). The declared
    /// data type must be 8-bit. On failure, returns false and keeps the
    /// reason for [`Writer::close`]; the writer stays usable.
    pub fn write_face(&mut self, face_id: i32, face_info: &FaceInfo, data: &[u8], stride: i32) -> (r:
        bool)
        requires
            old(self).wf(),
        ensures
            final(self).wf(),
            (final(self)@, r) == old(self)@.spec_write_face(
                face_id as int,
                *face_info,
                1,
                data@.len() as int,
                stride as int,
            ),
    {
        self.write_face_checked(face_id, face_info, 1, data.len() as u128, stride)
    }

    /// Write face `face_id` from 16-bit texels, as [`Writer::write_face`]
    /// does; the declared data type must be 16 bits wide.
    pub fn write_face_u16(
        &mut self,
        face_id: i32,
        face_info: &FaceInfo,
        data: &[u16],
        stride: i32,
    ) -> (r: bool)
        requires
            old(self).wf(),
        ensures
            final(self).wf(),
            (final(self)@, r) == old(self)@.spec_write_face(
                face_id as int,
                *face_info,
                2,
                2 * data@.len() as int,
                stride as int,
            ),
    {
        self.write_face_checked(face_id, face_info, 2, 2 * (data.len() as u128), stride)
    }

    /// Write face `face_id` from the raw bytes of texels whose values are
    /// `elem_width` bytes wide, as [`Writer::write_face`] does. The width
    /// must be that of the declared data type; 0 leaves it unchecked.
    pub fn write_face_bytes(
        &mut self,
        face_id: i32,
        face_info: &FaceInfo,
        data: &[u8],
        elem_width: u8,
        stride: i32,
    ) -> (r: bool)
        requires
            old(self).wf(),
        ensures
            final(self).wf(),
            (final(self)@, r) == old(self)@.spec_write_face(
                face_id as int,
                *face_info,
                elem_width as int,
                data@.len() as int,
                stride as int,
            ),
    {
        self.write_face_checked(face_id, face_info, elem_width, data.len() as u128, stride)
    }

    /// Check a meta data entry: `count` values of `meta_type` as raw bytes,
    /// or for a string its bytes with the terminating null byte. On failure,
    /// returns false and keeps the reason for [`Writer::close`].
    pub fn write_meta_data(
        &mut self,
        key: &str,
        meta_type: MetaDataType,
        data: &[u8],
        count: usize,
    ) -> (r: bool)
        requires
            old(self).wf(),
        ensures
            final(self).wf(),
            (final(self)@, r) == old(self)@.spec_write_meta_data(
                key@,
                meta_type,
                data@,
                count as int,
            ),
    {
        if self.closed {
            return false;
        }
        let fault: Option<String> = if key.unicode_len() == 0 {
            Some(String::from_str(MSG_META_KEY))
        } else if meta_type == MetaDataType::String {
            if data.len() > 0 && data[data.len() - 1] == 0 {
                None
            } else {
                Some(String::from_str(MSG_META_STRING))
            }
        } else {
            let n = count as u128;
            let bytes: u128 = match meta_type {
                MetaDataType::Int16 => 2 * n,
                MetaDataType::Int32 => 4 * n,
                MetaDataType::Float => 4 * n,
                MetaDataType::Double => 8 * n,
                _ => n,
            };
            if count >= 1 && data.len() as u128 == bytes {
                None
            } else {
                Some(String::from_str(MSG_META_SIZE))
            }
        };
        match fault {
            Some(m) => {
                self.keep_first(m);
                false
            },
            None => true,
        }
    }

    /// Keep a failure reported by the texture store, unless one is kept already.
    pub fn record_error(&mut self, message: &str)
        requires
            old(self).wf(),
        ensures
            final(self).wf(),
            final(self)@ == old(self)@.record(message@),
    {
        self.keep_first(String::from_str(message));
    }

    /// Close the writer. The first time, reports the first failure met while
    /// writing, if any; closing again does nothing and reports nothing.
    pub fn close(&mut self) -> (r: Result<(), Error>)
        requires
            old(self).wf(),
        ensures
            final(self).wf(),
            final(self)@ == old(self)@.spec_close().0,
            match old(self)@.spec_close().1 {
                None => r is Ok,
                Some(m) => r matches Err(e) && e@ == ErrorView::WriteFailed(m),
            },
    {
        if self.closed {
            return Ok(());
        }
        self.closed = true;
        match &self.first_error {
            Some(m) => Err(Error::WriteFailed(m.clone())),
            None => Ok(()),
        }
    }

    /// The texture that the writer describes: its path, header and face
    /// table, bound to no handle.
    pub fn texture(&self) -> (r: Texture)
        requires
            self.wf(),
        ensures
            r@ == self@.spec_texture(),
    {
        let mut faces: Vec<FaceInfo> = Vec::new();
        let mut i: usize = 0;
        while i < self.faces.len()
            invariant
                i <= self.faces.len(),
                faces@ == self.faces@.subrange(0, i as int),
            decreases self.faces.len() - i,
        {
            faces.push(self.faces[i]);
            i = i + 1;
            assert(faces@ =~= self.faces@.subrange(0, i as int));
        }
        assert(self.faces@.subrange(0, i as int) =~= self.faces@);
        Texture::unbound(self.path.as_str(), self.header, faces)
    }
}

} // verus!

use vstd::arithmetic::power2::*;
use vstd::prelude::*;

use crate::error::{BoundsKind, EnumKind, Error, ErrorView};

verus! {

/// How texel access behaves past the border of a mesh.
#[derive(Clone, Copy, Debug, PartialEq, Eq, Structural)]
pub enum BorderMode {
    /// Texel access is clamped to the border.
    Clamp,
    /// Texels beyond the border are black.
    Black,
    /// Texel access wraps to the other side of the face.
    Periodic,
}

impl BorderMode {
    /// Position of the variant in its enumeration.
    pub open spec fn spec_ordinal(self) -> u32 {
        match self {
            BorderMode::Clamp => 0,
            BorderMode::Black => 1,
            BorderMode::Periodic => 2,
        }
    }

    /// Position of the variant in its enumeration.
    pub fn ordinal(&self) -> (r: u32)
        ensures
            r == self.spec_ordinal(),
    {
        match self {
            BorderMode::Clamp => 0,
            BorderMode::Black => 1,
            BorderMode::Periodic => 2,
        }
    }

    /// The variant at position `value`; an ordinal past the last variant is rejected.
    pub fn from_ordinal(value: u32) -> (r: Result<BorderMode, Error>)
        ensures
            match r {
                Ok(x) => value < 3 && x.spec_ordinal() == value,
                Err(e) => value >= 3 && e@ == ErrorView::InvalidEnum(EnumKind::BorderMode, value as i64),
            },
    {
        if value == 0 {
            Ok(BorderMode::Clamp)
        } else if value == 1 {
            Ok(BorderMode::Black)
        } else if value == 2 {
            Ok(BorderMode::Periodic)
        } else {
            Err(Error::InvalidEnum(EnumKind::BorderMode, value as i64))
        }
    }
}

/// Type of the data stored in a texture.
#[derive(Clone, Copy, Debug, PartialEq, Eq, Structural)]
pub enum DataType {
    /// Unsigned 8-bit integer.
    UInt8,
    /// Unsigned 16-bit integer.
    UInt16,
    /// Half-precision (16-bit) floating point.
    Float16,
    /// Single-precision (32-bit) floating point.
    Float32,
}

impl DataType {
    /// Position of the variant in its enumeration.
    pub open spec fn spec_ordinal(self) -> u32 {
        match self {
            DataType::UInt8 => 0,
            DataType::UInt16 => 1,
            DataType::Float16 => 2,
            DataType::Float32 => 3,
        }
    }

    /// Position of the variant in its enumeration.
    pub fn ordinal(&self) -> (r: u32)
        ensures
            r == self.spec_ordinal(),
    {
        match self {
            DataType::UInt8 => 0,
            DataType::UInt16 => 1,
            DataType::Float16 => 2,
            DataType::Float32 => 3,
        }
    }

    /// The variant at position `value`; an ordinal past the last variant is rejected.
    pub fn from_ordinal(value: u32) -> (r: Result<DataType, Error>)
        ensures
            match r {
                Ok(x) => value < 4 && x.spec_ordinal() == value,
                Err(e) => value >= 4 && e@ == ErrorView::InvalidEnum(EnumKind::DataType, value as i64),
            },
    {
        if value == 0 {
            Ok(DataType::UInt8)
        } else if value == 1 {
            Ok(DataType::UInt16)
        } else if value == 2 {
            Ok(DataType::Float16)
        } else if value == 3 {
            Ok(DataType::Float32)
        } else {
            Err(Error::InvalidEnum(EnumKind::DataType, value as i64))
        }
    }
}

/// How values are transformed across edges when filtering.
#[derive(Clone, Copy, Debug, PartialEq, Eq, Structural)]
pub enum EdgeFilterMode {
    /// Values are left as they are.
    NoTransform,
    /// Values are tangent-space vectors and are rotated.
    TangentVector,
}

impl EdgeFilterMode {
    /// Position of the variant in its enumeration.
    pub open spec fn spec_ordinal(self) -> u32 {
        match self {
            EdgeFilterMode::NoTransform => 0,
            EdgeFilterMode::TangentVector => 1,
        }
    }

    /// Position of the variant in its enumeration.
    pub fn ordinal(&self) -> (r: u32)
        ensures
            r == self.spec_ordinal(),
    {
        match self {
            EdgeFilterMode::NoTransform => 0,
            EdgeFilterMode::TangentVector => 1,
        }
    }

    /// The variant at position `value`; an ordinal past the last variant is rejected.
    pub fn from_ordinal(value: u32) -> (r: Result<EdgeFilterMode, Error>)
        ensures
            match r {
                Ok(x) => value < 2 && x.spec_ordinal() == value,
                Err(e) => value >= 2 && e@ == ErrorView::InvalidEnum(EnumKind::EdgeFilterMode, value as i64),
            },
    {
        if value == 0 {
            Ok(EdgeFilterMode::NoTransform)
        } else if value == 1 {
            Ok(EdgeFilterMode::TangentVector)
        } else {
            Err(Error::InvalidEnum(EnumKind::EdgeFilterMode, value as i64))
        }
    }
}

/// Edge of a face, in counter-clockwise order from the bottom edge.
#[derive(Clone, Copy, Debug, PartialEq, Eq, Structural)]
pub enum EdgeId {
    /// From UV (0,0) to (1,0).
    Bottom,
    /// From UV (1,0) to (1,1).
    Right,
    /// From UV (1,1) to (0,1).
    Top,
    /// From UV (0,1) to (0,0).
    Left,
}

impl EdgeId {
    /// Position of the variant in its enumeration.
    pub open spec fn spec_ordinal(self) -> u32 {
        match self {
            EdgeId::Bottom => 0,
            EdgeId::Right => 1,
            EdgeId::Top => 2,
            EdgeId::Left => 3,
        }
    }

    /// Position of the variant in its enumeration.
    pub fn ordinal(&self) -> (r: u32)
        ensures
            r == self.spec_ordinal(),
    {
        match self {
            EdgeId::Bottom => 0,
            EdgeId::Right => 1,
            EdgeId::Top => 2,
            EdgeId::Left => 3,
        }
    }

    /// The variant at position `value`; an ordinal past the last variant is rejected.
    pub fn from_ordinal(value: u32) -> (r: Result<EdgeId, Error>)
        ensures
            match r {
                Ok(x) => value < 4 && x.spec_ordinal() == value,
                Err(e) => value >= 4 && e@ == ErrorView::InvalidEnum(EnumKind::EdgeId, value as i64),
            },
    {
        if value == 0 {
            Ok(EdgeId::Bottom)
        } else if value == 1 {
            Ok(EdgeId::Right)
        } else if value == 2 {
            Ok(EdgeId::Top)
        } else if value == 3 {
            Ok(EdgeId::Left)
        } else {
            Err(Error::InvalidEnum(EnumKind::EdgeId, value as i64))
        }
    }
}

/// Type of the base mesh on which textures are defined.
#[derive(Clone, Copy, Debug, PartialEq, Eq, Structural)]
pub enum MeshType {
    /// Triangle-based mesh, with triangular textures.
    Triangle,
    /// Quad-based mesh, with rectangular textures.
    Quad,
}

impl MeshType {
    /// Position of the variant in its enumeration.
    pub open spec fn spec_ordinal(self) -> u32 {
        match self {
            MeshType::Triangle => 0,
            MeshType::Quad => 1,
        }
    }

    /// Position of the variant in its enumeration.
    pub fn ordinal(&self) -> (r: u32)
        ensures
            r == self.spec_ordinal(),
    {
        match self {
            MeshType::Triangle => 0,
            MeshType::Quad => 1,
        }
    }

    /// The variant at position `value`; an ordinal past the last variant is rejected.
    pub fn from_ordinal(value: u32) -> (r: Result<MeshType, Error>)
        ensures
            match r {
                Ok(x) => value < 2 && x.spec_ordinal() == value,
                Err(e) => value >= 2 && e@ == ErrorView::InvalidEnum(EnumKind::MeshType, value as i64),
            },
    {
        if value == 0 {
            Ok(MeshType::Triangle)
        } else if value == 1 {
            Ok(MeshType::Quad)
        } else {
            Err(Error::InvalidEnum(EnumKind::MeshType, value as i64))
        }
    }
}

/// Type of a meta data entry.
#[derive(Clone, Copy, Debug, PartialEq, Eq, Structural)]
pub enum MetaDataType {
    /// Null-terminated string.
    String,
    /// Signed 8-bit integers.
    Int8,
    /// Signed 16-bit integers.
    Int16,
    /// Signed 32-bit integers.
    Int32,
    /// Single-precision floating point numbers.
    Float,
    /// Double-precision floating point numbers.
    Double,
}

impl MetaDataType {
    /// Position of the variant in its enumeration.
    pub open spec fn spec_ordinal(self) -> u32 {
        match self {
            MetaDataType::String => 0,
            MetaDataType::Int8 => 1,
            MetaDataType::Int16 => 2,
            MetaDataType::Int32 => 3,
            MetaDataType::Float => 4,
            MetaDataType::Double => 5,
        }
    }

    /// Position of the variant in its enumeration.
    pub fn ordinal(&self) -> (r: u32)
        ensures
            r == self.spec_ordinal(),
    {
        match self {
            MetaDataType::String => 0,
            MetaDataType::Int8 => 1,
            MetaDataType::Int16 => 2,
            MetaDataType::Int32 => 3,
            MetaDataType::Float => 4,
            MetaDataType::Double => 5,
        }
    }

    /// The variant at position `value`; an ordinal past the last variant is rejected.
    pub fn from_ordinal(value: u32) -> (r: Result<MetaDataType, Error>)
        ensures
            match r {
                Ok(x) => value < 6 && x.spec_ordinal() == value,
                Err(e) => value >= 6 && e@ == ErrorView::InvalidEnum(EnumKind::MetaDataType, value as i64),
            },
    {
        if value == 0 {
            Ok(MetaDataType::String)
        } else if value == 1 {
            Ok(MetaDataType::Int8)
        } else if value == 2 {
            Ok(MetaDataType::Int16)
        } else if value == 3 {
            Ok(MetaDataType::Int32)
        } else if value == 4 {
            Ok(MetaDataType::Float)
        } else if value == 5 {
            Ok(MetaDataType::Double)
        } else {
            Err(Error::InvalidEnum(EnumKind::MetaDataType, value as i64))
        }
    }
}

/// The byte that stores a log2 magnitude in the packed form (two's complement).
pub open spec fn log2_byte(l: i8) -> int {
    if l >= 0 {
        l as int
    } else {
        l + 256
    }
}

/// The log2 magnitude that a byte of the packed form stands for.
pub open spec fn byte_log2(b: int) -> i8 {
    if b < 128 {
        b as i8
    } else {
        (b - 256) as i8
    }
}

/// Pixel resolution of a face, stored as log2 magnitudes:
/// `ulog2 = log2(ures)`, `vlog2 = log2(vres)`.
/// Negative magnitudes are reserved for internal markers.
#[derive(Clone, Copy, Debug, PartialEq, Eq, Structural)]
pub struct Res {
    pub ulog2: i8,
    pub vlog2: i8,
}

impl Res {
    /// The 16-bit packed form: low byte `ulog2`, high byte `vlog2`.
    pub open spec fn spec_value(self) -> int {
        log2_byte(self.ulog2) + 256 * log2_byte(self.vlog2)
    }

    /// The resolution that a 16-bit packed value decodes to.
    pub open spec fn spec_from_value(value: int) -> Res {
        Res { ulog2: byte_log2(value % 256), vlog2: byte_log2(value / 256) }
    }

    /// Build a resolution from its log2 magnitudes.
    pub fn from_uv(u: i8, v: i8) -> (r: Res)
        ensures
            r.ulog2 == u,
            r.vlog2 == v,
    {
        Res { ulog2: u, vlog2: v }
    }

    /// Build a resolution from its log2 magnitudes.
    pub fn from_uv_log2(u: i8, v: i8) -> (r: Res)
        ensures
            r.ulog2 == u,
            r.vlog2 == v,
    {
        Res { ulog2: u, vlog2: v }
    }

    /// Decode the 16-bit packed form.
    pub fn from_value(value: u16) -> (r: Res)
        ensures
            r == Res::spec_from_value(value as int),
    {
        Res { ulog2: Self::log2_of_byte(value % 256), vlog2: Self::log2_of_byte(value / 256) }
    }

    fn log2_of_byte(b: u16) -> (r: i8)
        requires
            b < 256,
        ensures
            r == byte_log2(b as int),
    {
        if b < 128 {
            b as i8
        } else {
            (b as i16 - 256) as i8
        }
    }

    fn byte_of_log2(l: i8) -> (r: u16)
        ensures
            r as int == log2_byte(l),
    {
        if l >= 0 {
            l as u16
        } else {
            (l as i16 + 256) as u16
        }
    }

    /// Resolution as a single 16-bit packed value.
    pub fn value(&self) -> (r: u16)
        ensures
            r as int == self.spec_value(),
    {
        Self::byte_of_log2(self.ulog2) + 256 * Self::byte_of_log2(self.vlog2)
    }
}

/// Number of tiles of log2 size `tile` along an axis of log2 size `full`,
/// as a power of two: `ceil(2^full / 2^tile) == 2^tile_shift(full, tile)`.
pub open spec fn tile_shift(full: i8, tile: i8) -> nat {
    if full >= tile {
        (full - tile) as nat
    } else {
        0
    }
}

/// `2^e` as an `i32`.
fn pow2_i32(e: u8) -> (r: i32)
    requires
        e <= 30,
    ensures
        r as int == pow2(e as nat),
{
    let mut r: i32 = 1;
    let mut i: u8 = 0;
    proof {
        lemma2_to64();
    }
    while i < e
        invariant
            i <= e <= 30,
            r as int == pow2(i as nat),
        decreases e - i,
    {
        proof {
            lemma_pow2_unfold((i + 1) as nat);
            lemma_pow2_strictly_increases((i + 1) as nat, 31);
            lemma2_to64();
        }
        r = r * 2;
        i = i + 1;
    }
    r
}

impl Res {
    /// Number of texels along u.
    pub open spec fn spec_u(self) -> nat {
        pow2(self.ulog2 as nat)
    }

    /// Number of texels along v.
    pub open spec fn spec_v(self) -> nat {
        pow2(self.vlog2 as nat)
    }

    /// The same resolution with u and v exchanged.
    pub open spec fn spec_swapped(self) -> Res {
        Res { ulog2: self.vlog2, vlog2: self.ulog2 }
    }

    /// U resolution in texels.
    pub fn u(&self) -> (r: i32)
        requires
            0 <= self.ulog2 <= 30,
        ensures
            r as int == self.spec_u(),
    {
        pow2_i32(self.ulog2 as u8)
    }

    /// V resolution in texels.
    pub fn v(&self) -> (r: i32)
        requires
            0 <= self.vlog2 <= 30,
        ensures
            r as int == self.spec_v(),
    {
        pow2_i32(self.vlog2 as u8)
    }

    /// Total number of texels, `2^(ulog2 + vlog2)`; saturates at `usize::MAX`.
    pub fn size(&self) -> (r: usize)
        requires
            self.ulog2 >= 0,
            self.vlog2 >= 0,
        ensures
            r == (if self.spec_u() * self.spec_v() <= usize::MAX {
                self.spec_u() * self.spec_v()
            } else {
                usize::MAX as nat
            }),
    {
        let n: u16 = self.ulog2 as u16 + self.vlog2 as u16;
        let mut r: usize = 1;
        let mut i: u16 = 0;
        proof {
            lemma2_to64();
        }
        while i < n
            invariant
                i <= n,
                r == (if pow2(i as nat) <= usize::MAX {
                    pow2(i as nat)
                } else {
                    usize::MAX as nat
                }),
            decreases n - i,
        {
            proof {
                lemma_pow2_unfold((i + 1) as nat);
            }
            if r > usize::MAX / 2 {
                r = usize::MAX;
            } else {
                r = r * 2;
            }
            i = i + 1;
        }
        proof {
            lemma_pow2_adds(self.ulog2 as nat, self.vlog2 as nat);
        }
        r
    }

    /// The resolution with u and v exchanged.
    pub fn clone_swapped(&self) -> (r: Res)
        ensures
            r == self.spec_swapped(),
    {
        Res { ulog2: self.vlog2, vlog2: self.ulog2 }
    }

    /// The resolution with u and v exchanged.
    pub fn swapped_uv(&self) -> (r: Res)
        ensures
            r == self.spec_swapped(),
    {
        self.clone_swapped()
    }

    /// Exchange u and v in place.
    pub fn swap_uv(&mut self)
        ensures
            *final(self) == old(self).spec_swapped(),
    {
        let u = self.ulog2;
        self.ulog2 = self.vlog2;
        self.vlog2 = u;
    }

    /// Clamp each log2 magnitude to at most that of `res`.
    pub fn clamp(&mut self, res: Res)
        ensures
            final(self).ulog2 == (if old(self).ulog2 <= res.ulog2 {
                old(self).ulog2
            } else {
                res.ulog2
            }),
            final(self).vlog2 == (if old(self).vlog2 <= res.vlog2 {
                old(self).vlog2
            } else {
                res.vlog2
            }),
    {
        if res.ulog2 < self.ulog2 {
            self.ulog2 = res.ulog2;
        }
        if res.vlog2 < self.vlog2 {
            self.vlog2 = res.vlog2;
        }
    }

    /// Number of tiles of resolution `tileres` along u (rounded up).
    pub fn ntilesu(&self, tileres: Res) -> (r: i32)
        requires
            self.ulog2 - tileres.ulog2 <= 30,
        ensures
            r as int == pow2(tile_shift(self.ulog2, tileres.ulog2)),
    {
        if self.ulog2 >= tileres.ulog2 {
            pow2_i32((self.ulog2 as i16 - tileres.ulog2 as i16) as u8)
        } else {
            proof {
                lemma2_to64();
            }
            1
        }
    }

    /// Number of tiles of resolution `tileres` along v (rounded up).
    pub fn ntilesv(&self, tileres: Res) -> (r: i32)
        requires
            self.vlog2 - tileres.vlog2 <= 30,
        ensures
            r as int == pow2(tile_shift(self.vlog2, tileres.vlog2)),
    {
        if self.vlog2 >= tileres.vlog2 {
            pow2_i32((self.vlog2 as i16 - tileres.vlog2 as i16) as u8)
        } else {
            proof {
                lemma2_to64();
            }
            1
        }
    }

    /// Total number of tiles of resolution `tileres`: tiles along u times tiles along v.
    pub fn ntiles(&self, tileres: Res) -> (r: i32)
        requires
            tile_shift(self.ulog2, tileres.ulog2) + tile_shift(self.vlog2, tileres.vlog2) <= 30,
        ensures
            r as int == pow2(tile_shift(self.ulog2, tileres.ulog2)) * pow2(
                tile_shift(self.vlog2, tileres.vlog2),
            ),
    {
        let su: i16 = if self.ulog2 >= tileres.ulog2 {
            self.ulog2 as i16 - tileres.ulog2 as i16
        } else {
            0
        };
        let sv: i16 = if self.vlog2 >= tileres.vlog2 {
            self.vlog2 as i16 - tileres.vlog2 as i16
        } else {
            0
        };
        proof {
            lemma_pow2_adds(su as nat, sv as nat);
        }
        pow2_i32((su + sv) as u8)
    }
}

impl Default for Res {
    /// The 1x1 resolution.
    fn default() -> (r: Res)
        ensures
            r.ulog2 == 0,
            r.vlog2 == 0,
    {
        Res { ulog2: 0, vlog2: 0 }
    }
}

/// Bit of [`FaceInfo::flags`] set when the face holds a single constant value.
pub const FLAG_CONSTANT: u8 = 1;

/// Bit of [`FaceInfo::flags`] set when the face has in-memory edits.
pub const FLAG_HAS_EDITS: u8 = 2;

/// Bit of [`FaceInfo::flags`] set when the face and its neighbours are constant.
pub const FLAG_NEIGHBORHOOD_CONSTANT: u8 = 4;

/// Bit of [`FaceInfo::flags`] set when the face is a subface.
pub const FLAG_SUBFACE: u8 = 8;

/// The adjacency byte that stores four edge ordinals, two bits each,
/// the first edge in the lowest bits.
pub open spec fn edges_byte(e0: int, e1: int, e2: int, e3: int) -> int {
    e0 + 4 * e1 + 16 * e2 + 64 * e3
}

/// The edge with ordinal `o` (taken modulo four).
pub open spec fn edge_of(o: int) -> EdgeId {
    if o % 4 == 0 {
        EdgeId::Bottom
    } else if o % 4 == 1 {
        EdgeId::Right
    } else if o % 4 == 2 {
        EdgeId::Top
    } else {
        EdgeId::Left
    }
}

/// An edge ordinal given as an integer names an edge.
pub open spec fn valid_edge(e: i32) -> bool {
    0 <= e < 4
}

/// Index of the first of four edge ordinals that names no edge, or 4 when all do.
pub open spec fn first_bad_edge(e: Seq<i32>) -> int {
    if !valid_edge(e[0]) {
        0
    } else if !valid_edge(e[1]) {
        1
    } else if !valid_edge(e[2]) {
        2
    } else if !valid_edge(e[3]) {
        3
    } else {
        4
    }
}

/// Resolution, adjacency and flags of one face.
///
/// `adjfaces` holds the ids of the four neighbouring faces in [`EdgeId`]
/// order (counter-clockwise from the bottom edge), `-1` where there is no
/// neighbour. `adjedges` holds, two bits per edge, which edge of each
/// neighbour meets the corresponding edge of this face.
#[derive(Clone, Copy, Debug)]
pub struct FaceInfo {
    pub res: Res,
    pub adjedges: u8,
    pub flags: u8,
    pub adjfaces: [i32; 4],
}

impl FaceInfo {
    /// Ordinal of the neighbour's edge stored for edge `i` (0 to 3).
    pub open spec fn spec_adjacent_edge(self, i: int) -> int {
        let b = self.adjedges as int;
        if i == 0 {
            b % 4
        } else if i == 1 {
            (b / 4) % 4
        } else if i == 2 {
            (b / 16) % 4
        } else {
            b / 64
        }
    }

    /// Whether the flag bit `bit` (a power of two below 256) is set.
    pub open spec fn spec_flag(self, bit: int) -> bool {
        (self.flags as int / bit) % 2 == 1
    }

    /// A face of resolution 1x1 with no neighbours, no adjacent edges and no flags.
    pub open spec fn is_blank(self) -> bool {
        &&& self.res == (Res { ulog2: 0, vlog2: 0 })
        &&& self.adjedges == 0
        &&& self.flags == 0
        &&& self.adjfaces@ == seq![-1i32, -1i32, -1i32, -1i32]
    }

    /// A face of resolution 1x1 with no neighbours and no flags.
    pub fn new() -> (r: FaceInfo)
        ensures
            r.is_blank(),
    {
        FaceInfo { res: Res { ulog2: 0, vlog2: 0 }, adjedges: 0, flags: 0, adjfaces: [-1, -1, -1, -1] }
    }

    /// A face with the given resolution and adjacency. Each of
    /// `adjacent_edges` must be an edge ordinal (0 to 3): the first that is
    /// not is rejected.
    pub fn from_res_and_adjacency(
        res: Res,
        adjacent_faces: &[i32; 4],
        adjacent_edges: &[i32; 4],
        is_subface: bool,
    ) -> (r: Result<FaceInfo, Error>)
        ensures
            match r {
                Ok(f) => {
                    &&& first_bad_edge(adjacent_edges@) == 4
                    &&& f.res == res
                    &&& f.adjfaces@ == adjacent_faces@
                    &&& f.adjedges as int == edges_byte(
                        adjacent_edges@[0] as int,
                        adjacent_edges@[1] as int,
                        adjacent_edges@[2] as int,
                        adjacent_edges@[3] as int,
                    )
                    &&& f.flags == (if is_subface {
                        FLAG_SUBFACE
                    } else {
                        0
                    })
                },
                Err(e) => {
                    &&& first_bad_edge(adjacent_edges@) < 4
                    &&& e@ == ErrorView::InvalidEnum(
                        EnumKind::EdgeId,
                        adjacent_edges@[first_bad_edge(adjacent_edges@)] as i64,
                    )
                },
            },
    {
        let mut i: usize = 0;
        while i < 4
            invariant
                i <= 4,
                forall|k: int| 0 <= k < i ==> valid_edge(#[trigger] adjacent_edges@[k]),
            decreases 4 - i,
        {
            let e = adjacent_edges[i];
            if e < 0 || e > 3 {
                return Err(Error::InvalidEnum(EnumKind::EdgeId, e as i64));
            }
            i = i + 1;
        }
        let packed = adjacent_edges[0] + 4 * adjacent_edges[1] + 16 * adjacent_edges[2] + 64
            * adjacent_edges[3];
        let flags = if is_subface {
            FLAG_SUBFACE
        } else {
            0
        };
        Ok(FaceInfo { res, adjedges: packed as u8, flags, adjfaces: *adjacent_faces })
    }

    /// The face's resolution.
    pub fn resolution(&self) -> (r: Res)
        ensures
            r == self.res,
    {
        self.res
    }

    /// Replace the face's resolution.
    pub fn set_resolution(&mut self, res: Res)
        ensures
            final(self).res == res,
            final(self).adjedges == old(self).adjedges,
            final(self).flags == old(self).flags,
            final(self).adjfaces == old(self).adjfaces,
    {
        self.res = res;
    }

    /// The edge of the neighbour across edge `edge_id` (0 to 3).
    pub fn adjacent_edge(&self, edge_id: i32) -> (r: Result<EdgeId, Error>)
        ensures
            valid_edge(edge_id) ==> r == Ok::<EdgeId, Error>(
                edge_of(self.spec_adjacent_edge(edge_id as int)),
            ),
            !valid_edge(edge_id) ==> (r matches Err(e) && e@ == ErrorView::BoundsError(
                BoundsKind::Edge,
                edge_id as i64,
            )),
    {
        if edge_id < 0 || edge_id > 3 {
            return Err(Error::BoundsError(BoundsKind::Edge, edge_id as i64));
        }
        let o: u8 = if edge_id == 0 {
            self.adjedges % 4
        } else if edge_id == 1 {
            (self.adjedges / 4) % 4
        } else if edge_id == 2 {
            (self.adjedges / 16) % 4
        } else {
            self.adjedges / 64
        };
        if o == 0 {
            Ok(EdgeId::Bottom)
        } else if o == 1 {
            Ok(EdgeId::Right)
        } else if o == 2 {
            Ok(EdgeId::Top)
        } else {
            Ok(EdgeId::Left)
        }
    }

    /// Set the neighbours' edges for the four edges, in edge order.
    pub fn set_adjacent_edges(&mut self, e1: EdgeId, e2: EdgeId, e3: EdgeId, e4: EdgeId)
        ensures
            final(self).adjedges as int == edges_byte(
                e1.spec_ordinal() as int,
                e2.spec_ordinal() as int,
                e3.spec_ordinal() as int,
                e4.spec_ordinal() as int,
            ),
            final(self).res == old(self).res,
            final(self).flags == old(self).flags,
            final(self).adjfaces == old(self).adjfaces,
    {
        let packed = e1.ordinal() + 4 * e2.ordinal() + 16 * e3.ordinal() + 64 * e4.ordinal();
        self.adjedges = packed as u8;
    }

    /// The id of the neighbour across edge `edge_id` (0 to 3), `-1` for none.
    pub fn adjacent_face(&self, edge_id: i32) -> (r: Result<i32, Error>)
        ensures
            valid_edge(edge_id) ==> r == Ok::<i32, Error>(self.adjfaces@[edge_id as int]),
            !valid_edge(edge_id) ==> (r matches Err(e) && e@ == ErrorView::BoundsError(
                BoundsKind::Edge,
                edge_id as i64,
            )),
    {
        if edge_id < 0 || edge_id > 3 {
            return Err(Error::BoundsError(BoundsKind::Edge, edge_id as i64));
        }
        Ok(self.adjfaces[edge_id as usize])
    }

    /// Set the neighbours of the four edges, in edge order.
    pub fn set_adjacent_faces(&mut self, f1: i32, f2: i32, f3: i32, f4: i32)
        ensures
            final(self).adjfaces@ == seq![f1, f2, f3, f4],
            final(self).res == old(self).res,
            final(self).adjedges == old(self).adjedges,
            final(self).flags == old(self).flags,
    {
        self.adjfaces = [f1, f2, f3, f4];
    }

    /// Does the face have in-memory edits?
    pub fn has_edits(&self) -> (r: bool)
        ensures
            r == self.spec_flag(FLAG_HAS_EDITS as int),
    {
        (self.flags / FLAG_HAS_EDITS) % 2 == 1
    }

    /// Does the face hold a single constant value?
    pub fn is_constant(&self) -> (r: bool)
        ensures
            r == self.spec_flag(FLAG_CONSTANT as int),
    {
        (self.flags / FLAG_CONSTANT) % 2 == 1
    }

    /// Are the face and all its neighbours constant?
    pub fn is_neighborhood_constant(&self) -> (r: bool)
        ensures
            r == self.spec_flag(FLAG_NEIGHBORHOOD_CONSTANT as int),
    {
        (self.flags / FLAG_NEIGHBORHOOD_CONSTANT) % 2 == 1
    }

    /// Is the face a subface?
    pub fn is_subface(&self) -> (r: bool)
        ensures
            r == self.spec_flag(FLAG_SUBFACE as int),
    {
        (self.flags / FLAG_SUBFACE) % 2 == 1
    }
}

/// Size in bytes of one channel value of the given type.
pub open spec fn data_size(data_type: DataType) -> int {
    match data_type {
        DataType::UInt8 => 1,
        DataType::UInt16 => 2,
        DataType::Float16 => 2,
        DataType::Float32 => 4,
    }
}

/// The stored value that stands for 1.0 in the given type: the largest
/// integer for integer types, 1 for floating-point types.
pub open spec fn one_value(data_type: DataType) -> int {
    match data_type {
        DataType::UInt8 => 255,
        DataType::UInt16 => 65535,
        DataType::Float16 => 1,
        DataType::Float32 => 1,
    }
}

/// Size in bytes of each [`DataType`].
pub struct DataSize;

impl DataSize {
    /// Size in bytes of one channel value of `data_type`.
    pub fn get(data_type: DataType) -> (r: i32)
        ensures
            r as int == data_size(data_type),
    {
        match data_type {
            DataType::UInt8 => 1,
            DataType::UInt16 => 2,
            DataType::Float16 => 2,
            DataType::Float32 => 4,
        }
    }
}

/// The value of "1.0" in each [`DataType`].
pub struct OneValue;

impl OneValue {
    /// The stored value that stands for 1.0 in `data_type`
    /// (255 for 8-bit, 65535 for 16-bit integers, 1 for floating point).
    pub fn get(data_type: DataType) -> (r: u32)
        ensures
            r as int == one_value(data_type),
    {
        match data_type {
            DataType::UInt8 => 255,
            DataType::UInt16 => 65535,
            DataType::Float16 => 1,
            DataType::Float32 => 1,
        }
    }
}

} // verus!

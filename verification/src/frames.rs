//! The per-frame keyframe stream decoder and the default-pose (Setup)
//! pass, together with the normalized keyframe model and the per-part
//! track accumulator.

use vstd::prelude::*;
use vstd::string::StringSliceAdditionalSpecFns;
use crate::DecodeError;
use crate::anime::{parse_initials, AnimInitial, PartType};
use crate::binary::{bounds_err, get_u16, get_u32, le16, le32, Ptr};
use crate::cell::{CellLookup, CellLookupV};
use crate::xml::{
    dec_i32, dec_nat, esc, push_dec, push_dec_i, push_esc, push_ratio, push_scalar, push_text, tc,
    Chunk, ChunkV,
};
use vstd::utf8::encode_utf8;

verus! {

/// Byte size of one frame-start record: the restated part index and the
/// low-flag mask.
pub const FRAME_START_SIZE: u64 = 6;

pub const PART_FLAG_INVISIBLE: u32 = 0x1;

pub const PART_FLAG_FLIP_H: u32 = 0x2;

pub const PART_FLAG_FLIP_V: u32 = 0x4;

pub const PART_FLAG_CELL_INDEX: u32 = 0x8;

pub const PART_FLAG_POSITION_X: u32 = 0x10;

pub const PART_FLAG_POSITION_Y: u32 = 0x20;

pub const PART_FLAG_POSITION_Z: u32 = 0x40;

pub const PART_FLAG_PIVOT_X: u32 = 0x80;

pub const PART_FLAG_PIVOT_Y: u32 = 0x100;

pub const PART_FLAG_ROTATIONX: u32 = 0x200;

pub const PART_FLAG_ROTATIONY: u32 = 0x400;

pub const PART_FLAG_ROTATIONZ: u32 = 0x800;

pub const PART_FLAG_SCALE_X: u32 = 0x1000;

pub const PART_FLAG_SCALE_Y: u32 = 0x2000;

pub const PART_FLAG_LOCALSCALE_X: u32 = 0x4000;

pub const PART_FLAG_LOCALSCALE_Y: u32 = 0x8000;

pub const PART_FLAG_OPACITY: u32 = 0x10000;

pub const PART_FLAG_LOCALOPACITY: u32 = 0x20000;

pub const PART_FLAG_PARTS_COLOR: u32 = 0x40000;

pub const PART_FLAG_VERTEX_TRANSFORM: u32 = 0x80000;

pub const PART_FLAG_SIZE_X: u32 = 0x100000;

pub const PART_FLAG_SIZE_Y: u32 = 0x200000;

pub const PART_FLAG_U_MOVE: u32 = 0x400000;

pub const PART_FLAG_V_MOVE: u32 = 0x800000;

pub const PART_FLAG_UV_ROTATION: u32 = 0x1000000;

pub const PART_FLAG_U_SCALE: u32 = 0x2000000;

pub const PART_FLAG_V_SCALE: u32 = 0x4000000;

pub const PART_FLAG_BOUNDINGRADIUS: u32 = 0x8000000;

pub const PART_FLAG_MASK: u32 = 0x10000000;

pub const PART_FLAG_PRIORITY: u32 = 0x20000000;

pub const PART_FLAG_INSTANCE_KEYFRAME: u32 = 0x40000000;

pub const PART_FLAG_EFFECT_KEYFRAME: u32 = 0x80000000;

pub const VERTEX_FLAG_LT: u16 = 0x1;

pub const VERTEX_FLAG_RT: u16 = 0x2;

pub const VERTEX_FLAG_LB: u16 = 0x4;

pub const VERTEX_FLAG_RB: u16 = 0x8;

pub const VERTEX_FLAG_ONE: u16 = 0x10;

/// The attribute-track vocabulary of the output schema.
#[derive(Debug, Clone, Copy, PartialEq, Eq, Structural)]
pub enum AttrTag {
    Cell,
    PosX,
    PosY,
    PosZ,
    PvtX,
    PvtY,
    RotX,
    RotY,
    RotZ,
    SclX,
    SclY,
    LscX,
    LscY,
    Alph,
    Lalp,
    SizX,
    SizY,
    UvtX,
    UvtY,
    UvrZ,
    UvsX,
    UvsY,
    Bndr,
    Mask,
    Prio,
    FlpH,
    FlpV,
    Hide,
}

/// One normalized keyframe value.  Transform, pivot, rotation, scale,
/// size, texture-shift and bounding-radius values hold 32-bit float bit
/// patterns; opacity values hold the raw 16-bit numerator of the ratio
/// over 255.
#[derive(Debug)]
pub enum AttributeKeyframe {
    Cell(u16, Vec<u8>),
    PositionX(u32),
    PositionY(u32),
    PositionZ(u32),
    PivotX(u32),
    PivotY(u32),
    RotationX(u32),
    RotationY(u32),
    RotationZ(u32),
    ScaleX(u32),
    ScaleY(u32),
    LocalScaleX(u32),
    LocalScaleY(u32),
    Opacity(u16),
    LocalOpacity(u16),
    SizeX(u32),
    SizeY(u32),
    UVMoveU(u32),
    UVMoveV(u32),
    UVRotate(u32),
    UVScaleU(u32),
    UVScaleV(u32),
    BoundingRadius(u32),
    Mask(u16),
    Prio(u16),
    FlipH(u16),
    FlipV(u16),
    Hide(u16),
}

/// The mathematical value of one keyframe.
pub enum KfV {
    Cell(u16, Seq<u8>),
    PositionX(u32),
    PositionY(u32),
    PositionZ(u32),
    PivotX(u32),
    PivotY(u32),
    RotationX(u32),
    RotationY(u32),
    RotationZ(u32),
    ScaleX(u32),
    ScaleY(u32),
    LocalScaleX(u32),
    LocalScaleY(u32),
    Opacity(u16),
    LocalOpacity(u16),
    SizeX(u32),
    SizeY(u32),
    UVMoveU(u32),
    UVMoveV(u32),
    UVRotate(u32),
    UVScaleU(u32),
    UVScaleV(u32),
    BoundingRadius(u32),
    Mask(u16),
    Prio(u16),
    FlipH(u16),
    FlipV(u16),
    Hide(u16),
}

impl DeepView for AttributeKeyframe {
    type V = KfV;

    open spec fn deep_view(&self) -> KfV {
        match self {
            AttributeKeyframe::Cell(m, n) => KfV::Cell(*m, n@),
            AttributeKeyframe::PositionX(v) => KfV::PositionX(*v),
            AttributeKeyframe::PositionY(v) => KfV::PositionY(*v),
            AttributeKeyframe::PositionZ(v) => KfV::PositionZ(*v),
            AttributeKeyframe::PivotX(v) => KfV::PivotX(*v),
            AttributeKeyframe::PivotY(v) => KfV::PivotY(*v),
            AttributeKeyframe::RotationX(v) => KfV::RotationX(*v),
            AttributeKeyframe::RotationY(v) => KfV::RotationY(*v),
            AttributeKeyframe::RotationZ(v) => KfV::RotationZ(*v),
            AttributeKeyframe::ScaleX(v) => KfV::ScaleX(*v),
            AttributeKeyframe::ScaleY(v) => KfV::ScaleY(*v),
            AttributeKeyframe::LocalScaleX(v) => KfV::LocalScaleX(*v),
            AttributeKeyframe::LocalScaleY(v) => KfV::LocalScaleY(*v),
            AttributeKeyframe::Opacity(v) => KfV::Opacity(*v),
            AttributeKeyframe::LocalOpacity(v) => KfV::LocalOpacity(*v),
            AttributeKeyframe::SizeX(v) => KfV::SizeX(*v),
            AttributeKeyframe::SizeY(v) => KfV::SizeY(*v),
            AttributeKeyframe::UVMoveU(v) => KfV::UVMoveU(*v),
            AttributeKeyframe::UVMoveV(v) => KfV::UVMoveV(*v),
            AttributeKeyframe::UVRotate(v) => KfV::UVRotate(*v),
            AttributeKeyframe::UVScaleU(v) => KfV::UVScaleU(*v),
            AttributeKeyframe::UVScaleV(v) => KfV::UVScaleV(*v),
            AttributeKeyframe::BoundingRadius(v) => KfV::BoundingRadius(*v),
            AttributeKeyframe::Mask(v) => KfV::Mask(*v),
            AttributeKeyframe::Prio(v) => KfV::Prio(*v),
            AttributeKeyframe::FlipH(v) => KfV::FlipH(*v),
            AttributeKeyframe::FlipV(v) => KfV::FlipV(*v),
            AttributeKeyframe::Hide(v) => KfV::Hide(*v),
        }
    }
}

/// The track tag a keyframe belongs to.
pub open spec fn kf_tag(k: KfV) -> AttrTag {
    match k {
        KfV::Cell(_, _) => AttrTag::Cell,
        KfV::PositionX(_) => AttrTag::PosX,
        KfV::PositionY(_) => AttrTag::PosY,
        KfV::PositionZ(_) => AttrTag::PosZ,
        KfV::PivotX(_) => AttrTag::PvtX,
        KfV::PivotY(_) => AttrTag::PvtY,
        KfV::RotationX(_) => AttrTag::RotX,
        KfV::RotationY(_) => AttrTag::RotY,
        KfV::RotationZ(_) => AttrTag::RotZ,
        KfV::ScaleX(_) => AttrTag::SclX,
        KfV::ScaleY(_) => AttrTag::SclY,
        KfV::LocalScaleX(_) => AttrTag::LscX,
        KfV::LocalScaleY(_) => AttrTag::LscY,
        KfV::Opacity(_) => AttrTag::Alph,
        KfV::LocalOpacity(_) => AttrTag::Lalp,
        KfV::SizeX(_) => AttrTag::SizX,
        KfV::SizeY(_) => AttrTag::SizY,
        KfV::UVMoveU(_) => AttrTag::UvtX,
        KfV::UVMoveV(_) => AttrTag::UvtY,
        KfV::UVRotate(_) => AttrTag::UvrZ,
        KfV::UVScaleU(_) => AttrTag::UvsX,
        KfV::UVScaleV(_) => AttrTag::UvsY,
        KfV::BoundingRadius(_) => AttrTag::Bndr,
        KfV::Mask(_) => AttrTag::Mask,
        KfV::Prio(_) => AttrTag::Prio,
        KfV::FlipH(_) => AttrTag::FlpH,
        KfV::FlipV(_) => AttrTag::FlpV,
        KfV::Hide(_) => AttrTag::Hide,
    }
}

/// The tag's name in the output schema.
pub open spec fn spec_tag_name(t: AttrTag) -> Seq<char> {
    match t {
        AttrTag::Cell => "CELL"@,
        AttrTag::PosX => "POSX"@,
        AttrTag::PosY => "POSY"@,
        AttrTag::PosZ => "POSZ"@,
        AttrTag::PvtX => "PVTX"@,
        AttrTag::PvtY => "PVTY"@,
        AttrTag::RotX => "ROTX"@,
        AttrTag::RotY => "ROTY"@,
        AttrTag::RotZ => "ROTZ"@,
        AttrTag::SclX => "SCLX"@,
        AttrTag::SclY => "SCLY"@,
        AttrTag::LscX => "LSCX"@,
        AttrTag::LscY => "LSCY"@,
        AttrTag::Alph => "ALPH"@,
        AttrTag::Lalp => "LALP"@,
        AttrTag::SizX => "SIZX"@,
        AttrTag::SizY => "SIZY"@,
        AttrTag::UvtX => "UVTX"@,
        AttrTag::UvtY => "UVTY"@,
        AttrTag::UvrZ => "UVRZ"@,
        AttrTag::UvsX => "UVSX"@,
        AttrTag::UvsY => "UVSY"@,
        AttrTag::Bndr => "BNDR"@,
        AttrTag::Mask => "MASK"@,
        AttrTag::Prio => "PRIO"@,
        AttrTag::FlpH => "FLPH"@,
        AttrTag::FlpV => "FLPV"@,
        AttrTag::Hide => "HIDE"@,
    }
}

impl AttrTag {
    /// The tag's name in the output schema.
    pub fn name_str(&self) -> (r: &'static str)
        ensures
            r@ == spec_tag_name(*self),
    {
        match self {
            AttrTag::Cell => "CELL",
            AttrTag::PosX => "POSX",
            AttrTag::PosY => "POSY",
            AttrTag::PosZ => "POSZ",
            AttrTag::PvtX => "PVTX",
            AttrTag::PvtY => "PVTY",
            AttrTag::RotX => "ROTX",
            AttrTag::RotY => "ROTY",
            AttrTag::RotZ => "ROTZ",
            AttrTag::SclX => "SCLX",
            AttrTag::SclY => "SCLY",
            AttrTag::LscX => "LSCX",
            AttrTag::LscY => "LSCY",
            AttrTag::Alph => "ALPH",
            AttrTag::Lalp => "LALP",
            AttrTag::SizX => "SIZX",
            AttrTag::SizY => "SIZY",
            AttrTag::UvtX => "UVTX",
            AttrTag::UvtY => "UVTY",
            AttrTag::UvrZ => "UVRZ",
            AttrTag::UvsX => "UVSX",
            AttrTag::UvsY => "UVSY",
            AttrTag::Bndr => "BNDR",
            AttrTag::Mask => "MASK",
            AttrTag::Prio => "PRIO",
            AttrTag::FlpH => "FLPH",
            AttrTag::FlpV => "FLPV",
            AttrTag::Hide => "HIDE",
        }
    }

    /// Whether keys of this tag carry an interpolation marker.
    pub open spec fn spec_use_interpolation(self) -> bool {
        match self {
            AttrTag::Cell => false,
            AttrTag::FlpH => false,
            AttrTag::FlpV => false,
            AttrTag::Hide => false,
            _ => true,
        }
    }

    /// Whether keys of this tag carry an interpolation marker.
    pub fn use_interpolation(&self) -> (r: bool)
        ensures
            r == self.spec_use_interpolation(),
    {
        match self {
            AttrTag::Cell => false,
            AttrTag::FlpH => false,
            AttrTag::FlpV => false,
            AttrTag::Hide => false,
            _ => true,
        }
    }
}

impl AttributeKeyframe {
    /// The track tag this keyframe belongs to.
    pub fn tag(&self) -> (r: AttrTag)
        ensures
            r == kf_tag(self.deep_view()),
    {
        match self {
            AttributeKeyframe::Cell(_, _) => AttrTag::Cell,
            AttributeKeyframe::PositionX(_) => AttrTag::PosX,
            AttributeKeyframe::PositionY(_) => AttrTag::PosY,
            AttributeKeyframe::PositionZ(_) => AttrTag::PosZ,
            AttributeKeyframe::PivotX(_) => AttrTag::PvtX,
            AttributeKeyframe::PivotY(_) => AttrTag::PvtY,
            AttributeKeyframe::RotationX(_) => AttrTag::RotX,
            AttributeKeyframe::RotationY(_) => AttrTag::RotY,
            AttributeKeyframe::RotationZ(_) => AttrTag::RotZ,
            AttributeKeyframe::ScaleX(_) => AttrTag::SclX,
            AttributeKeyframe::ScaleY(_) => AttrTag::SclY,
            AttributeKeyframe::LocalScaleX(_) => AttrTag::LscX,
            AttributeKeyframe::LocalScaleY(_) => AttrTag::LscY,
            AttributeKeyframe::Opacity(_) => AttrTag::Alph,
            AttributeKeyframe::LocalOpacity(_) => AttrTag::Lalp,
            AttributeKeyframe::SizeX(_) => AttrTag::SizX,
            AttributeKeyframe::SizeY(_) => AttrTag::SizY,
            AttributeKeyframe::UVMoveU(_) => AttrTag::UvtX,
            AttributeKeyframe::UVMoveV(_) => AttrTag::UvtY,
            AttributeKeyframe::UVRotate(_) => AttrTag::UvrZ,
            AttributeKeyframe::UVScaleU(_) => AttrTag::UvsX,
            AttributeKeyframe::UVScaleV(_) => AttrTag::UvsY,
            AttributeKeyframe::BoundingRadius(_) => AttrTag::Bndr,
            AttributeKeyframe::Mask(_) => AttrTag::Mask,
            AttributeKeyframe::Prio(_) => AttrTag::Prio,
            AttributeKeyframe::FlipH(_) => AttrTag::FlpH,
            AttributeKeyframe::FlipV(_) => AttrTag::FlpV,
            AttributeKeyframe::Hide(_) => AttrTag::Hide,
        }
    }

    /// The tag's name in the output schema.
    pub fn get_tag_name(&self) -> (r: &'static str)
        ensures
            r@ == spec_tag_name(kf_tag(self.deep_view())),
    {
        self.tag().name_str()
    }

    /// A copy of this keyframe.
    pub fn duplicate(&self) -> (r: AttributeKeyframe)
        ensures
            r.deep_view() == self.deep_view(),
    {
        match self {
            AttributeKeyframe::Cell(m, n) => AttributeKeyframe::Cell(
                *m,
                vstd::slice::slice_to_vec(n.as_slice()),
            ),
            AttributeKeyframe::PositionX(v) => AttributeKeyframe::PositionX(*v),
            AttributeKeyframe::PositionY(v) => AttributeKeyframe::PositionY(*v),
            AttributeKeyframe::PositionZ(v) => AttributeKeyframe::PositionZ(*v),
            AttributeKeyframe::PivotX(v) => AttributeKeyframe::PivotX(*v),
            AttributeKeyframe::PivotY(v) => AttributeKeyframe::PivotY(*v),
            AttributeKeyframe::RotationX(v) => AttributeKeyframe::RotationX(*v),
            AttributeKeyframe::RotationY(v) => AttributeKeyframe::RotationY(*v),
            AttributeKeyframe::RotationZ(v) => AttributeKeyframe::RotationZ(*v),
            AttributeKeyframe::ScaleX(v) => AttributeKeyframe::ScaleX(*v),
            AttributeKeyframe::ScaleY(v) => AttributeKeyframe::ScaleY(*v),
            AttributeKeyframe::LocalScaleX(v) => AttributeKeyframe::LocalScaleX(*v),
            AttributeKeyframe::LocalScaleY(v) => AttributeKeyframe::LocalScaleY(*v),
            AttributeKeyframe::Opacity(v) => AttributeKeyframe::Opacity(*v),
            AttributeKeyframe::LocalOpacity(v) => AttributeKeyframe::LocalOpacity(*v),
            AttributeKeyframe::SizeX(v) => AttributeKeyframe::SizeX(*v),
            AttributeKeyframe::SizeY(v) => AttributeKeyframe::SizeY(*v),
            AttributeKeyframe::UVMoveU(v) => AttributeKeyframe::UVMoveU(*v),
            AttributeKeyframe::UVMoveV(v) => AttributeKeyframe::UVMoveV(*v),
            AttributeKeyframe::UVRotate(v) => AttributeKeyframe::UVRotate(*v),
            AttributeKeyframe::UVScaleU(v) => AttributeKeyframe::UVScaleU(*v),
            AttributeKeyframe::UVScaleV(v) => AttributeKeyframe::UVScaleV(*v),
            AttributeKeyframe::BoundingRadius(v) => AttributeKeyframe::BoundingRadius(*v),
            AttributeKeyframe::Mask(v) => AttributeKeyframe::Mask(*v),
            AttributeKeyframe::Prio(v) => AttributeKeyframe::Prio(*v),
            AttributeKeyframe::FlipH(v) => AttributeKeyframe::FlipH(*v),
            AttributeKeyframe::FlipV(v) => AttributeKeyframe::FlipV(*v),
            AttributeKeyframe::Hide(v) => AttributeKeyframe::Hide(*v),
        }
    }
}

/// The frame-start record: the restated part index, the low-flag mask, and
/// the mesh-data mask, which the per-frame stream does not store and which
/// therefore reads as zero there.
#[derive(Debug, Clone, Copy, PartialEq, Eq, Structural)]
pub struct FrameStart {
    pub index: u16,
    pub low_flag: u32,
    pub high_flag: u32,
}

impl FrameStart {
    /// The restated part index; informational, decode proceeds
    /// positionally.
    pub fn get_index(&self) -> (r: u16)
        ensures
            r == self.index,
    {
        self.index
    }

    /// The low-flag mask gating the frame's variable fields.
    pub fn get_low_flag(&self) -> (r: u32)
        ensures
            r == self.low_flag,
    {
        self.low_flag
    }

    /// The mesh-data mask.
    pub fn get_high_flag(&self) -> (r: u32)
        ensures
            r == self.high_flag,
    {
        self.high_flag
    }
}

/// The frame-start record held at `pos`.
pub open spec fn spec_frame_start(b: Seq<u8>, pos: int) -> FrameStart {
    FrameStart { index: le16(b, pos), low_flag: le32(b, pos + 2), high_flag: 0 }
}

/// Reference to one frame's byte stream.
#[derive(Debug, Clone, Copy, PartialEq, Eq, Structural)]
pub struct FrameData {
    pub ptr: Ptr,
}

impl FrameData {
    /// The cursor positioned at the start of this frame's stream.
    pub fn value(&self) -> (r: FramePart)
        ensures
            r.0 == self.ptr.offset,
    {
        FramePart(self.ptr.offset as usize)
    }
}

/// The explicit cursor threaded through one frame's decode: the buffer
/// position of the next unread field.
#[derive(Debug, Clone, Copy, PartialEq, Eq, Structural)]
pub struct FramePart(pub usize);

/// Whether the bit pattern `v` reads as the neutral zero of a 32-bit float
/// field: plus or minus zero.
pub open spec fn is_zero_bits(v: u32) -> bool {
    v == 0 || v == 0x80000000u32
}

/// Whether the bit pattern `v` reads as the neutral one of a multiplicative
/// 32-bit float field.
pub open spec fn is_one_bits(v: u32) -> bool {
    v == 0x3F800000u32
}

/// The keyframes selected from a (condition, keyframe) table: those whose
/// condition holds, in table order.
pub open spec fn keep_kfs(s: Seq<(bool, KfV)>) -> Seq<KfV>
    decreases s.len(),
{
    if s.len() == 0 {
        Seq::<KfV>::empty()
    } else {
        keep_kfs(s.drop_last()) + (if s.last().0 {
            seq![s.last().1]
        } else {
            Seq::<KfV>::empty()
        })
    }
}

/// The declarative Setup field table of one default pose: for each field,
/// whether it differs from its neutral default, and the keyframe recorded
/// when it does.  Additive fields are neutral at zero, multiplicative
/// scale fields at one, 8-bit opacity fields at 255.
pub open spec fn spec_setup_table(d: AnimInitial) -> Seq<(bool, KfV)> {
    seq![
        (!is_zero_bits(d.position_x), KfV::PositionX(d.position_x)),
        (!is_zero_bits(d.position_y), KfV::PositionY(d.position_y)),
        (!is_zero_bits(d.position_z), KfV::PositionZ(d.position_z)),
        (!is_zero_bits(d.pivot_x), KfV::PivotX(d.pivot_x)),
        (!is_zero_bits(d.pivot_y), KfV::PivotY(d.pivot_y)),
        (!is_zero_bits(d.rotate_x), KfV::RotationX(d.rotate_x)),
        (!is_zero_bits(d.rotate_y), KfV::RotationY(d.rotate_y)),
        (!is_zero_bits(d.rotate_z), KfV::RotationZ(d.rotate_z)),
        (!is_one_bits(d.scale_x), KfV::ScaleX(d.scale_x)),
        (!is_one_bits(d.scale_y), KfV::ScaleY(d.scale_y)),
        (!is_zero_bits(d.local_scale_x), KfV::LocalScaleX(d.local_scale_x)),
        (!is_zero_bits(d.local_scale_y), KfV::LocalScaleY(d.local_scale_y)),
        (d.opacity != 255, KfV::Opacity(d.opacity)),
        (d.local_opacity != 255, KfV::LocalOpacity(d.local_opacity)),
        (!is_zero_bits(d.size_x), KfV::SizeX(d.size_x)),
        (!is_zero_bits(d.size_y), KfV::SizeY(d.size_y)),
        (!is_zero_bits(d.uv_move_x), KfV::UVMoveU(d.uv_move_x)),
        (!is_zero_bits(d.uv_move_y), KfV::UVMoveV(d.uv_move_y)),
        (!is_zero_bits(d.uv_rotate), KfV::UVRotate(d.uv_rotate)),
        (!is_one_bits(d.uv_scale_x), KfV::UVScaleU(d.uv_scale_x)),
        (!is_one_bits(d.uv_scale_y), KfV::UVScaleV(d.uv_scale_y)),
        (!is_zero_bits(d.bounding_radius), KfV::BoundingRadius(d.bounding_radius)),
        (d.masklimen != 0, KfV::Mask(d.masklimen)),
        (d.priority != 0, KfV::Prio(d.priority)),
    ]
}

/// The Setup-clip keyframes of one part with default pose `d`: a cell
/// reference and a visibility key for image-bearing (normal) parts, then
/// one key for each field of the table that differs from its neutral
/// default, in table order.
pub open spec fn spec_setup_kfs(d: AnimInitial, ptype: PartType, lookup: Seq<CellLookupV>) -> Seq<
    KfV,
> {
    let s0 = if ptype == PartType::normal {
        let c = if d.cell_index < lookup.len() {
            seq![
                KfV::Cell(
                    lookup[d.cell_index as int].map_index,
                    lookup[d.cell_index as int].name,
                ),
            ]
        } else {
            Seq::<KfV>::empty()
        };
        c + seq![KfV::Hide(0)]
    } else {
        Seq::<KfV>::empty()
    };
    s0 + keep_kfs(spec_setup_table(d))
}

/// Appends one keyframe to `out`.
fn push_kf(out: &mut Vec<AttributeKeyframe>, k: AttributeKeyframe)
    ensures
        final(out).deep_view() == old(out).deep_view().push(k.deep_view()),
{
    let ghost kv = k.deep_view();
    let ghost g = out.deep_view();
    out.push(k);
    assert(out.deep_view() =~= g.push(kv));
}

/// Appends one field-table row to `out`.
fn push_cand(out: &mut Vec<(bool, AttributeKeyframe)>, c: bool, k: AttributeKeyframe)
    ensures
        final(out).deep_view() == old(out).deep_view().push((c, k.deep_view())),
{
    let ghost kv = k.deep_view();
    let ghost g = out.deep_view();
    out.push((c, k));
    assert(out.deep_view() =~= g.push((c, kv)));
}

/// One row of the Setup field table of `d`.
fn setup_row(d: &AnimInitial, i: usize) -> (r: (bool, AttributeKeyframe))
    requires
        i < 24,
    ensures
        (r.0, r.1.deep_view()) == spec_setup_table(*d)[i as int],
{
    if i == 0 {
        (!(d.position_x == 0 || d.position_x == 0x80000000), AttributeKeyframe::PositionX(
            d.position_x,
        ))
    } else if i == 1 {
        (!(d.position_y == 0 || d.position_y == 0x80000000), AttributeKeyframe::PositionY(
            d.position_y,
        ))
    } else if i == 2 {
        (!(d.position_z == 0 || d.position_z == 0x80000000), AttributeKeyframe::PositionZ(
            d.position_z,
        ))
    } else if i == 3 {
        (!(d.pivot_x == 0 || d.pivot_x == 0x80000000), AttributeKeyframe::PivotX(d.pivot_x))
    } else if i == 4 {
        (!(d.pivot_y == 0 || d.pivot_y == 0x80000000), AttributeKeyframe::PivotY(d.pivot_y))
    } else if i == 5 {
        (!(d.rotate_x == 0 || d.rotate_x == 0x80000000), AttributeKeyframe::RotationX(d.rotate_x))
    } else if i == 6 {
        (!(d.rotate_y == 0 || d.rotate_y == 0x80000000), AttributeKeyframe::RotationY(d.rotate_y))
    } else if i == 7 {
        (!(d.rotate_z == 0 || d.rotate_z == 0x80000000), AttributeKeyframe::RotationZ(d.rotate_z))
    } else if i == 8 {
        (d.scale_x != 0x3F800000, AttributeKeyframe::ScaleX(d.scale_x))
    } else if i == 9 {
        (d.scale_y != 0x3F800000, AttributeKeyframe::ScaleY(d.scale_y))
    } else if i == 10 {
        (!(d.local_scale_x == 0 || d.local_scale_x == 0x80000000), AttributeKeyframe::LocalScaleX(
            d.local_scale_x,
        ))
    } else if i == 11 {
        (!(d.local_scale_y == 0 || d.local_scale_y == 0x80000000), AttributeKeyframe::LocalScaleY(
            d.local_scale_y,
        ))
    } else if i == 12 {
        (d.opacity != 255, AttributeKeyframe::Opacity(d.opacity))
    } else if i == 13 {
        (d.local_opacity != 255, AttributeKeyframe::LocalOpacity(d.local_opacity))
    } else if i == 14 {
        (!(d.size_x == 0 || d.size_x == 0x80000000), AttributeKeyframe::SizeX(d.size_x))
    } else if i == 15 {
        (!(d.size_y == 0 || d.size_y == 0x80000000), AttributeKeyframe::SizeY(d.size_y))
    } else if i == 16 {
        (!(d.uv_move_x == 0 || d.uv_move_x == 0x80000000), AttributeKeyframe::UVMoveU(d.uv_move_x))
    } else if i == 17 {
        (!(d.uv_move_y == 0 || d.uv_move_y == 0x80000000), AttributeKeyframe::UVMoveV(d.uv_move_y))
    } else if i == 18 {
        (!(d.uv_rotate == 0 || d.uv_rotate == 0x80000000), AttributeKeyframe::UVRotate(
            d.uv_rotate,
        ))
    } else if i == 19 {
        (d.uv_scale_x != 0x3F800000, AttributeKeyframe::UVScaleU(d.uv_scale_x))
    } else if i == 20 {
        (d.uv_scale_y != 0x3F800000, AttributeKeyframe::UVScaleV(d.uv_scale_y))
    } else if i == 21 {
        (!(d.bounding_radius == 0 || d.bounding_radius == 0x80000000),
        AttributeKeyframe::BoundingRadius(d.bounding_radius))
    } else if i == 22 {
        (d.masklimen != 0, AttributeKeyframe::Mask(d.masklimen))
    } else {
        (d.priority != 0, AttributeKeyframe::Prio(d.priority))
    }
}

/// Builds the Setup field table of `d`.
fn setup_table(d: &AnimInitial) -> (r: Vec<(bool, AttributeKeyframe)>)
    ensures
        r.deep_view() == spec_setup_table(*d),
{
    let mut t: Vec<(bool, AttributeKeyframe)> = Vec::new();
    assert(t.deep_view() =~= spec_setup_table(*d).take(0));
    let mut i: usize = 0;
    while i < 24
        invariant
            0 <= i <= 24,
            t.deep_view() == spec_setup_table(*d).take(i as int),
        decreases 24 - i,
    {
        let row = setup_row(d, i);
        push_cand(&mut t, row.0, row.1);
        proof {
            assert(spec_setup_table(*d).take(i + 1) =~= spec_setup_table(*d).take(i as int).push(
                spec_setup_table(*d)[i as int],
            ));
        }
        i = i + 1;
    }
    proof {
        assert(spec_setup_table(*d).take(24) =~= spec_setup_table(*d));
    }
    t
}

/// Emits the Setup-clip keyframes of one part from its default pose.
pub fn setup_keyframes(d: &AnimInitial, ptype: PartType, lookup: &Vec<CellLookup>) -> (r: Vec<
    AttributeKeyframe,
>)
    ensures
        r.deep_view() == spec_setup_kfs(*d, ptype, lookup.deep_view()),
{
    let ghost lv = lookup.deep_view();
    let mut out: Vec<AttributeKeyframe> = Vec::new();
    if ptype == PartType::normal {
        if (d.cell_index as usize) < lookup.len() {
            let row = &lookup[d.cell_index as usize];
            push_kf(
                &mut out,
                AttributeKeyframe::Cell(
                    row.map_index,
                    vstd::slice::slice_to_vec(row.name.as_slice()),
                ),
            );
        }
        push_kf(&mut out, AttributeKeyframe::Hide(0));
    }
    let ghost s0 = out.deep_view();
    assert(s0 =~= {
        if ptype == PartType::normal {
            (if d.cell_index < lv.len() {
                seq![KfV::Cell(lv[d.cell_index as int].map_index, lv[d.cell_index as int].name)]
            } else {
                Seq::<KfV>::empty()
            }) + seq![KfV::Hide(0)]
        } else {
            Seq::<KfV>::empty()
        }
    });
    let table = setup_table(d);
    let ghost tabv = spec_setup_table(*d);
    let table_len = table.len();
    let mut i: usize = 0;
    while i < table_len
        invariant
            0 <= i <= table.len(),
            table.len() == table_len,
            table.deep_view() == tabv,
            out.deep_view() == s0 + keep_kfs(tabv.take(i as int)),
        decreases table_len - i,
    {
        let ghost ov = out.deep_view();
        let row = &table[i];
        if row.0 {
            let kf = row.1.duplicate();
            push_kf(&mut out, kf);
        }
        proof {
            assert(tabv.take(i + 1).drop_last() =~= tabv.take(i as int));
            assert(tabv.take(i + 1).last() == tabv[i as int]);
            assert(out.deep_view() =~= s0 + keep_kfs(tabv.take(i + 1)));
        }
        i = i + 1;
    }
    proof {
        assert(tabv.take(tabv.len() as int) =~= tabv);
    }
    out
}


/// Whether flag `bit` is set in the low mask.
pub open spec fn bit_set(low: u32, bit: u32) -> bool {
    low & (1u32 << bit) != 0
}

/// How many color+rate records the vertex-color block's selector calls
/// for: one when the all-vertices flag is set, else one per selected
/// vertex bit of the selector's high byte.  Whether a stream ever selects
/// fewer than four single vertices is unsettled; the cursor advances by
/// the selector's own count either way, which is what keeps the rest of
/// the frame aligned.
pub open spec fn color_count(selector: u16) -> int {
    let hi = selector >> 8;
    if hi & 0x10 != 0 {
        1
    } else {
        (if hi & 0x1 != 0 {
            1int
        } else {
            0int
        }) + (if hi & 0x2 != 0 {
            1int
        } else {
            0int
        }) + (if hi & 0x4 != 0 {
            1int
        } else {
            0int
        }) + (if hi & 0x8 != 0 {
            1int
        } else {
            0int
        })
    }
}

/// The byte width of the field gated by `bit` when read at `pos`: 4-byte
/// values for transform, texture and bounding-radius fields, 2-byte values
/// for cell index, opacities, mask and priority, fixed blocks for the
/// instance and effect composites, and a selector-dependent width for the
/// vertex-color block.
pub open spec fn field_size(b: Seq<u8>, pos: int, bit: u32) -> int {
    if bit == 3 {
        2
    } else if 4 <= bit && bit <= 15 {
        4
    } else if bit == 16 || bit == 17 {
        2
    } else if bit == 18 {
        2 + 8 * color_count(le16(b, pos))
    } else if 20 <= bit && bit <= 27 {
        4
    } else if bit == 28 || bit == 29 {
        2
    } else if bit == 30 {
        24
    } else if bit == 31 {
        16
    } else {
        0
    }
}

/// The keyframe recorded for a 4-byte field.
pub open spec fn scalar_kf_v(bit: u32, v: u32) -> KfV {
    if bit == 4 {
        KfV::PositionX(v)
    } else if bit == 5 {
        KfV::PositionY(v)
    } else if bit == 6 {
        KfV::PositionZ(v)
    } else if bit == 7 {
        KfV::PivotX(v)
    } else if bit == 8 {
        KfV::PivotY(v)
    } else if bit == 9 {
        KfV::RotationX(v)
    } else if bit == 10 {
        KfV::RotationY(v)
    } else if bit == 11 {
        KfV::RotationZ(v)
    } else if bit == 12 {
        KfV::ScaleX(v)
    } else if bit == 13 {
        KfV::ScaleY(v)
    } else if bit == 14 {
        KfV::LocalScaleX(v)
    } else if bit == 15 {
        KfV::LocalScaleY(v)
    } else if bit == 20 {
        KfV::SizeX(v)
    } else if bit == 21 {
        KfV::SizeY(v)
    } else if bit == 22 {
        KfV::UVMoveU(v)
    } else if bit == 23 {
        KfV::UVMoveV(v)
    } else if bit == 24 {
        KfV::UVRotate(v)
    } else if bit == 25 {
        KfV::UVScaleU(v)
    } else if bit == 26 {
        KfV::UVScaleV(v)
    } else {
        KfV::BoundingRadius(v)
    }
}

/// The keyframe recorded for a 2-byte field.
pub open spec fn word_kf_v(bit: u32, v: u16) -> KfV {
    if bit == 16 {
        KfV::Opacity(v)
    } else if bit == 17 {
        KfV::LocalOpacity(v)
    } else if bit == 28 {
        KfV::Mask(v)
    } else {
        KfV::Prio(v)
    }
}

/// The keyframes recorded for the field gated by `bit` at `pos`: one per
/// value field, a resolved cell reference for the cell-index field when
/// the flat index is known, and none for the composite blocks, whose
/// bytes are consumed only to advance the cursor.
pub open spec fn bit_kfs(b: Seq<u8>, pos: int, bit: u32, lookup: Seq<CellLookupV>) -> Seq<KfV> {
    if bit == 3 {
        let ci = le16(b, pos);
        if ci < lookup.len() {
            seq![KfV::Cell(lookup[ci as int].map_index, lookup[ci as int].name)]
        } else {
            Seq::<KfV>::empty()
        }
    } else if (4 <= bit && bit <= 15) || (20 <= bit && bit <= 27) {
        seq![scalar_kf_v(bit, le32(b, pos))]
    } else if bit == 16 || bit == 17 || bit == 28 || bit == 29 {
        seq![word_kf_v(bit, le16(b, pos))]
    } else {
        Seq::<KfV>::empty()
    }
}

/// The cursor walk over one part's flag-gated fields from `bit` upward, in
/// ascending bit order: the final cursor position and the keyframes read,
/// or the first bounds failure.
pub open spec fn spec_walk(b: Seq<u8>, pos: int, low: u32, bit: u32, lookup: Seq<CellLookupV>) -> Result<
    (int, Seq<KfV>),
    DecodeError,
>
    decreases 32 - bit,
{
    if bit >= 32 {
        Ok((pos, Seq::<KfV>::empty()))
    } else if !bit_set(low, bit) {
        spec_walk(b, pos, low, (bit + 1) as u32, lookup)
    } else {
        let w = field_size(b, pos, bit);
        if w == 0 {
            spec_walk(b, pos, low, (bit + 1) as u32, lookup)
        } else if pos + 2 > b.len() {
            Err(bounds_err(b, pos, 2))
        } else if pos + w > b.len() {
            Err(bounds_err(b, pos, w))
        } else {
            match spec_walk(b, pos + w, low, (bit + 1) as u32, lookup) {
                Err(e) => Err(e),
                Ok(p) => Ok((p.0, bit_kfs(b, pos, bit, lookup) + p.1)),
            }
        }
    }
}

/// One part's frame record decoded at `pos`: the 6-byte frame-start
/// record, then the walk over its flag-gated fields.
pub open spec fn spec_decode_frame_part(b: Seq<u8>, pos: int, lookup: Seq<CellLookupV>) -> Result<
    (Seq<KfV>, int),
    DecodeError,
> {
    if pos + FRAME_START_SIZE > b.len() {
        Err(bounds_err(b, pos, FRAME_START_SIZE as int))
    } else {
        match spec_walk(b, pos + 6, le32(b, pos + 2), 3, lookup) {
            Err(e) => Err(e),
            Ok(p) => Ok((p.1, p.0)),
        }
    }
}

/// The exec constructor for a 4-byte field's keyframe.
fn kf_scalar(bit: u32, v: u32) -> (r: AttributeKeyframe)
    requires
        (4 <= bit && bit <= 15) || (20 <= bit && bit <= 27),
    ensures
        r.deep_view() == scalar_kf_v(bit, v),
{
    if bit == 4 {
        AttributeKeyframe::PositionX(v)
    } else if bit == 5 {
        AttributeKeyframe::PositionY(v)
    } else if bit == 6 {
        AttributeKeyframe::PositionZ(v)
    } else if bit == 7 {
        AttributeKeyframe::PivotX(v)
    } else if bit == 8 {
        AttributeKeyframe::PivotY(v)
    } else if bit == 9 {
        AttributeKeyframe::RotationX(v)
    } else if bit == 10 {
        AttributeKeyframe::RotationY(v)
    } else if bit == 11 {
        AttributeKeyframe::RotationZ(v)
    } else if bit == 12 {
        AttributeKeyframe::ScaleX(v)
    } else if bit == 13 {
        AttributeKeyframe::ScaleY(v)
    } else if bit == 14 {
        AttributeKeyframe::LocalScaleX(v)
    } else if bit == 15 {
        AttributeKeyframe::LocalScaleY(v)
    } else if bit == 20 {
        AttributeKeyframe::SizeX(v)
    } else if bit == 21 {
        AttributeKeyframe::SizeY(v)
    } else if bit == 22 {
        AttributeKeyframe::UVMoveU(v)
    } else if bit == 23 {
        AttributeKeyframe::UVMoveV(v)
    } else if bit == 24 {
        AttributeKeyframe::UVRotate(v)
    } else if bit == 25 {
        AttributeKeyframe::UVScaleU(v)
    } else if bit == 26 {
        AttributeKeyframe::UVScaleV(v)
    } else {
        AttributeKeyframe::BoundingRadius(v)
    }
}

/// The exec constructor for a 2-byte field's keyframe.
fn kf_word(bit: u32, v: u16) -> (r: AttributeKeyframe)
    requires
        bit == 16 || bit == 17 || bit == 28 || bit == 29,
    ensures
        r.deep_view() == word_kf_v(bit, v),
{
    if bit == 16 {
        AttributeKeyframe::Opacity(v)
    } else if bit == 17 {
        AttributeKeyframe::LocalOpacity(v)
    } else if bit == 28 {
        AttributeKeyframe::Mask(v)
    } else {
        AttributeKeyframe::Prio(v)
    }
}

/// Decodes one part's frame record at `pos`: reads the frame-start record
/// and then, for every set low-flag bit in ascending order, exactly the
/// field it gates, appending its keyframe; hands back the keyframes and
/// the cursor position after the record.
pub fn decode_frame_part(b: &Vec<u8>, pos: usize, lookup: &Vec<CellLookup>) -> (r: Result<
    (Vec<AttributeKeyframe>, usize),
    DecodeError,
>)
    ensures
        match r {
            Ok(v) => spec_decode_frame_part(b@, pos as int, lookup.deep_view()) == Ok::<
                (Seq<KfV>, int),
                DecodeError,
            >((v.0.deep_view(), v.1 as int)),
            Err(e) => spec_decode_frame_part(b@, pos as int, lookup.deep_view()) == Err::<
                (Seq<KfV>, int),
                DecodeError,
            >(e),
        },
{
    let ghost lv = lookup.deep_view();
    let len = b.len();
    if pos >= len || len - pos < 6 {
        return Err(
            DecodeError::Bounds { offset: pos, need: FRAME_START_SIZE as usize, len: b.len() },
        );
    }
    let low = get_u32(b, pos + 2);
    let start = pos + 6;
    let mut cur: usize = start;
    let mut out: Vec<AttributeKeyframe> = Vec::new();
    assert(out.deep_view() =~= Seq::<KfV>::empty());
    let mut bit: u32 = 3;
    while bit < 32
        invariant
            3 <= bit <= 32,
            pos + FRAME_START_SIZE <= b@.len(),
            start == pos + 6,
            low == le32(b@, pos + 2),
            start <= cur <= b@.len(),
            len == b@.len(),
            lv == lookup.deep_view(),
            spec_walk(b@, start as int, low, 3, lv) == (match spec_walk(
                b@,
                cur as int,
                low,
                bit,
                lv,
            ) {
                Err(e) => Err::<(int, Seq<KfV>), DecodeError>(e),
                Ok(p) => Ok::<(int, Seq<KfV>), DecodeError>((p.0, out.deep_view() + p.1)),
            }),
        decreases 32 - bit,
    {
        let ghost out0 = out.deep_view();
        let ghost cur0 = cur as int;
        let set = low & (1u32 << bit) != 0;
        if set && bit != 19 {
            if bit == 3 {
                if len - cur < 2 {
                    let e = DecodeError::Bounds { offset: cur, need: 2, len };
                    proof {
                        assert(spec_walk(b@, cur as int, low, bit, lv) == Err::<
                            (int, Seq<KfV>),
                            DecodeError,
                        >(e));
                    }
                    return Err(e);
                }
                let ci = get_u16(b, cur);
                if (ci as usize) < lookup.len() {
                    let row = &lookup[ci as usize];
                    push_kf(
                        &mut out,
                        AttributeKeyframe::Cell(
                            row.map_index,
                            vstd::slice::slice_to_vec(row.name.as_slice()),
                        ),
                    );
                }
                cur = cur + 2;
                proof {
                    let bk = bit_kfs(b@, cur0, bit, lv);
                    assert(out.deep_view() =~= out0 + bk);
                    let ghost rest = spec_walk(b@, cur as int, low, (bit + 1) as u32, lv);
                    match rest {
                        Ok(p) => {
                            assert((out0 + bk) + p.1 =~= out0 + (bk + p.1));
                        },
                        Err(_) => {},
                    }
                }
            } else if bit <= 15 || (20 <= bit && bit <= 27) {
                if len - cur < 2 {
                    let e = DecodeError::Bounds { offset: cur, need: 2, len };
                    proof {
                        assert(spec_walk(b@, cur as int, low, bit, lv) == Err::<
                            (int, Seq<KfV>),
                            DecodeError,
                        >(e));
                    }
                    return Err(e);
                }
                if len - cur < 4 {
                    let e = DecodeError::Bounds { offset: cur, need: 4, len };
                    proof {
                        assert(spec_walk(b@, cur as int, low, bit, lv) == Err::<
                            (int, Seq<KfV>),
                            DecodeError,
                        >(e));
                    }
                    return Err(e);
                }
                let v = get_u32(b, cur);
                push_kf(&mut out, kf_scalar(bit, v));
                cur = cur + 4;
                proof {
                    let bk = bit_kfs(b@, cur0, bit, lv);
                    assert(out.deep_view() =~= out0 + bk);
                    let ghost rest = spec_walk(b@, cur as int, low, (bit + 1) as u32, lv);
                    match rest {
                        Ok(p) => {
                            assert((out0 + bk) + p.1 =~= out0 + (bk + p.1));
                        },
                        Err(_) => {},
                    }
                }
            } else if bit == 16 || bit == 17 || bit == 28 || bit == 29 {
                if len - cur < 2 {
                    let e = DecodeError::Bounds { offset: cur, need: 2, len };
                    proof {
                        assert(spec_walk(b@, cur as int, low, bit, lv) == Err::<
                            (int, Seq<KfV>),
                            DecodeError,
                        >(e));
                    }
                    return Err(e);
                }
                let v = get_u16(b, cur);
                push_kf(&mut out, kf_word(bit, v));
                cur = cur + 2;
                proof {
                    let bk = bit_kfs(b@, cur0, bit, lv);
                    assert(out.deep_view() =~= out0 + bk);
                    let ghost rest = spec_walk(b@, cur as int, low, (bit + 1) as u32, lv);
                    match rest {
                        Ok(p) => {
                            assert((out0 + bk) + p.1 =~= out0 + (bk + p.1));
                        },
                        Err(_) => {},
                    }
                }
            } else if bit == 18 {
                if len - cur < 2 {
                    let e = DecodeError::Bounds { offset: cur, need: 2, len };
                    proof {
                        assert(spec_walk(b@, cur as int, low, bit, lv) == Err::<
                            (int, Seq<KfV>),
                            DecodeError,
                        >(e));
                    }
                    return Err(e);
                }
                let sel = get_u16(b, cur);
                let hi = sel >> 8;
                let mut cnt: usize = 0;
                if hi & 0x10 != 0 {
                    cnt = 1;
                } else {
                    if hi & 0x1 != 0 {
                        cnt = cnt + 1;
                    }
                    if hi & 0x2 != 0 {
                        cnt = cnt + 1;
                    }
                    if hi & 0x4 != 0 {
                        cnt = cnt + 1;
                    }
                    if hi & 0x8 != 0 {
                        cnt = cnt + 1;
                    }
                }
                assert(cnt == color_count(sel));
                let w: usize = 2 + 8 * cnt;
                if len - cur < w {
                    let e = DecodeError::Bounds { offset: cur, need: w, len };
                    proof {
                        assert(spec_walk(b@, cur as int, low, bit, lv) == Err::<
                            (int, Seq<KfV>),
                            DecodeError,
                        >(e));
                    }
                    return Err(e);
                }
                cur = cur + w;
                proof {
                    let bk = bit_kfs(b@, cur0, bit, lv);
                    assert(out.deep_view() =~= out0 + bk);
                    let ghost rest = spec_walk(b@, cur as int, low, (bit + 1) as u32, lv);
                    match rest {
                        Ok(p) => {
                            assert((out0 + bk) + p.1 =~= out0 + (bk + p.1));
                        },
                        Err(_) => {},
                    }
                }
            } else {
                let w: usize = if bit == 30 {
                    24
                } else {
                    16
                };
                if len - cur < 2 {
                    let e = DecodeError::Bounds { offset: cur, need: 2, len };
                    proof {
                        assert(spec_walk(b@, cur as int, low, bit, lv) == Err::<
                            (int, Seq<KfV>),
                            DecodeError,
                        >(e));
                    }
                    return Err(e);
                }
                if len - cur < w {
                    let e = DecodeError::Bounds { offset: cur, need: w, len };
                    proof {
                        assert(spec_walk(b@, cur as int, low, bit, lv) == Err::<
                            (int, Seq<KfV>),
                            DecodeError,
                        >(e));
                    }
                    return Err(e);
                }
                cur = cur + w;
                proof {
                    let bk = bit_kfs(b@, cur0, bit, lv);
                    assert(out.deep_view() =~= out0 + bk);
                    let ghost rest = spec_walk(b@, cur as int, low, (bit + 1) as u32, lv);
                    match rest {
                        Ok(p) => {
                            assert((out0 + bk) + p.1 =~= out0 + (bk + p.1));
                        },
                        Err(_) => {},
                    }
                }
            }
        }
        bit = bit + 1;
    }
    assert(spec_walk(b@, cur as int, low, 32, lv) == Ok::<(int, Seq<KfV>), DecodeError>(
        (cur as int, Seq::<KfV>::empty()),
    ));
    assert(out.deep_view() + Seq::<KfV>::empty() =~= out.deep_view());
    Ok((out, cur))
}


/// One frame decoded at `pos`: each part's record in rig order, the
/// cursor running on from part to part.
pub open spec fn spec_decode_frame(b: Seq<u8>, pos: int, n: int, lookup: Seq<CellLookupV>) -> Result<
    (Seq<Seq<KfV>>, int),
    DecodeError,
>
    decreases n,
{
    if n <= 0 {
        Ok((Seq::<Seq<KfV>>::empty(), pos))
    } else {
        match spec_decode_frame(b, pos, n - 1, lookup) {
            Err(e) => Err(e),
            Ok(p) => match spec_decode_frame_part(b, p.1, lookup) {
                Err(e) => Err(e),
                Ok(q) => Ok((p.0.push(q.0), q.1)),
            },
        }
    }
}

/// A failure of the frame decode at some part stands for the whole frame.
pub proof fn lemma_decode_frame_err(b: Seq<u8>, pos: int, m: int, n: int, lookup: Seq<CellLookupV>)
    requires
        0 <= m <= n,
        spec_decode_frame(b, pos, m, lookup) is Err,
    ensures
        spec_decode_frame(b, pos, n, lookup) == spec_decode_frame(b, pos, m, lookup),
    decreases n - m,
{
    if m < n {
        lemma_decode_frame_err(b, pos, m, n - 1, lookup);
    }
}

/// Decodes one frame at `pos`: `n` part records in rig order.
pub fn decode_frame(b: &Vec<u8>, pos: usize, n: usize, lookup: &Vec<CellLookup>) -> (r: Result<
    (Vec<Vec<AttributeKeyframe>>, usize),
    DecodeError,
>)
    ensures
        match r {
            Ok(v) => spec_decode_frame(b@, pos as int, n as int, lookup.deep_view()) == Ok::<
                (Seq<Seq<KfV>>, int),
                DecodeError,
            >((v.0.deep_view(), v.1 as int)),
            Err(e) => spec_decode_frame(b@, pos as int, n as int, lookup.deep_view()) == Err::<
                (Seq<Seq<KfV>>, int),
                DecodeError,
            >(e),
        },
{
    let ghost lv = lookup.deep_view();
    let mut parts: Vec<Vec<AttributeKeyframe>> = Vec::new();
    let mut cur: usize = pos;
    assert(parts.deep_view() =~= Seq::<Seq<KfV>>::empty());
    let mut i: usize = 0;
    while i < n
        invariant
            0 <= i <= n,
            lv == lookup.deep_view(),
            spec_decode_frame(b@, pos as int, i as int, lv) == Ok::<
                (Seq<Seq<KfV>>, int),
                DecodeError,
            >((parts.deep_view(), cur as int)),
        decreases n - i,
    {
        match decode_frame_part(b, cur, lookup) {
            Ok(q) => {
                let ghost parts0 = parts.deep_view();
                let ghost qv = q.0.deep_view();
                let (kfs, end) = q;
                parts.push(kfs);
                cur = end;
                assert(parts.deep_view() =~= parts0.push(qv));
            },
            Err(e) => {
                proof {
                    assert(spec_decode_frame(b@, pos as int, i + 1, lv) == Err::<
                        (Seq<Seq<KfV>>, int),
                        DecodeError,
                    >(e));
                    lemma_decode_frame_err(b@, pos as int, i + 1, n as int, lv);
                }
                return Err(e);
            },
        }
        i = i + 1;
    }
    Ok((parts, cur))
}

/// One attribute track: a tag and its keys in insertion order.
#[derive(Debug)]
pub struct AttrTrack {
    pub tag: AttrTag,
    pub keys: Vec<(u16, AttributeKeyframe)>,
}

/// The mathematical value of one attribute track.
pub struct AttrTrackV {
    pub tag: AttrTag,
    pub keys: Seq<(u16, KfV)>,
}

impl DeepView for AttrTrack {
    type V = AttrTrackV;

    open spec fn deep_view(&self) -> AttrTrackV {
        AttrTrackV { tag: self.tag, keys: self.keys.deep_view() }
    }
}

/// The keyframe tracks of one part, keyed by tag in first-insertion
/// order.
#[derive(Debug)]
pub struct AttributeWriter {
    pub name: Vec<u8>,
    pub attributes: Vec<AttrTrack>,
}

/// The mathematical value of one part's track set.
pub struct AttributeWriterV {
    pub name: Seq<u8>,
    pub attributes: Seq<AttrTrackV>,
}

impl DeepView for AttributeWriter {
    type V = AttributeWriterV;

    open spec fn deep_view(&self) -> AttributeWriterV {
        AttributeWriterV { name: self.name@, attributes: self.attributes.deep_view() }
    }
}

/// The position of the first track carrying `tag`.
pub open spec fn spec_find_track(tracks: Seq<AttrTrackV>, tag: AttrTag) -> Option<int>
    decreases tracks.len(),
{
    if tracks.len() == 0 {
        None
    } else if tracks[0].tag == tag {
        Some(0int)
    } else {
        match spec_find_track(tracks.drop_first(), tag) {
            None => None,
            Some(j) => Some(j + 1),
        }
    }
}

/// A found track position lies in range and matches `tag`, and a miss
/// means no track matches.
pub proof fn lemma_find_track(tracks: Seq<AttrTrackV>, tag: AttrTag)
    ensures
        match spec_find_track(tracks, tag) {
            Some(j) => 0 <= j < tracks.len() && tracks[j].tag == tag,
            None => forall|k: int| 0 <= k < tracks.len() ==> tracks[k].tag != tag,
        },
    decreases tracks.len(),
{
    if tracks.len() == 0 {
    } else if tracks[0].tag == tag {
    } else {
        lemma_find_track(tracks.drop_first(), tag);
        match spec_find_track(tracks.drop_first(), tag) {
            Some(j) => {
                assert(tracks[j + 1] == tracks.drop_first()[j]);
            },
            None => {
                assert forall|k: int| 1 <= k < tracks.len() implies tracks[k].tag != tag by {
                    assert(tracks[k] == tracks.drop_first()[k - 1]);
                    assert(tracks.drop_first()[k - 1].tag != tag);
                }
            },
        }
    }
}

/// The track set after recording keyframe `k` at `frame`: appended to the
/// track of its tag, or opening a fresh track at the end.
pub open spec fn spec_add_kf(tracks: Seq<AttrTrackV>, frame: u16, k: KfV) -> Seq<AttrTrackV> {
    match spec_find_track(tracks, kf_tag(k)) {
        None => tracks.push(AttrTrackV { tag: kf_tag(k), keys: seq![(frame, k)] }),
        Some(j) => tracks.update(
            j,
            AttrTrackV { tag: tracks[j].tag, keys: tracks[j].keys.push((frame, k)) },
        ),
    }
}

/// The track set after recording each keyframe of `kfs` at `frame`, in
/// order.
pub open spec fn spec_add_kfs(tracks: Seq<AttrTrackV>, frame: u16, kfs: Seq<KfV>) -> Seq<AttrTrackV>
    decreases kfs.len(),
{
    if kfs.len() == 0 {
        tracks
    } else {
        spec_add_kf(spec_add_kfs(tracks, frame, kfs.drop_last()), frame, kfs.last())
    }
}

impl AttributeWriter {
    /// A fresh writer for the part called `name`, with no tracks.
    pub fn new(name: Vec<u8>) -> (r: AttributeWriter)
        ensures
            r.deep_view().name == name@,
            r.deep_view().attributes =~= Seq::<AttrTrackV>::empty(),
    {
        let r = AttributeWriter { name, attributes: Vec::new() };
        assert(r.deep_view().attributes =~= Seq::<AttrTrackV>::empty());
        r
    }

    /// Whether any track exists.
    pub fn has_attributes(&self) -> (r: bool)
        ensures
            r == (self.deep_view().attributes.len() != 0),
    {
        self.attributes.len() != 0
    }

    /// Whether a track for `tag` exists.
    pub fn has_attribute(&self, tag: AttrTag) -> (r: bool)
        ensures
            r == (spec_find_track(self.deep_view().attributes, tag) is Some),
    {
        self.find_track(tag).is_some()
    }

    /// Finds the track carrying `tag`.
    fn find_track(&self, tag: AttrTag) -> (r: Option<usize>)
        ensures
            match r {
                Some(j) => spec_find_track(self.deep_view().attributes, tag) == Some(j as int) && j
                    < self.attributes@.len(),
                None => spec_find_track(self.deep_view().attributes, tag) is None,
            },
    {
        let ghost tv = self.deep_view().attributes;
        proof {
            assert(tv.skip(0) =~= tv);
        }
        let mut i: usize = 0;
        while i < self.attributes.len()
            invariant
                0 <= i <= self.attributes@.len(),
                tv == self.deep_view().attributes,
                tv.len() == self.attributes@.len(),
                spec_find_track(tv, tag) == match spec_find_track(tv.skip(i as int), tag) {
                    None => None::<int>,
                    Some(j) => Some(j + i),
                },
            decreases self.attributes@.len() - i,
        {
            if self.attributes[i].tag == tag {
                assert(tv.skip(i as int)[0] == tv[i as int]);
                return Some(i);
            }
            assert(tv.skip(i as int)[0] == tv[i as int]);
            assert(tv.skip(i as int).drop_first() =~= tv.skip(i + 1));
            i = i + 1;
        }
        assert(tv.skip(i as int) =~= Seq::<AttrTrackV>::empty());
        None
    }

    /// Records keyframe `value` at `frame` on the track of its tag,
    /// opening the track when it is new.
    pub fn add_attribute(&mut self, frame: u16, value: AttributeKeyframe)
        ensures
            final(self).deep_view().name == old(self).deep_view().name,
            final(self).deep_view().attributes == spec_add_kf(
                old(self).deep_view().attributes,
                frame,
                value.deep_view(),
            ),
    {
        let ghost t0 = self.deep_view().attributes;
        let ghost kv = value.deep_view();
        let tag = value.tag();
        match self.find_track(tag) {
            None => {
                let mut keys: Vec<(u16, AttributeKeyframe)> = Vec::new();
                keys.push((frame, value));
                assert(keys.deep_view() =~= seq![(frame, kv)]);
                self.attributes.push(AttrTrack { tag, keys });
                assert(self.deep_view().attributes =~= t0.push(
                    AttrTrackV { tag: kf_tag(kv), keys: seq![(frame, kv)] },
                ));
            },
            Some(j) => {
                proof {
                    lemma_find_track(t0, kf_tag(kv));
                }
                let mut track = self.attributes.remove(j);
                let ghost k0 = track.deep_view().keys;
                track.keys.push((frame, value));
                assert(track.deep_view().keys =~= k0.push((frame, kv)));
                self.attributes.insert(j, track);
                assert(self.deep_view().attributes =~= t0.update(
                    j as int,
                    AttrTrackV { tag: t0[j as int].tag, keys: t0[j as int].keys.push((frame, kv)) },
                ));
            },
        }
    }

    /// Records every keyframe of `kfs` at `frame`, in order.
    pub fn add_attributes(&mut self, frame: u16, kfs: &Vec<AttributeKeyframe>)
        ensures
            final(self).deep_view().name == old(self).deep_view().name,
            final(self).deep_view().attributes == spec_add_kfs(
                old(self).deep_view().attributes,
                frame,
                kfs.deep_view(),
            ),
    {
        let ghost t0 = self.deep_view().attributes;
        let ghost kv = kfs.deep_view();
        let mut i: usize = 0;
        assert(kv.take(0) =~= Seq::<KfV>::empty());
        while i < kfs.len()
            invariant
                0 <= i <= kfs@.len(),
                kv == kfs.deep_view(),
                kv.len() == kfs@.len(),
                self.deep_view().name == old(self).deep_view().name,
                self.deep_view().attributes == spec_add_kfs(t0, frame, kv.take(i as int)),
            decreases kfs@.len() - i,
        {
            let k = kfs[i].duplicate();
            self.add_attribute(frame, k);
            proof {
                assert(kv.take(i + 1).drop_last() =~= kv.take(i as int));
                assert(kv.take(i + 1).last() == kv[i as int]);
            }
            i = i + 1;
        }
        assert(kv.take(kfs@.len() as int) =~= kv);
    }
}


impl DeepView for FrameData {
    type V = FrameData;

    open spec fn deep_view(&self) -> FrameData {
        *self
    }
}

/// The first `n` frame stream references at `off`, decoded in order.
pub open spec fn spec_parse_frame_ptrs(b: Seq<u8>, off: int, n: int) -> Result<
    Seq<FrameData>,
    DecodeError,
>
    decreases n,
{
    if n <= 0 {
        Ok(Seq::<FrameData>::empty())
    } else {
        match spec_parse_frame_ptrs(b, off, n - 1) {
            Err(e) => Err(e),
            Ok(ptrs) => if off + (n - 1) * 4 + 4 > b.len() {
                Err(bounds_err(b, off + (n - 1) * 4, 4))
            } else {
                Ok(ptrs.push(FrameData { ptr: Ptr { offset: le32(b, off + (n - 1) * 4) } }))
            },
        }
    }
}

/// A failure of the frame-reference decode at some prefix stands for the
/// whole table.
pub proof fn lemma_parse_frame_ptrs_err(b: Seq<u8>, off: int, m: int, n: int)
    requires
        0 <= m <= n,
        spec_parse_frame_ptrs(b, off, m) is Err,
    ensures
        spec_parse_frame_ptrs(b, off, n) == spec_parse_frame_ptrs(b, off, m),
    decreases n - m,
{
    if m < n {
        lemma_parse_frame_ptrs_err(b, off, m, n - 1);
    }
}

/// An accepted frame-reference decode yields one reference per frame.
pub proof fn lemma_parse_frame_ptrs_len(b: Seq<u8>, off: int, n: int)
    requires
        0 <= n,
        spec_parse_frame_ptrs(b, off, n) is Ok,
    ensures
        spec_parse_frame_ptrs(b, off, n)->Ok_0.len() == n,
    decreases n,
{
    if n > 0 {
        lemma_parse_frame_ptrs_len(b, off, n - 1);
    }
}

/// Decodes `n` frame stream references starting at `off`.
pub fn parse_frame_ptrs(b: &Vec<u8>, off: u32, n: u16) -> (r: Result<Vec<FrameData>, DecodeError>)
    ensures
        match r {
            Ok(v) => spec_parse_frame_ptrs(b@, off as int, n as int) == Ok::<
                Seq<FrameData>,
                DecodeError,
            >(v.deep_view()),
            Err(e) => spec_parse_frame_ptrs(b@, off as int, n as int) == Err::<
                Seq<FrameData>,
                DecodeError,
            >(e),
        },
{
    let mut ptrs: Vec<FrameData> = Vec::new();
    assert(ptrs.deep_view() =~= Seq::<FrameData>::empty());
    let mut i: u16 = 0;
    while i < n
        invariant
            0 <= i <= n,
            spec_parse_frame_ptrs(b@, off as int, i as int) == Ok::<Seq<FrameData>, DecodeError>(
                ptrs.deep_view(),
            ),
        decreases n - i,
    {
        let eoff: u64 = (off as u64) + (i as u64) * 4;
        match crate::binary::check_range(b, eoff, 4) {
            Ok(o) => {
                let ghost p0 = ptrs.deep_view();
                let v = get_u32(b, o);
                ptrs.push(FrameData { ptr: Ptr { offset: v } });
                assert(ptrs.deep_view() =~= p0.push(
                    FrameData { ptr: Ptr { offset: le32(b@, eoff as int) } },
                ));
            },
            Err(e) => {
                proof {
                    assert(spec_parse_frame_ptrs(b@, off as int, i + 1) == Err::<
                        Seq<FrameData>,
                        DecodeError,
                    >(e));
                    lemma_parse_frame_ptrs_err(b@, off as int, i + 1, n as int);
                }
                return Err(e);
            },
        }
        i = i + 1;
    }
    Ok(ptrs)
}

/// A fresh writer per rig part, with no tracks yet.
pub open spec fn spec_init_writers(parts: Seq<crate::anime::PartEntryV>) -> Seq<AttributeWriterV> {
    Seq::new(
        parts.len(),
        |i: int| AttributeWriterV { name: parts[i].name, attributes: Seq::<AttrTrackV>::empty() },
    )
}

/// Each part's writer after recording its share of one frame's keyframes.
pub open spec fn spec_apply_frame_kfs(
    ws: Seq<AttributeWriterV>,
    frame: u16,
    partkfs: Seq<Seq<KfV>>,
) -> Seq<AttributeWriterV> {
    Seq::new(
        ws.len(),
        |i: int|
            AttributeWriterV {
                name: ws[i].name,
                attributes: if i < partkfs.len() {
                    spec_add_kfs(ws[i].attributes, frame, partkfs[i])
                } else {
                    ws[i].attributes
                },
            },
    )
}

/// The writers after decoding frames 0 to `f`-1 in order, each frame's
/// stream found through its reference.
pub open spec fn spec_apply_frames(
    b: Seq<u8>,
    ptrs: Seq<FrameData>,
    nparts: int,
    lookup: Seq<CellLookupV>,
    ws: Seq<AttributeWriterV>,
    f: int,
) -> Result<Seq<AttributeWriterV>, DecodeError>
    decreases f,
{
    if f <= 0 {
        Ok(ws)
    } else {
        match spec_apply_frames(b, ptrs, nparts, lookup, ws, f - 1) {
            Err(e) => Err(e),
            Ok(cur) => match spec_decode_frame(b, ptrs[f - 1].ptr.offset as int, nparts, lookup) {
                Err(e) => Err(e),
                Ok(p) => Ok(spec_apply_frame_kfs(cur, (f - 1) as u16, p.0)),
            },
        }
    }
}

/// A failure of the frame fold at some frame stands for the whole clip.
pub proof fn lemma_apply_frames_err(
    b: Seq<u8>,
    ptrs: Seq<FrameData>,
    nparts: int,
    lookup: Seq<CellLookupV>,
    ws: Seq<AttributeWriterV>,
    m: int,
    f: int,
)
    requires
        0 <= m <= f,
        spec_apply_frames(b, ptrs, nparts, lookup, ws, m) is Err,
    ensures
        spec_apply_frames(b, ptrs, nparts, lookup, ws, f) == spec_apply_frames(
            b,
            ptrs,
            nparts,
            lookup,
            ws,
            m,
        ),
    decreases f - m,
{
    if m < f {
        lemma_apply_frames_err(b, ptrs, nparts, lookup, ws, m, f - 1);
    }
}

/// The per-part track sets of one clip: the clip literally named `Setup`
/// decodes from the default-pose records at frame 0; every other clip
/// decodes from the per-frame streams, frame by frame in rig order.
#[verifier::opaque]
pub open spec fn spec_decode_entry_tracks(
    b: Seq<u8>,
    anime: crate::anime::AnimeV,
    entry: crate::anime::AnimEntryV,
    lookup: Seq<CellLookupV>,
) -> Result<Seq<AttributeWriterV>, DecodeError> {
    if entry.name == "Setup".spec_bytes() {
        match crate::anime::spec_parse_initials(
            b,
            entry.refs.default_data.offset as int,
            anime.parts.len() as int,
        ) {
            Err(e) => Err(e),
            Ok(inits) => Ok(
                Seq::new(
                    anime.parts.len(),
                    |i: int|
                        AttributeWriterV {
                            name: anime.parts[i].name,
                            attributes: spec_add_kfs(
                                Seq::<AttrTrackV>::empty(),
                                0,
                                spec_setup_kfs(inits[i], anime.parts[i].part_type, lookup),
                            ),
                        },
                ),
            ),
        }
    } else {
        match spec_parse_frame_ptrs(
            b,
            entry.refs.frame_data.offset as int,
            entry.refs.total_frames as int,
        ) {
            Err(e) => Err(e),
            Ok(ptrs) => spec_apply_frames(
                b,
                ptrs,
                anime.parts.len() as int,
                lookup,
                spec_init_writers(anime.parts),
                entry.refs.total_frames as int,
            ),
        }
    }
}

/// Decodes the per-part track sets of one clip of `anime`.
pub fn decode_entry_tracks(
    b: &Vec<u8>,
    anime: &crate::anime::Anime,
    entry: &crate::anime::AnimEntry,
    lookup: &Vec<CellLookup>,
) -> (r: Result<Vec<AttributeWriter>, DecodeError>)
    ensures
        match r {
            Ok(v) => spec_decode_entry_tracks(
                b@,
                anime.deep_view(),
                entry.deep_view(),
                lookup.deep_view(),
            ) == Ok::<Seq<AttributeWriterV>, DecodeError>(v.deep_view()),
            Err(e) => spec_decode_entry_tracks(
                b@,
                anime.deep_view(),
                entry.deep_view(),
                lookup.deep_view(),
            ) == Err::<Seq<AttributeWriterV>, DecodeError>(e),
        },
{
    proof {
        reveal(spec_decode_entry_tracks);
    }
    let ghost av = anime.deep_view();
    let ghost ev = entry.deep_view();
    let ghost lv = lookup.deep_view();
    let nparts = anime.parts.len();
    if crate::binary::bytes_eq_str(&entry.name, "Setup") {
        let inits = match parse_initials(b, entry.refs.default_data.offset, nparts) {
            Ok(v) => v,
            Err(e) => {
                return Err(e);
            },
        };
        let ghost iv = inits.deep_view();
        proof {
            crate::anime::lemma_parse_initials_len(
                b@,
                ev.refs.default_data.offset as int,
                nparts as int,
            );
        }
        let mut writers: Vec<AttributeWriter> = Vec::new();
        let mut i: usize = 0;
        while i < nparts
            invariant
                0 <= i <= nparts,
                nparts == anime.parts@.len(),
                av == anime.deep_view(),
                lv == lookup.deep_view(),
                iv == inits.deep_view(),
                iv.len() == nparts,
                writers.deep_view().len() == i as int,
                forall|k: int|
                    0 <= k < i ==> writers.deep_view()[k] == (AttributeWriterV {
                        name: av.parts[k].name,
                        attributes: spec_add_kfs(
                            Seq::<AttrTrackV>::empty(),
                            0,
                            spec_setup_kfs(iv[k], av.parts[k].part_type, lv),
                        ),
                    }),
            decreases nparts - i,
        {
            let part = &anime.parts[i];
            let kfs = setup_keyframes(&inits[i], part.part_type, lookup);
            let mut w = AttributeWriter::new(vstd::slice::slice_to_vec(part.name.as_slice()));
            w.add_attributes(0, &kfs);
            let ghost w0 = writers.deep_view();
            writers.push(w);
            assert(writers.deep_view() =~= w0.push(
                AttributeWriterV {
                    name: av.parts[i as int].name,
                    attributes: spec_add_kfs(
                        Seq::<AttrTrackV>::empty(),
                        0,
                        spec_setup_kfs(iv[i as int], av.parts[i as int].part_type, lv),
                    ),
                },
            ));
            i = i + 1;
        }
        proof {
            assert(writers.deep_view() =~= Seq::new(
                av.parts.len(),
                |k: int|
                    AttributeWriterV {
                        name: av.parts[k].name,
                        attributes: spec_add_kfs(
                            Seq::<AttrTrackV>::empty(),
                            0,
                            spec_setup_kfs(iv[k], av.parts[k].part_type, lv),
                        ),
                    },
            ));
        }
        Ok(writers)
    } else {
        let total = entry.refs.total_frames;
        let ptrs = match parse_frame_ptrs(b, entry.refs.frame_data.offset, total) {
            Ok(v) => v,
            Err(e) => {
                return Err(e);
            },
        };
        let ghost pv = ptrs.deep_view();
        proof {
            lemma_parse_frame_ptrs_len(b@, ev.refs.frame_data.offset as int, total as int);
        }
        let mut writers: Vec<AttributeWriter> = Vec::new();
        let mut i: usize = 0;
        while i < nparts
            invariant
                0 <= i <= nparts,
                nparts == anime.parts@.len(),
                av == anime.deep_view(),
                writers.deep_view().len() == i as int,
                forall|k: int|
                    0 <= k < i ==> writers.deep_view()[k] == (AttributeWriterV {
                        name: av.parts[k].name,
                        attributes: Seq::<AttrTrackV>::empty(),
                    }),
            decreases nparts - i,
        {
            let part = &anime.parts[i];
            let w = AttributeWriter::new(vstd::slice::slice_to_vec(part.name.as_slice()));
            let ghost w0 = writers.deep_view();
            writers.push(w);
            assert(writers.deep_view() =~= w0.push(
                AttributeWriterV {
                    name: av.parts[i as int].name,
                    attributes: Seq::<AttrTrackV>::empty(),
                },
            ));
            i = i + 1;
        }
        assert(writers.deep_view() =~= spec_init_writers(av.parts));
        let mut f: u16 = 0;
        while f < total
            invariant
                0 <= f <= total,
                nparts == anime.parts@.len(),
                av == anime.deep_view(),
                ev == entry.deep_view(),
                lv == lookup.deep_view(),
                pv == ptrs.deep_view(),
                pv.len() == total as int,
                ptrs@.len() == total as int,
                total == ev.refs.total_frames,
                !(ev.name == "Setup".spec_bytes()),
                spec_parse_frame_ptrs(b@, ev.refs.frame_data.offset as int, total as int) == Ok::<
                    Seq<FrameData>,
                    DecodeError,
                >(pv),
                writers.deep_view().len() == nparts as int,
                spec_apply_frames(b@, pv, nparts as int, lv, spec_init_writers(av.parts), f as int)
                    == Ok::<Seq<AttributeWriterV>, DecodeError>(writers.deep_view()),
            decreases total - f,
        {
            let fd = ptrs[f as usize].value();
            let partkfs = match decode_frame(b, fd.0, nparts, lookup) {
                Ok(v) => v.0,
                Err(e) => {
                    proof {
                        reveal(spec_decode_entry_tracks);
                        assert(spec_apply_frames(
                            b@,
                            pv,
                            nparts as int,
                            lv,
                            spec_init_writers(av.parts),
                            f + 1,
                        ) == Err::<Seq<AttributeWriterV>, DecodeError>(e));
                        lemma_apply_frames_err(
                            b@,
                            pv,
                            nparts as int,
                            lv,
                            spec_init_writers(av.parts),
                            f + 1,
                            total as int,
                        );
                    }
                    return Err(e);
                },
            };
            let ghost ws0 = writers.deep_view();
            let ghost pk = partkfs.deep_view();
            let mut j: usize = 0;
            while j < nparts
                invariant
                    0 <= j <= nparts,
                    writers.deep_view().len() == ws0.len(),
                    ws0.len() == nparts,
                    pk == partkfs.deep_view(),
                    partkfs@.len() == pk.len(),
                    forall|k: int|
                        0 <= k < j ==> writers.deep_view()[k] == (AttributeWriterV {
                            name: ws0[k].name,
                            attributes: if k < pk.len() {
                                spec_add_kfs(ws0[k].attributes, f, pk[k])
                            } else {
                                ws0[k].attributes
                            },
                        }),
                    forall|k: int| j <= k < nparts ==> writers.deep_view()[k] == ws0[k],
                decreases nparts - j,
            {
                if j < partkfs.len() {
                    let ghost wv = writers.deep_view();
                    let mut w = writers.remove(j);
                    assert(w.deep_view() == ws0[j as int]);
                    w.add_attributes(f, &partkfs[j]);
                    writers.insert(j, w);
                    assert(writers.deep_view() =~= wv.update(
                        j as int,
                        AttributeWriterV {
                            name: ws0[j as int].name,
                            attributes: spec_add_kfs(ws0[j as int].attributes, f, pk[j as int]),
                        },
                    ));
                }
                j = j + 1;
            }
            proof {
                assert(writers.deep_view() =~= spec_apply_frame_kfs(ws0, f, pk));
            }
            f = f + 1;
        }
        Ok(writers)
    }
}


/// The chunks of one key's `value` element content.
pub open spec fn spec_key_value(s: Seq<ChunkV>, k: KfV) -> Seq<ChunkV> {
    match k {
        KfV::Cell(m, n) => s.push(tc("<mapId>")).push(ChunkV::Text(dec_nat(m as nat))).push(
            tc("</mapId><name>"),
        ).push(ChunkV::Text(esc(n))).push(tc("</name>")),
        KfV::PositionX(v) => s.push(ChunkV::Scalar(v)),
        KfV::PositionY(v) => s.push(ChunkV::Scalar(v)),
        KfV::PositionZ(v) => s.push(ChunkV::Scalar(v)),
        KfV::PivotX(v) => s.push(ChunkV::Scalar(v)),
        KfV::PivotY(v) => s.push(ChunkV::Scalar(v)),
        KfV::RotationX(v) => s.push(ChunkV::Scalar(v)),
        KfV::RotationY(v) => s.push(ChunkV::Scalar(v)),
        KfV::RotationZ(v) => s.push(ChunkV::Scalar(v)),
        KfV::ScaleX(v) => s.push(ChunkV::Scalar(v)),
        KfV::ScaleY(v) => s.push(ChunkV::Scalar(v)),
        KfV::LocalScaleX(v) => s.push(ChunkV::Scalar(v)),
        KfV::LocalScaleY(v) => s.push(ChunkV::Scalar(v)),
        KfV::Opacity(v) => s.push(ChunkV::Ratio(v)),
        KfV::LocalOpacity(v) => s.push(ChunkV::Ratio(v)),
        KfV::SizeX(v) => s.push(ChunkV::Scalar(v)),
        KfV::SizeY(v) => s.push(ChunkV::Scalar(v)),
        KfV::UVMoveU(v) => s.push(ChunkV::Scalar(v)),
        KfV::UVMoveV(v) => s.push(ChunkV::Scalar(v)),
        KfV::UVRotate(v) => s.push(ChunkV::Scalar(v)),
        KfV::UVScaleU(v) => s.push(ChunkV::Scalar(v)),
        KfV::UVScaleV(v) => s.push(ChunkV::Scalar(v)),
        KfV::BoundingRadius(v) => s.push(ChunkV::Scalar(v)),
        KfV::Mask(v) => s.push(ChunkV::Text(dec_nat(v as nat))),
        KfV::Prio(v) => s.push(ChunkV::Text(dec_nat(v as nat))),
        KfV::FlipH(v) => s.push(ChunkV::Text(dec_nat(v as nat))),
        KfV::FlipV(v) => s.push(ChunkV::Text(dec_nat(v as nat))),
        KfV::Hide(v) => s.push(ChunkV::Text(dec_nat(v as nat))),
    }
}

/// The chunks of one `key` element: its frame number, an interpolation
/// marker unless the track or the Setup clip forgoes one, and its value.
pub open spec fn spec_key_chunks(s: Seq<ChunkV>, frame: u16, k: KfV, ignore_interpolation: bool) -> Seq<
    ChunkV,
> {
    let s1 = s.push(tc("<key time=\"")).push(ChunkV::Text(dec_nat(frame as nat)));
    let s2 = if kf_tag(k).spec_use_interpolation() && !ignore_interpolation {
        s1.push(tc("\" ipType=\"linear\"><value>"))
    } else {
        s1.push(tc("\"><value>"))
    };
    spec_key_value(s2, k).push(tc("</value></key>"))
}

impl AttributeKeyframe {
    /// Renders this keyframe as one `key` element.
    pub fn to_xml(&self, frame: u16, doc: &mut Vec<Chunk>, ignore_interpolation: bool)
        ensures
            final(doc).deep_view() == spec_key_chunks(
                old(doc).deep_view(),
                frame,
                self.deep_view(),
                ignore_interpolation,
            ),
    {
        push_text(doc, "<key time=\"");
        push_dec(doc, frame as u32);
        if self.tag().use_interpolation() && !ignore_interpolation {
            push_text(doc, "\" ipType=\"linear\"><value>");
        } else {
            push_text(doc, "\"><value>");
        }
        match self {
            AttributeKeyframe::Cell(m, n) => {
                push_text(doc, "<mapId>");
                push_dec(doc, *m as u32);
                push_text(doc, "</mapId><name>");
                push_esc(doc, n);
                push_text(doc, "</name>");
            },
            AttributeKeyframe::PositionX(v) => push_scalar(doc, *v),
            AttributeKeyframe::PositionY(v) => push_scalar(doc, *v),
            AttributeKeyframe::PositionZ(v) => push_scalar(doc, *v),
            AttributeKeyframe::PivotX(v) => push_scalar(doc, *v),
            AttributeKeyframe::PivotY(v) => push_scalar(doc, *v),
            AttributeKeyframe::RotationX(v) => push_scalar(doc, *v),
            AttributeKeyframe::RotationY(v) => push_scalar(doc, *v),
            AttributeKeyframe::RotationZ(v) => push_scalar(doc, *v),
            AttributeKeyframe::ScaleX(v) => push_scalar(doc, *v),
            AttributeKeyframe::ScaleY(v) => push_scalar(doc, *v),
            AttributeKeyframe::LocalScaleX(v) => push_scalar(doc, *v),
            AttributeKeyframe::LocalScaleY(v) => push_scalar(doc, *v),
            AttributeKeyframe::Opacity(v) => push_ratio(doc, *v),
            AttributeKeyframe::LocalOpacity(v) => push_ratio(doc, *v),
            AttributeKeyframe::SizeX(v) => push_scalar(doc, *v),
            AttributeKeyframe::SizeY(v) => push_scalar(doc, *v),
            AttributeKeyframe::UVMoveU(v) => push_scalar(doc, *v),
            AttributeKeyframe::UVMoveV(v) => push_scalar(doc, *v),
            AttributeKeyframe::UVRotate(v) => push_scalar(doc, *v),
            AttributeKeyframe::UVScaleU(v) => push_scalar(doc, *v),
            AttributeKeyframe::UVScaleV(v) => push_scalar(doc, *v),
            AttributeKeyframe::BoundingRadius(v) => push_scalar(doc, *v),
            AttributeKeyframe::Mask(v) => push_dec(doc, *v as u32),
            AttributeKeyframe::Prio(v) => push_dec(doc, *v as u32),
            AttributeKeyframe::FlipH(v) => push_dec(doc, *v as u32),
            AttributeKeyframe::FlipV(v) => push_dec(doc, *v as u32),
            AttributeKeyframe::Hide(v) => push_dec(doc, *v as u32),
        }
        push_text(doc, "</value></key>");
    }
}

/// The chunks of every key of one track, in insertion order.
pub open spec fn spec_keys_chunks(
    s: Seq<ChunkV>,
    keys: Seq<(u16, KfV)>,
    ignore_interpolation: bool,
) -> Seq<ChunkV>
    decreases keys.len(),
{
    if keys.len() == 0 {
        s
    } else {
        spec_key_chunks(
            spec_keys_chunks(s, keys.drop_last(), ignore_interpolation),
            keys.last().0,
            keys.last().1,
            ignore_interpolation,
        )
    }
}

/// The chunks of one `attribute` element: the track's tag and its keys.
pub open spec fn spec_track_chunks(s: Seq<ChunkV>, t: AttrTrackV, ignore_interpolation: bool) -> Seq<
    ChunkV,
> {
    spec_keys_chunks(
        s.push(tc("<attribute tag=\"")).push(ChunkV::Text(encode_utf8(spec_tag_name(t.tag)))).push(
            tc("\">"),
        ),
        t.keys,
        ignore_interpolation,
    ).push(tc("</attribute>"))
}

/// The chunks of every track of one part, in first-insertion order.
pub open spec fn spec_tracks_chunks(
    s: Seq<ChunkV>,
    tracks: Seq<AttrTrackV>,
    ignore_interpolation: bool,
) -> Seq<ChunkV>
    decreases tracks.len(),
{
    if tracks.len() == 0 {
        s
    } else {
        spec_track_chunks(
            spec_tracks_chunks(s, tracks.drop_last(), ignore_interpolation),
            tracks.last(),
            ignore_interpolation,
        )
    }
}

/// The chunks of one `partAnime` element: the part's name and its tracks.
pub open spec fn spec_part_anime_chunks(
    s: Seq<ChunkV>,
    w: AttributeWriterV,
    ignore_interpolation: bool,
) -> Seq<ChunkV> {
    spec_tracks_chunks(
        s.push(tc("<partAnime><partName>")).push(ChunkV::Text(esc(w.name))).push(
            tc("</partName><attributes>"),
        ),
        w.attributes,
        ignore_interpolation,
    ).push(tc("</attributes></partAnime>"))
}

impl AttributeWriter {
    /// Renders one track as an `attribute` element.
    fn track_to_xml(track: &AttrTrack, doc: &mut Vec<Chunk>, ignore_interpolation: bool)
        ensures
            final(doc).deep_view() == spec_track_chunks(
                old(doc).deep_view(),
                track.deep_view(),
                ignore_interpolation,
            ),
    {
        let ghost tv = track.deep_view();
        push_text(doc, "<attribute tag=\"");
        push_text(doc, track.tag.name_str());
        push_text(doc, "\">");
        let ghost s0 = doc.deep_view();
        let mut i: usize = 0;
        assert(spec_keys_chunks(s0, tv.keys.take(0), ignore_interpolation) == s0);
        while i < track.keys.len()
            invariant
                0 <= i <= track.keys@.len(),
                tv == track.deep_view(),
                tv.keys.len() == track.keys@.len(),
                doc.deep_view() == spec_keys_chunks(s0, tv.keys.take(i as int), ignore_interpolation),
            decreases track.keys@.len() - i,
        {
            let key = &track.keys[i];
            key.1.to_xml(key.0, doc, ignore_interpolation);
            proof {
                assert(tv.keys.take(i + 1).drop_last() =~= tv.keys.take(i as int));
                assert(tv.keys.take(i + 1).last() == tv.keys[i as int]);
            }
            i = i + 1;
        }
        assert(tv.keys.take(track.keys@.len() as int) =~= tv.keys);
        push_text(doc, "</attribute>");
    }

    /// Renders this part's tracks as one `partAnime` element.
    pub fn to_xml(&self, doc: &mut Vec<Chunk>, ignore_interpolation: bool)
        ensures
            final(doc).deep_view() == spec_part_anime_chunks(
                old(doc).deep_view(),
                self.deep_view(),
                ignore_interpolation,
            ),
    {
        let ghost wv = self.deep_view();
        push_text(doc, "<partAnime><partName>");
        push_esc(doc, &self.name);
        push_text(doc, "</partName><attributes>");
        let ghost s0 = doc.deep_view();
        let mut i: usize = 0;
        assert(spec_tracks_chunks(s0, wv.attributes.take(0), ignore_interpolation) == s0);
        while i < self.attributes.len()
            invariant
                0 <= i <= self.attributes@.len(),
                wv == self.deep_view(),
                wv.attributes.len() == self.attributes@.len(),
                doc.deep_view() == spec_tracks_chunks(
                    s0,
                    wv.attributes.take(i as int),
                    ignore_interpolation,
                ),
            decreases self.attributes@.len() - i,
        {
            Self::track_to_xml(&self.attributes[i], doc, ignore_interpolation);
            proof {
                assert(wv.attributes.take(i + 1).drop_last() =~= wv.attributes.take(i as int));
                assert(wv.attributes.take(i + 1).last() == wv.attributes[i as int]);
            }
            i = i + 1;
        }
        assert(wv.attributes.take(self.attributes@.len() as int) =~= wv.attributes);
        push_text(doc, "</attributes></partAnime>");
    }
}


/// A table none of whose conditions hold keeps no keyframe.
pub proof fn lemma_keep_none(s: Seq<(bool, KfV)>)
    requires
        forall|i: int| 0 <= i < s.len() ==> !(#[trigger] s[i]).0,
    ensures
        keep_kfs(s) == Seq::<KfV>::empty(),
    decreases s.len(),
{
    if s.len() > 0 {
        assert(forall|i: int| 0 <= i < s.drop_last().len() ==> #[trigger] s.drop_last()[i] == s[i]);
        lemma_keep_none(s.drop_last());
        assert(keep_kfs(s) =~= Seq::<KfV>::empty());
    }
}

/// Whether every field of a default pose sits at its neutral default:
/// zero for the additive fields, one for the multiplicative scale and
/// texture-scale fields, 255 for the 8-bit opacities, zero for the mask
/// threshold and priority.
pub open spec fn is_default_pose(d: AnimInitial) -> bool {
    &&& is_zero_bits(d.position_x)
    &&& is_zero_bits(d.position_y)
    &&& is_zero_bits(d.position_z)
    &&& is_zero_bits(d.pivot_x)
    &&& is_zero_bits(d.pivot_y)
    &&& is_zero_bits(d.rotate_x)
    &&& is_zero_bits(d.rotate_y)
    &&& is_zero_bits(d.rotate_z)
    &&& is_one_bits(d.scale_x)
    &&& is_one_bits(d.scale_y)
    &&& is_zero_bits(d.local_scale_x)
    &&& is_zero_bits(d.local_scale_y)
    &&& d.opacity == 255
    &&& d.local_opacity == 255
    &&& is_zero_bits(d.size_x)
    &&& is_zero_bits(d.size_y)
    &&& is_zero_bits(d.uv_move_x)
    &&& is_zero_bits(d.uv_move_y)
    &&& is_zero_bits(d.uv_rotate)
    &&& is_one_bits(d.uv_scale_x)
    &&& is_one_bits(d.uv_scale_y)
    &&& is_zero_bits(d.bounding_radius)
    &&& d.masklimen == 0
    &&& d.priority == 0
}

/// A default-valued pose for one image-bearing part yields exactly two
/// Setup keyframes, the resolved cell reference and the visibility key,
/// and no keyframe for any field at its neutral default.
pub proof fn lemma_setup_default(d: AnimInitial, lookup: Seq<CellLookupV>)
    requires
        is_default_pose(d),
        d.cell_index < lookup.len(),
    ensures
        spec_setup_kfs(d, PartType::normal, lookup) =~= seq![
            KfV::Cell(lookup[d.cell_index as int].map_index, lookup[d.cell_index as int].name),
            KfV::Hide(0),
        ],
{
    let t = spec_setup_table(d);
    assert(forall|i: int| 0 <= i < t.len() ==> !(#[trigger] t[i]).0);
    lemma_keep_none(t);
}

/// A frame record whose low mask sets exactly the x-position and y-scale
/// flags consumes eight payload bytes after the frame-start record and
/// yields exactly those two keyframes, in flag order.
pub proof fn lemma_frame_two_fields(b: Seq<u8>, pos: int, lookup: Seq<CellLookupV>)
    requires
        0 <= pos,
        pos + 14 <= b.len(),
        le32(b, pos + 2) == PART_FLAG_POSITION_X | PART_FLAG_SCALE_Y,
    ensures
        spec_decode_frame_part(b, pos, lookup) == Ok::<(Seq<KfV>, int), DecodeError>(
            (seq![KfV::PositionX(le32(b, pos + 6)), KfV::ScaleY(le32(b, pos + 10))], pos + 14),
        ),
{
    let low = le32(b, pos + 2);
    assert(low == 0x2010u32) by (bit_vector)
        requires
            low == 0x10u32 | 0x2000u32,
    ;
    assert(low & (1u32 << 4) != 0 && low & (1u32 << 13) != 0 && low & (1u32 << 3) == 0 && low & (
    1u32 << 5) == 0 && low & (1u32 << 6) == 0 && low & (1u32 << 7) == 0 && low & (1u32 << 8) == 0
        && low & (1u32 << 9) == 0 && low & (1u32 << 10) == 0 && low & (1u32 << 11) == 0 && low & (
    1u32 << 12) == 0 && low & (1u32 << 14) == 0 && low & (1u32 << 15) == 0 && low & (1u32 << 16)
        == 0 && low & (1u32 << 17) == 0 && low & (1u32 << 18) == 0 && low & (1u32 << 19) == 0 && low
        & (1u32 << 20) == 0 && low & (1u32 << 21) == 0 && low & (1u32 << 22) == 0 && low & (1u32
        << 23) == 0 && low & (1u32 << 24) == 0 && low & (1u32 << 25) == 0 && low & (1u32 << 26) == 0
        && low & (1u32 << 27) == 0 && low & (1u32 << 28) == 0 && low & (1u32 << 29) == 0 && low & (
    1u32 << 30) == 0 && low & (1u32 << 31) == 0) by (bit_vector)
        requires
            low == 0x2010u32,
    ;
    reveal_with_fuel(spec_walk, 33);
    assert(spec_walk(b, pos + 14, low, 14, lookup) == Ok::<(int, Seq<KfV>), DecodeError>(
        (pos + 14, Seq::<KfV>::empty()),
    ));
    assert(spec_walk(b, pos + 10, low, 13, lookup) == Ok::<(int, Seq<KfV>), DecodeError>(
        (pos + 14, seq![KfV::ScaleY(le32(b, pos + 10))] + Seq::<KfV>::empty()),
    ));
    assert(spec_walk(b, pos + 10, low, 5, lookup) == spec_walk(b, pos + 10, low, 13, lookup));
    assert(spec_walk(b, pos + 6, low, 4, lookup) == Ok::<(int, Seq<KfV>), DecodeError>(
        (
            pos + 14,
            seq![KfV::PositionX(le32(b, pos + 6))] + (seq![KfV::ScaleY(le32(b, pos + 10))]
                + Seq::<KfV>::empty()),
        ),
    ));
    assert(spec_walk(b, pos + 6, low, 3, lookup) == spec_walk(b, pos + 6, low, 4, lookup));
    assert(seq![KfV::PositionX(le32(b, pos + 6))] + (seq![KfV::ScaleY(le32(b, pos + 10))]
        + Seq::<KfV>::empty()) =~= seq![
        KfV::PositionX(le32(b, pos + 6)),
        KfV::ScaleY(le32(b, pos + 10)),
    ]);
}


impl crate::anime::AnimEntry {
    /// Decodes this clip's default-pose records, one per rig part.
    pub fn get_default_data(&self, binary: &Vec<u8>, num_parts: usize) -> (r: Result<
        Vec<AnimInitial>,
        DecodeError,
    >)
        ensures
            match r {
                Ok(v) => crate::anime::spec_parse_initials(
                    binary@,
                    self.refs.default_data.offset as int,
                    num_parts as int,
                ) == Ok::<Seq<AnimInitial>, DecodeError>(v.deep_view()),
                Err(e) => crate::anime::spec_parse_initials(
                    binary@,
                    self.refs.default_data.offset as int,
                    num_parts as int,
                ) == Err::<Seq<AnimInitial>, DecodeError>(e),
            },
    {
        parse_initials(binary, self.refs.default_data.offset, num_parts)
    }

    /// Decodes this clip's frame stream references, one per frame.
    pub fn get_frame_data(&self, binary: &Vec<u8>, num_frames: u16) -> (r: Result<
        Vec<FrameData>,
        DecodeError,
    >)
        ensures
            match r {
                Ok(v) => spec_parse_frame_ptrs(
                    binary@,
                    self.refs.frame_data.offset as int,
                    num_frames as int,
                ) == Ok::<Seq<FrameData>, DecodeError>(v.deep_view()),
                Err(e) => spec_parse_frame_ptrs(
                    binary@,
                    self.refs.frame_data.offset as int,
                    num_frames as int,
                ) == Err::<Seq<FrameData>, DecodeError>(e),
            },
    {
        parse_frame_ptrs(binary, self.refs.frame_data.offset, num_frames)
    }
}

} // verus!
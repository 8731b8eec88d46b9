//! Animation pack records: rig parts, clip headers, default-pose records,
//! and the reference-name splitter.

use vstd::prelude::*;
use crate::{CastError, DecodeError, PartError};
use crate::binary::{
    bounds_err, bytes_eq_str, check_range, get_i16, get_u16, get_u32, le16, le32, read_str32,
    str_read_r, Ptr, StringPtr,
};
use crate::frames::{spec_part_anime_chunks, AttributeWriter, AttributeWriterV};
use crate::xml::{
    dec_i32, dec_nat, esc, name_list_chunks, create_name_list, push_dec, push_dec_i, push_esc,
    push_scalar, push_text, tc, Chunk, ChunkV,
};
use vstd::string::StringSliceAdditionalSpecFns;
use vstd::utf8::encode_utf8;

verus! {

/// Byte size of one rig part record.
pub const PART_ENTRY_SIZE: u64 = 0x20;

/// Byte size of one animation pack record.
pub const ANIME_SIZE: u64 = 0x10;

/// Byte size of one clip header record.
pub const ANIM_ENTRY_SIZE: u64 = 0x34;

/// Byte size of one default-pose record.
pub const ANIM_INITIAL_SIZE: u64 = 0x90;

/// The kind of one rig node.
#[derive(Debug, Clone, Copy, PartialEq, Eq, Structural)]
#[allow(non_camel_case_types)]
pub enum PartType {
    null,
    normal,
    text,
    instance,
    armature,
    effect,
    mesh,
    movenode,
    constraint,
    mask,
    joint,
    bonepoint,
}

/// Alpha blend kind of one rig node.
#[derive(Debug, Clone, Copy, PartialEq, Eq, Structural)]
#[allow(non_camel_case_types)]
pub enum BlendType {
    mix,
    mul,
    add,
    sub,
    mulalpha,
    screen,
    exclusion,
    invert,
}

/// Collision bounds kind of one rig node.
#[derive(Debug, Clone, Copy, PartialEq, Eq, Structural)]
#[allow(non_camel_case_types)]
pub enum BoundsType {
    none,
    quad,
    aabb,
    circle,
    circle_smin,
    circle_smax,
}

/// The part type selected by ordinal `v`.
pub open spec fn spec_part_type_from(v: u16) -> Result<PartType, DecodeError> {
    if v == 0 {
        Ok(PartType::null)
    } else if v == 1 {
        Ok(PartType::normal)
    } else if v == 2 {
        Ok(PartType::text)
    } else if v == 3 {
        Ok(PartType::instance)
    } else if v == 4 {
        Ok(PartType::armature)
    } else if v == 5 {
        Ok(PartType::effect)
    } else if v == 6 {
        Ok(PartType::mesh)
    } else if v == 7 {
        Ok(PartType::movenode)
    } else if v == 8 {
        Ok(PartType::constraint)
    } else if v == 9 {
        Ok(PartType::mask)
    } else if v == 10 {
        Ok(PartType::joint)
    } else if v == 11 {
        Ok(PartType::bonepoint)
    } else {
        Err(DecodeError::Cast(CastError(v as usize)))
    }
}

/// The blend type selected by ordinal `v`.
pub open spec fn spec_blend_type_from(v: u16) -> Result<BlendType, DecodeError> {
    if v == 0 {
        Ok(BlendType::mix)
    } else if v == 1 {
        Ok(BlendType::mul)
    } else if v == 2 {
        Ok(BlendType::add)
    } else if v == 3 {
        Ok(BlendType::sub)
    } else if v == 4 {
        Ok(BlendType::mulalpha)
    } else if v == 5 {
        Ok(BlendType::screen)
    } else if v == 6 {
        Ok(BlendType::exclusion)
    } else if v == 7 {
        Ok(BlendType::invert)
    } else {
        Err(DecodeError::Cast(CastError(v as usize)))
    }
}

/// The bounds type selected by ordinal `v`.
pub open spec fn spec_bounds_type_from(v: u16) -> Result<BoundsType, DecodeError> {
    if v == 0 {
        Ok(BoundsType::none)
    } else if v == 1 {
        Ok(BoundsType::quad)
    } else if v == 2 {
        Ok(BoundsType::aabb)
    } else if v == 3 {
        Ok(BoundsType::circle)
    } else if v == 4 {
        Ok(BoundsType::circle_smin)
    } else if v == 5 {
        Ok(BoundsType::circle_smax)
    } else {
        Err(DecodeError::Cast(CastError(v as usize)))
    }
}

impl PartType {
    /// Decodes the part-type ordinal.
    pub fn from_u16(v: u16) -> (r: Result<PartType, DecodeError>)
        ensures
            r == spec_part_type_from(v),
    {
        if v == 0 {
            Ok(PartType::null)
        } else if v == 1 {
            Ok(PartType::normal)
        } else if v == 2 {
            Ok(PartType::text)
        } else if v == 3 {
            Ok(PartType::instance)
        } else if v == 4 {
            Ok(PartType::armature)
        } else if v == 5 {
            Ok(PartType::effect)
        } else if v == 6 {
            Ok(PartType::mesh)
        } else if v == 7 {
            Ok(PartType::movenode)
        } else if v == 8 {
            Ok(PartType::constraint)
        } else if v == 9 {
            Ok(PartType::mask)
        } else if v == 10 {
            Ok(PartType::joint)
        } else if v == 11 {
            Ok(PartType::bonepoint)
        } else {
            Err(DecodeError::Cast(CastError(v as usize)))
        }
    }

    /// The part type's name in the output vocabulary.
    pub open spec fn spec_name(self) -> Seq<char> {
        match self {
            PartType::null => "null"@,
            PartType::normal => "normal"@,
            PartType::text => "text"@,
            PartType::instance => "instance"@,
            PartType::armature => "armature"@,
            PartType::effect => "effect"@,
            PartType::mesh => "mesh"@,
            PartType::movenode => "movenode"@,
            PartType::constraint => "constraint"@,
            PartType::mask => "mask"@,
            PartType::joint => "joint"@,
            PartType::bonepoint => "bonepoint"@,
        }
    }

    /// The part type's name in the output vocabulary.
    pub fn name_str(&self) -> (r: &'static str)
        ensures
            r@ == self.spec_name(),
    {
        match self {
            PartType::null => "null",
            PartType::normal => "normal",
            PartType::text => "text",
            PartType::instance => "instance",
            PartType::armature => "armature",
            PartType::effect => "effect",
            PartType::mesh => "mesh",
            PartType::movenode => "movenode",
            PartType::constraint => "constraint",
            PartType::mask => "mask",
            PartType::joint => "joint",
            PartType::bonepoint => "bonepoint",
        }
    }
}

impl BlendType {
    /// Decodes the blend-type ordinal.
    pub fn from_u16(v: u16) -> (r: Result<BlendType, DecodeError>)
        ensures
            r == spec_blend_type_from(v),
    {
        if v == 0 {
            Ok(BlendType::mix)
        } else if v == 1 {
            Ok(BlendType::mul)
        } else if v == 2 {
            Ok(BlendType::add)
        } else if v == 3 {
            Ok(BlendType::sub)
        } else if v == 4 {
            Ok(BlendType::mulalpha)
        } else if v == 5 {
            Ok(BlendType::screen)
        } else if v == 6 {
            Ok(BlendType::exclusion)
        } else if v == 7 {
            Ok(BlendType::invert)
        } else {
            Err(DecodeError::Cast(CastError(v as usize)))
        }
    }

    /// The blend type's name in the output vocabulary.
    pub open spec fn spec_name(self) -> Seq<char> {
        match self {
            BlendType::mix => "mix"@,
            BlendType::mul => "mul"@,
            BlendType::add => "add"@,
            BlendType::sub => "sub"@,
            BlendType::mulalpha => "mulalpha"@,
            BlendType::screen => "screen"@,
            BlendType::exclusion => "exclusion"@,
            BlendType::invert => "invert"@,
        }
    }

    /// The blend type's name in the output vocabulary.
    pub fn name_str(&self) -> (r: &'static str)
        ensures
            r@ == self.spec_name(),
    {
        match self {
            BlendType::mix => "mix",
            BlendType::mul => "mul",
            BlendType::add => "add",
            BlendType::sub => "sub",
            BlendType::mulalpha => "mulalpha",
            BlendType::screen => "screen",
            BlendType::exclusion => "exclusion",
            BlendType::invert => "invert",
        }
    }
}

impl BoundsType {
    /// Decodes the bounds-type ordinal.
    pub fn from_u16(v: u16) -> (r: Result<BoundsType, DecodeError>)
        ensures
            r == spec_bounds_type_from(v),
    {
        if v == 0 {
            Ok(BoundsType::none)
        } else if v == 1 {
            Ok(BoundsType::quad)
        } else if v == 2 {
            Ok(BoundsType::aabb)
        } else if v == 3 {
            Ok(BoundsType::circle)
        } else if v == 4 {
            Ok(BoundsType::circle_smin)
        } else if v == 5 {
            Ok(BoundsType::circle_smax)
        } else {
            Err(DecodeError::Cast(CastError(v as usize)))
        }
    }

    /// The bounds type's name in the output vocabulary.
    pub open spec fn spec_name(self) -> Seq<char> {
        match self {
            BoundsType::none => "none"@,
            BoundsType::quad => "quad"@,
            BoundsType::aabb => "aabb"@,
            BoundsType::circle => "circle"@,
            BoundsType::circle_smin => "circle_smin"@,
            BoundsType::circle_smax => "circle_smax"@,
        }
    }

    /// The bounds type's name in the output vocabulary.
    pub fn name_str(&self) -> (r: &'static str)
        ensures
            r@ == self.spec_name(),
    {
        match self {
            BoundsType::none => "none",
            BoundsType::quad => "quad",
            BoundsType::aabb => "aabb",
            BoundsType::circle => "circle",
            BoundsType::circle_smin => "circle_smin",
            BoundsType::circle_smax => "circle_smax",
        }
    }
}

/// One rig node.
#[derive(Debug)]
pub struct PartEntry {
    pub name: Vec<u8>,
    pub index: i16,
    pub parent_index: i16,
    pub part_type: PartType,
    pub bounds_type: BoundsType,
    pub alpha_blend_type: BlendType,
    pub ref_name: Vec<u8>,
    pub effect_name: Vec<u8>,
    pub color_label: Vec<u8>,
    pub mask_influence: u16,
}

/// The mathematical value of a rig node.
pub struct PartEntryV {
    pub name: Seq<u8>,
    pub index: i16,
    pub parent_index: i16,
    pub part_type: PartType,
    pub bounds_type: BoundsType,
    pub alpha_blend_type: BlendType,
    pub ref_name: Seq<u8>,
    pub effect_name: Seq<u8>,
    pub color_label: Seq<u8>,
    pub mask_influence: u16,
}

impl DeepView for PartEntry {
    type V = PartEntryV;

    open spec fn deep_view(&self) -> PartEntryV {
        PartEntryV {
            name: self.name@,
            index: self.index,
            parent_index: self.parent_index,
            part_type: self.part_type,
            bounds_type: self.bounds_type,
            alpha_blend_type: self.alpha_blend_type,
            ref_name: self.ref_name@,
            effect_name: self.effect_name@,
            color_label: self.color_label@,
            mask_influence: self.mask_influence,
        }
    }
}

/// The rig part record held at `off`, decoded.
pub open spec fn spec_parse_part(b: Seq<u8>, off: int) -> Result<PartEntryV, DecodeError> {
    if off + PART_ENTRY_SIZE > b.len() {
        Err(bounds_err(b, off, PART_ENTRY_SIZE as int))
    } else {
        match str_read_r(b, le32(b, off) as int) {
            Err(e) => Err(e),
            Ok(name) => match spec_part_type_from(le16(b, off + 8)) {
                Err(e) => Err(e),
                Ok(part_type) => match spec_bounds_type_from(le16(b, off + 10)) {
                    Err(e) => Err(e),
                    Ok(bounds_type) => match spec_blend_type_from(le16(b, off + 12)) {
                        Err(e) => Err(e),
                        Ok(alpha_blend_type) => match str_read_r(b, le32(b, off + 16) as int) {
                            Err(e) => Err(e),
                            Ok(ref_name) => match str_read_r(b, le32(b, off + 20) as int) {
                                Err(e) => Err(e),
                                Ok(effect_name) => match str_read_r(b, le32(b, off + 24) as int) {
                                    Err(e) => Err(e),
                                    Ok(color_label) => Ok(
                                        PartEntryV {
                                            name,
                                            index: le16(b, off + 4) as i16,
                                            parent_index: le16(b, off + 6) as i16,
                                            part_type,
                                            bounds_type,
                                            alpha_blend_type,
                                            ref_name,
                                            effect_name,
                                            color_label,
                                            mask_influence: le16(b, off + 28),
                                        },
                                    ),
                                },
                            },
                        },
                    },
                },
            },
        }
    }
}

/// Decodes the rig part record at `off`.
pub fn parse_part(b: &Vec<u8>, off: u64) -> (r: Result<PartEntry, DecodeError>)
    ensures
        match r {
            Ok(v) => spec_parse_part(b@, off as int) == Ok::<PartEntryV, DecodeError>(
                v.deep_view(),
            ),
            Err(e) => spec_parse_part(b@, off as int) == Err::<PartEntryV, DecodeError>(e),
        },
{
    let o = match check_range(b, off, PART_ENTRY_SIZE) {
        Ok(o) => o,
        Err(e) => {
            return Err(e);
        },
    };
    let l = b.len();
    assert(o + PART_ENTRY_SIZE <= l);
    let name = match read_str32(b, get_u32(b, o)) {
        Ok(v) => v,
        Err(e) => {
            return Err(e);
        },
    };
    let part_type = match PartType::from_u16(get_u16(b, o + 8)) {
        Ok(v) => v,
        Err(e) => {
            return Err(e);
        },
    };
    let bounds_type = match BoundsType::from_u16(get_u16(b, o + 10)) {
        Ok(v) => v,
        Err(e) => {
            return Err(e);
        },
    };
    let alpha_blend_type = match BlendType::from_u16(get_u16(b, o + 12)) {
        Ok(v) => v,
        Err(e) => {
            return Err(e);
        },
    };
    let ref_name = match read_str32(b, get_u32(b, o + 16)) {
        Ok(v) => v,
        Err(e) => {
            return Err(e);
        },
    };
    let effect_name = match read_str32(b, get_u32(b, o + 20)) {
        Ok(v) => v,
        Err(e) => {
            return Err(e);
        },
    };
    let color_label = match read_str32(b, get_u32(b, o + 24)) {
        Ok(v) => v,
        Err(e) => {
            return Err(e);
        },
    };
    Ok(
        PartEntry {
            name,
            index: get_i16(b, o + 4),
            parent_index: get_i16(b, o + 6),
            part_type,
            bounds_type,
            alpha_blend_type,
            ref_name,
            effect_name,
            color_label,
            mask_influence: get_u16(b, o + 28),
        },
    )
}

impl PartEntry {
    /// The node's own index in the rig.
    pub fn get_index(&self) -> (r: i16)
        ensures
            r == self.index,
    {
        self.index
    }

    /// The node's parent index; the root carries the sentinel -1.
    pub fn get_parent_index(&self) -> (r: i16)
        ensures
            r == self.parent_index,
    {
        self.parent_index
    }

    /// The node's name.
    pub fn get_name(&self) -> (r: &Vec<u8>)
        ensures
            r@ == self.name@,
    {
        &self.name
    }

    /// The node's kind.
    pub fn get_type(&self) -> (r: PartType)
        ensures
            r == self.part_type,
    {
        self.part_type
    }

    /// The node's collision bounds kind.
    pub fn get_bounds_type(&self) -> (r: BoundsType)
        ensures
            r == self.bounds_type,
    {
        self.bounds_type
    }

    /// The node's alpha blend kind.
    pub fn get_alpha_blend_type(&self) -> (r: BlendType)
        ensures
            r == self.alpha_blend_type,
    {
        self.alpha_blend_type
    }

    /// The pack/animation reference name; empty when the node references
    /// nothing.
    pub fn get_ref_name(&self) -> (r: &Vec<u8>)
        ensures
            r@ == self.ref_name@,
    {
        &self.ref_name
    }

    /// The referenced effect name; empty when the node references nothing.
    pub fn get_effect_name(&self) -> (r: &Vec<u8>)
        ensures
            r@ == self.effect_name@,
    {
        &self.effect_name
    }

    /// The node's color label; empty when unset.
    pub fn get_color_label(&self) -> (r: &Vec<u8>)
        ensures
            r@ == self.color_label@,
    {
        &self.color_label
    }
}

/// The position of the first delimiter byte `/` at or after `off`, or the
/// name's length if none exists.
pub open spec fn slash_pos(s: Seq<u8>, off: int) -> int
    decreases s.len() - off,
{
    if off < 0 || off >= s.len() {
        s.len() as int
    } else if s[off] == 47 {
        off
    } else {
        slash_pos(s, off + 1)
    }
}

/// A reference name split at its first delimiter into pack and animation
/// names; a name without the delimiter is malformed.
pub open spec fn spec_split_ref(s: Seq<u8>) -> Result<(Seq<u8>, Seq<u8>), DecodeError> {
    let p = slash_pos(s, 0);
    if p >= s.len() {
        Err(DecodeError::Part(PartError::MissingPathInRefName))
    } else {
        Ok((s.subrange(0, p), s.subrange(p + 1, s.len() as int)))
    }
}

/// Splits a reference name of the shape `pack/animation` at its first
/// delimiter.
pub fn split_ref_name(s: &Vec<u8>) -> (r: Result<(Vec<u8>, Vec<u8>), DecodeError>)
    ensures
        match r {
            Ok(v) => spec_split_ref(s@) == Ok::<(Seq<u8>, Seq<u8>), DecodeError>((v.0@, v.1@)),
            Err(e) => spec_split_ref(s@) == Err::<(Seq<u8>, Seq<u8>), DecodeError>(e),
        },
{
    let mut p: usize = 0;
    while p < s.len() && s[p] != 47
        invariant
            0 <= p <= s@.len(),
            forall|j: int| 0 <= j < p ==> s@[j] != 47,
            slash_pos(s@, 0) == slash_pos(s@, p as int),
        decreases s@.len() - p,
    {
        p = p + 1;
    }
    if p == s.len() {
        return Err(DecodeError::Part(PartError::MissingPathInRefName));
    }
    assert(slash_pos(s@, 0) == p);
    let mut pack: Vec<u8> = Vec::new();
    let mut i: usize = 0;
    while i < p
        invariant
            0 <= i <= p <= s@.len(),
            pack@ == s@.subrange(0, i as int),
        decreases p - i,
    {
        pack.push(s[i]);
        assert(pack@ =~= s@.subrange(0, i + 1));
        i = i + 1;
    }
    let mut anim: Vec<u8> = Vec::new();
    let mut j: usize = p + 1;
    while j < s.len()
        invariant
            p + 1 <= j <= s@.len(),
            anim@ == s@.subrange(p + 1, j as int),
        decreases s@.len() - j,
    {
        anim.push(s[j]);
        assert(anim@ =~= s@.subrange(p + 1, j + 1));
        j = j + 1;
    }
    assert(pack@ =~= s@.subrange(0, slash_pos(s@, 0)));
    assert(anim@ =~= s@.subrange(slash_pos(s@, 0) + 1, s@.len() as int));
    Ok((pack, anim))
}


/// One clip header.
#[derive(Debug, Clone, Copy, PartialEq, Eq, Structural)]
pub struct AnimEntryRefs {
    pub default_data: Ptr,
    pub frame_data: Ptr,
    pub user_data: u32,
    pub label_data: Ptr,
    pub mesh_data_uv: Ptr,
    pub mesh_data_indices: Ptr,
    pub start_frames: u16,
    pub end_frames: u16,
    pub total_frames: u16,
    pub fps: u16,
    pub label_num: u16,
    pub canvas_size_w: u16,
    pub canvas_size_h: u16,
    pub canvas_pivot_x: u32,
    pub canvas_pivot_y: u32,
}

/// One clip: its name and the scalar fields of its header record.  The
/// canvas pivot fields hold 32-bit float bit patterns.
#[derive(Debug)]
pub struct AnimEntry {
    pub name: Vec<u8>,
    pub refs: AnimEntryRefs,
}

/// The mathematical value of a clip header.
pub struct AnimEntryV {
    pub name: Seq<u8>,
    pub refs: AnimEntryRefs,
}

impl DeepView for AnimEntry {
    type V = AnimEntryV;

    open spec fn deep_view(&self) -> AnimEntryV {
        AnimEntryV { name: self.name@, refs: self.refs }
    }
}

/// The clip header record held at `off`, decoded.
pub open spec fn spec_parse_anim_entry(b: Seq<u8>, off: int) -> Result<AnimEntryV, DecodeError> {
    if off + ANIM_ENTRY_SIZE > b.len() {
        Err(bounds_err(b, off, ANIM_ENTRY_SIZE as int))
    } else {
        match str_read_r(b, le32(b, off) as int) {
            Err(e) => Err(e),
            Ok(name) => Ok(
                AnimEntryV {
                    name,
                    refs: AnimEntryRefs {
                        default_data: Ptr { offset: le32(b, off + 4) },
                        frame_data: Ptr { offset: le32(b, off + 8) },
                        user_data: le32(b, off + 12),
                        label_data: Ptr { offset: le32(b, off + 16) },
                        mesh_data_uv: Ptr { offset: le32(b, off + 20) },
                        mesh_data_indices: Ptr { offset: le32(b, off + 24) },
                        start_frames: le16(b, off + 28),
                        end_frames: le16(b, off + 30),
                        total_frames: le16(b, off + 32),
                        fps: le16(b, off + 34),
                        label_num: le16(b, off + 36),
                        canvas_size_w: le16(b, off + 38),
                        canvas_size_h: le16(b, off + 40),
                        canvas_pivot_x: le32(b, off + 44),
                        canvas_pivot_y: le32(b, off + 48),
                    },
                },
            ),
        }
    }
}

/// Decodes the clip header record at `off`.
pub fn parse_anim_entry(b: &Vec<u8>, off: u64) -> (r: Result<AnimEntry, DecodeError>)
    ensures
        match r {
            Ok(v) => spec_parse_anim_entry(b@, off as int) == Ok::<AnimEntryV, DecodeError>(
                v.deep_view(),
            ),
            Err(e) => spec_parse_anim_entry(b@, off as int) == Err::<AnimEntryV, DecodeError>(e),
        },
{
    let o = match check_range(b, off, ANIM_ENTRY_SIZE) {
        Ok(o) => o,
        Err(e) => {
            return Err(e);
        },
    };
    let l = b.len();
    assert(o + ANIM_ENTRY_SIZE <= l);
    let name = match read_str32(b, get_u32(b, o)) {
        Ok(v) => v,
        Err(e) => {
            return Err(e);
        },
    };
    Ok(
        AnimEntry {
            name,
            refs: AnimEntryRefs {
                default_data: Ptr { offset: get_u32(b, o + 4) },
                frame_data: Ptr { offset: get_u32(b, o + 8) },
                user_data: get_u32(b, o + 12),
                label_data: Ptr { offset: get_u32(b, o + 16) },
                mesh_data_uv: Ptr { offset: get_u32(b, o + 20) },
                mesh_data_indices: Ptr { offset: get_u32(b, o + 24) },
                start_frames: get_u16(b, o + 28),
                end_frames: get_u16(b, o + 30),
                total_frames: get_u16(b, o + 32),
                fps: get_u16(b, o + 34),
                label_num: get_u16(b, o + 36),
                canvas_size_w: get_u16(b, o + 38),
                canvas_size_h: get_u16(b, o + 40),
                canvas_pivot_x: get_u32(b, o + 44),
                canvas_pivot_y: get_u32(b, o + 48),
            },
        },
    )
}

impl AnimEntry {
    /// The clip's name.
    pub fn get_name(&self) -> (r: &Vec<u8>)
        ensures
            r@ == self.name@,
    {
        &self.name
    }

    /// The clip's first frame number.
    pub fn get_start_frames(&self) -> (r: u16)
        ensures
            r == self.refs.start_frames,
    {
        self.refs.start_frames
    }

    /// The clip's total frame count.
    pub fn get_total_frames(&self) -> (r: u16)
        ensures
            r == self.refs.total_frames,
    {
        self.refs.total_frames
    }

    /// The clip's frame rate.
    pub fn get_fps(&self) -> (r: u16)
        ensures
            r == self.refs.fps,
    {
        self.refs.fps
    }
}

/// One default-pose record: every transform, opacity, texture-shift and
/// priority field of one part, as stored.  Fields the binary stores as
/// 32-bit floats hold their bit patterns.
#[derive(Debug, Clone, Copy, PartialEq, Eq, Structural)]
pub struct AnimInitial {
    pub index: u16,
    pub reserve0: u16,
    pub lowflag: u32,
    pub highflag: u32,
    pub priority: u16,
    pub cell_index: u16,
    pub opacity: u16,
    pub local_opacity: u16,
    pub masklimen: u16,
    pub reserve1: u16,
    pub position_x: u32,
    pub position_y: u32,
    pub position_z: u32,
    pub pivot_x: u32,
    pub pivot_y: u32,
    pub rotate_x: u32,
    pub rotate_y: u32,
    pub rotate_z: u32,
    pub scale_x: u32,
    pub scale_y: u32,
    pub local_scale_x: u32,
    pub local_scale_y: u32,
    pub size_x: u32,
    pub size_y: u32,
    pub uv_move_x: u32,
    pub uv_move_y: u32,
    pub uv_rotate: u32,
    pub uv_scale_x: u32,
    pub uv_scale_y: u32,
    pub bounding_radius: u32,
    pub instance_current_frame: u32,
    pub instance_start_frame: u32,
    pub instance_end_frame: u32,
    pub instance_loop_num: u32,
    pub instance_speed: u32,
    pub instance_loop_flag: u32,
    pub effect_current_frame: u32,
    pub effect_start_time: u32,
    pub effect_speed: u32,
    pub effect_loop_flag: u32,
}

impl DeepView for AnimInitial {
    type V = AnimInitial;

    open spec fn deep_view(&self) -> AnimInitial {
        *self
    }
}

/// The default-pose record held at `off`, decoded.
pub open spec fn spec_parse_initial(b: Seq<u8>, off: int) -> Result<AnimInitial, DecodeError> {
    if off + ANIM_INITIAL_SIZE > b.len() {
        Err(bounds_err(b, off, ANIM_INITIAL_SIZE as int))
    } else {
        Ok(
            AnimInitial {
                index: le16(b, off),
                reserve0: le16(b, off + 2),
                lowflag: le32(b, off + 4),
                highflag: le32(b, off + 8),
                priority: le16(b, off + 12),
                cell_index: le16(b, off + 14),
                opacity: le16(b, off + 16),
                local_opacity: le16(b, off + 18),
                masklimen: le16(b, off + 20),
                reserve1: le16(b, off + 22),
                position_x: le32(b, off + 24),
                position_y: le32(b, off + 28),
                position_z: le32(b, off + 32),
                pivot_x: le32(b, off + 36),
                pivot_y: le32(b, off + 40),
                rotate_x: le32(b, off + 44),
                rotate_y: le32(b, off + 48),
                rotate_z: le32(b, off + 52),
                scale_x: le32(b, off + 56),
                scale_y: le32(b, off + 60),
                local_scale_x: le32(b, off + 64),
                local_scale_y: le32(b, off + 68),
                size_x: le32(b, off + 72),
                size_y: le32(b, off + 76),
                uv_move_x: le32(b, off + 80),
                uv_move_y: le32(b, off + 84),
                uv_rotate: le32(b, off + 88),
                uv_scale_x: le32(b, off + 92),
                uv_scale_y: le32(b, off + 96),
                bounding_radius: le32(b, off + 100),
                instance_current_frame: le32(b, off + 104),
                instance_start_frame: le32(b, off + 108),
                instance_end_frame: le32(b, off + 112),
                instance_loop_num: le32(b, off + 116),
                instance_speed: le32(b, off + 120),
                instance_loop_flag: le32(b, off + 124),
                effect_current_frame: le32(b, off + 128),
                effect_start_time: le32(b, off + 132),
                effect_speed: le32(b, off + 136),
                effect_loop_flag: le32(b, off + 140),
            },
        )
    }
}

/// Decodes the default-pose record at `off`.
pub fn parse_initial(b: &Vec<u8>, off: u64) -> (r: Result<AnimInitial, DecodeError>)
    ensures
        match r {
            Ok(v) => spec_parse_initial(b@, off as int) == Ok::<AnimInitial, DecodeError>(v),
            Err(e) => spec_parse_initial(b@, off as int) == Err::<AnimInitial, DecodeError>(e),
        },
{
    let o = match check_range(b, off, ANIM_INITIAL_SIZE) {
        Ok(o) => o,
        Err(e) => {
            return Err(e);
        },
    };
    let l = b.len();
    assert(o + ANIM_INITIAL_SIZE <= l);
    Ok(
        AnimInitial {
            index: get_u16(b, o),
            reserve0: get_u16(b, o + 2),
            lowflag: get_u32(b, o + 4),
            highflag: get_u32(b, o + 8),
            priority: get_u16(b, o + 12),
            cell_index: get_u16(b, o + 14),
            opacity: get_u16(b, o + 16),
            local_opacity: get_u16(b, o + 18),
            masklimen: get_u16(b, o + 20),
            reserve1: get_u16(b, o + 22),
            position_x: get_u32(b, o + 24),
            position_y: get_u32(b, o + 28),
            position_z: get_u32(b, o + 32),
            pivot_x: get_u32(b, o + 36),
            pivot_y: get_u32(b, o + 40),
            rotate_x: get_u32(b, o + 44),
            rotate_y: get_u32(b, o + 48),
            rotate_z: get_u32(b, o + 52),
            scale_x: get_u32(b, o + 56),
            scale_y: get_u32(b, o + 60),
            local_scale_x: get_u32(b, o + 64),
            local_scale_y: get_u32(b, o + 68),
            size_x: get_u32(b, o + 72),
            size_y: get_u32(b, o + 76),
            uv_move_x: get_u32(b, o + 80),
            uv_move_y: get_u32(b, o + 84),
            uv_rotate: get_u32(b, o + 88),
            uv_scale_x: get_u32(b, o + 92),
            uv_scale_y: get_u32(b, o + 96),
            bounding_radius: get_u32(b, o + 100),
            instance_current_frame: get_u32(b, o + 104),
            instance_start_frame: get_u32(b, o + 108),
            instance_end_frame: get_u32(b, o + 112),
            instance_loop_num: get_u32(b, o + 116),
            instance_speed: get_u32(b, o + 120),
            instance_loop_flag: get_u32(b, o + 124),
            effect_current_frame: get_u32(b, o + 128),
            effect_start_time: get_u32(b, o + 132),
            effect_speed: get_u32(b, o + 136),
            effect_loop_flag: get_u32(b, o + 140),
        },
    )
}

/// One clip marker.
#[derive(Debug, Clone, Copy, PartialEq, Eq, Structural)]
pub struct LabelEntry {
    pub name: StringPtr,
    pub time: u16,
}

/// Reference to one part's mesh texture coordinates; unused by the output.
#[derive(Debug, Clone, Copy, PartialEq, Eq, Structural)]
pub struct MeshUV {
    pub data: Ptr,
}

/// Mesh texture-coordinate payload; unused by the output.
#[derive(Debug, Clone, Copy, PartialEq, Eq, Structural)]
pub struct MeshUVData {
}

/// Mesh triangle index payload; unused by the output.
#[derive(Debug, Clone, Copy, PartialEq, Eq, Structural)]
pub struct MeshIndex {
}

/// The first `n` rig part records at `off`, decoded in order.
pub open spec fn spec_parse_parts(b: Seq<u8>, off: int, n: int) -> Result<
    Seq<PartEntryV>,
    DecodeError,
>
    decreases n,
{
    if n <= 0 {
        Ok(Seq::<PartEntryV>::empty())
    } else {
        match spec_parse_parts(b, off, n - 1) {
            Err(e) => Err(e),
            Ok(parts) => match spec_parse_part(b, off + (n - 1) * (PART_ENTRY_SIZE as int)) {
                Err(e) => Err(e),
                Ok(p) => Ok(parts.push(p)),
            },
        }
    }
}

/// A failure of the part-table decode at some prefix stands for the whole
/// table.
pub proof fn lemma_parse_parts_err(b: Seq<u8>, off: int, m: int, n: int)
    requires
        0 <= m <= n,
        spec_parse_parts(b, off, m) is Err,
    ensures
        spec_parse_parts(b, off, n) == spec_parse_parts(b, off, m),
    decreases n - m,
{
    if m < n {
        lemma_parse_parts_err(b, off, m, n - 1);
    }
}

/// Decodes `n` rig part records starting at `off`.
pub fn parse_parts(b: &Vec<u8>, off: u32, n: u16) -> (r: Result<Vec<PartEntry>, DecodeError>)
    ensures
        match r {
            Ok(v) => spec_parse_parts(b@, off as int, n as int) == Ok::<
                Seq<PartEntryV>,
                DecodeError,
            >(v.deep_view()),
            Err(e) => spec_parse_parts(b@, off as int, n as int) == Err::<
                Seq<PartEntryV>,
                DecodeError,
            >(e),
        },
{
    let mut parts: Vec<PartEntry> = Vec::new();
    assert(parts.deep_view() =~= Seq::<PartEntryV>::empty());
    let mut i: u16 = 0;
    while i < n
        invariant
            0 <= i <= n,
            spec_parse_parts(b@, off as int, i as int) == Ok::<Seq<PartEntryV>, DecodeError>(
                parts.deep_view(),
            ),
        decreases n - i,
    {
        let eoff: u64 = (off as u64) + (i as u64) * PART_ENTRY_SIZE;
        match parse_part(b, eoff) {
            Ok(p) => {
                let ghost parts0 = parts.deep_view();
                let ghost pv = p.deep_view();
                parts.push(p);
                assert(parts.deep_view() =~= parts0.push(pv));
            },
            Err(e) => {
                proof {
                    assert(spec_parse_parts(b@, off as int, i + 1) == Err::<
                        Seq<PartEntryV>,
                        DecodeError,
                    >(e));
                    lemma_parse_parts_err(b@, off as int, i + 1, n as int);
                }
                return Err(e);
            },
        }
        i = i + 1;
    }
    Ok(parts)
}

/// The first `n` clip header records at `off`, decoded in order.
pub open spec fn spec_parse_anim_entries(b: Seq<u8>, off: int, n: int) -> Result<
    Seq<AnimEntryV>,
    DecodeError,
>
    decreases n,
{
    if n <= 0 {
        Ok(Seq::<AnimEntryV>::empty())
    } else {
        match spec_parse_anim_entries(b, off, n - 1) {
            Err(e) => Err(e),
            Ok(anims) => match spec_parse_anim_entry(b, off + (n - 1) * (ANIM_ENTRY_SIZE as int)) {
                Err(e) => Err(e),
                Ok(a) => Ok(anims.push(a)),
            },
        }
    }
}

/// A failure of the clip-table decode at some prefix stands for the whole
/// table.
pub proof fn lemma_parse_anim_entries_err(b: Seq<u8>, off: int, m: int, n: int)
    requires
        0 <= m <= n,
        spec_parse_anim_entries(b, off, m) is Err,
    ensures
        spec_parse_anim_entries(b, off, n) == spec_parse_anim_entries(b, off, m),
    decreases n - m,
{
    if m < n {
        lemma_parse_anim_entries_err(b, off, m, n - 1);
    }
}

/// Decodes `n` clip header records starting at `off`.
pub fn parse_anim_entries(b: &Vec<u8>, off: u32, n: u16) -> (r: Result<Vec<AnimEntry>, DecodeError>)
    ensures
        match r {
            Ok(v) => spec_parse_anim_entries(b@, off as int, n as int) == Ok::<
                Seq<AnimEntryV>,
                DecodeError,
            >(v.deep_view()),
            Err(e) => spec_parse_anim_entries(b@, off as int, n as int) == Err::<
                Seq<AnimEntryV>,
                DecodeError,
            >(e),
        },
{
    let mut anims: Vec<AnimEntry> = Vec::new();
    assert(anims.deep_view() =~= Seq::<AnimEntryV>::empty());
    let mut i: u16 = 0;
    while i < n
        invariant
            0 <= i <= n,
            spec_parse_anim_entries(b@, off as int, i as int) == Ok::<Seq<AnimEntryV>, DecodeError>(
                anims.deep_view(),
            ),
        decreases n - i,
    {
        let eoff: u64 = (off as u64) + (i as u64) * ANIM_ENTRY_SIZE;
        match parse_anim_entry(b, eoff) {
            Ok(a) => {
                let ghost anims0 = anims.deep_view();
                let ghost av = a.deep_view();
                anims.push(a);
                assert(anims.deep_view() =~= anims0.push(av));
            },
            Err(e) => {
                proof {
                    assert(spec_parse_anim_entries(b@, off as int, i + 1) == Err::<
                        Seq<AnimEntryV>,
                        DecodeError,
                    >(e));
                    lemma_parse_anim_entries_err(b@, off as int, i + 1, n as int);
                }
                return Err(e);
            },
        }
        i = i + 1;
    }
    Ok(anims)
}

/// The first `n` default-pose records at `off`, decoded in order.
pub open spec fn spec_parse_initials(b: Seq<u8>, off: int, n: int) -> Result<
    Seq<AnimInitial>,
    DecodeError,
>
    decreases n,
{
    if n <= 0 {
        Ok(Seq::<AnimInitial>::empty())
    } else {
        match spec_parse_initials(b, off, n - 1) {
            Err(e) => Err(e),
            Ok(inits) => match spec_parse_initial(b, off + (n - 1) * (ANIM_INITIAL_SIZE as int)) {
                Err(e) => Err(e),
                Ok(d) => Ok(inits.push(d)),
            },
        }
    }
}

/// A failure of the default-pose decode at some prefix stands for the
/// whole table.
pub proof fn lemma_parse_initials_err(b: Seq<u8>, off: int, m: int, n: int)
    requires
        0 <= m <= n,
        spec_parse_initials(b, off, m) is Err,
    ensures
        spec_parse_initials(b, off, n) == spec_parse_initials(b, off, m),
    decreases n - m,
{
    if m < n {
        lemma_parse_initials_err(b, off, m, n - 1);
    }
}

/// An accepted default-pose decode yields one record per index.
pub proof fn lemma_parse_initials_len(b: Seq<u8>, off: int, n: int)
    requires
        0 <= n,
        spec_parse_initials(b, off, n) is Ok,
    ensures
        spec_parse_initials(b, off, n)->Ok_0.len() == n,
    decreases n,
{
    if n > 0 {
        lemma_parse_initials_len(b, off, n - 1);
    }
}

/// An accepted default-pose decode keeps every record inside the buffer.
pub proof fn lemma_parse_initials_bound(b: Seq<u8>, off: int, n: int)
    requires
        0 < n,
        spec_parse_initials(b, off, n) is Ok,
    ensures
        off + n * (ANIM_INITIAL_SIZE as int) <= b.len(),
    decreases n,
{
    if n > 1 {
        lemma_parse_initials_bound(b, off, n - 1);
    }
}

/// Decodes `n` default-pose records starting at `off`.
#[verifier::rlimit(100)]
pub fn parse_initials(b: &Vec<u8>, off: u32, n: usize) -> (r: Result<Vec<AnimInitial>, DecodeError>)
    ensures
        match r {
            Ok(v) => spec_parse_initials(b@, off as int, n as int) == Ok::<
                Seq<AnimInitial>,
                DecodeError,
            >(v.deep_view()),
            Err(e) => spec_parse_initials(b@, off as int, n as int) == Err::<
                Seq<AnimInitial>,
                DecodeError,
            >(e),
        },
{
    let mut inits: Vec<AnimInitial> = Vec::new();
    assert(inits.deep_view() =~= Seq::<AnimInitial>::empty());
    let l = b.len();
    let mut eoff: u64 = off as u64;
    let mut i: usize = 0;
    while i < n
        invariant
            0 <= i <= n,
            l == b@.len(),
            eoff == off + i * (ANIM_INITIAL_SIZE as int),
            spec_parse_initials(b@, off as int, i as int) == Ok::<Seq<AnimInitial>, DecodeError>(
                inits.deep_view(),
            ),
        decreases n - i,
    {
        match parse_initial(b, eoff) {
            Ok(d) => {
                let ghost inits0 = inits.deep_view();
                inits.push(d);
                assert(inits.deep_view() =~= inits0.push(d));
                assert(eoff + ANIM_INITIAL_SIZE <= l);
                eoff = eoff + ANIM_INITIAL_SIZE;
            },
            Err(e) => {
                proof {
                    assert(spec_parse_initials(b@, off as int, i + 1) == Err::<
                        Seq<AnimInitial>,
                        DecodeError,
                    >(e));
                    lemma_parse_initials_err(b@, off as int, i + 1, n as int);
                }
                return Err(e);
            },
        }
        i = i + 1;
    }
    Ok(inits)
}

/// One animation pack: a named rig and its clips.
#[derive(Debug)]
pub struct Anime {
    pub name: Vec<u8>,
    pub parts: Vec<PartEntry>,
    pub anims: Vec<AnimEntry>,
}

/// The mathematical value of an animation pack.
pub struct AnimeV {
    pub name: Seq<u8>,
    pub parts: Seq<PartEntryV>,
    pub anims: Seq<AnimEntryV>,
}

impl DeepView for Anime {
    type V = AnimeV;

    open spec fn deep_view(&self) -> AnimeV {
        AnimeV { name: self.name@, parts: self.parts.deep_view(), anims: self.anims.deep_view() }
    }
}

/// The animation pack record held at `off`, decoded together with its part
/// and clip tables.
pub open spec fn spec_parse_anime(b: Seq<u8>, off: int) -> Result<AnimeV, DecodeError> {
    if off + ANIME_SIZE > b.len() {
        Err(bounds_err(b, off, ANIME_SIZE as int))
    } else {
        match str_read_r(b, le32(b, off) as int) {
            Err(e) => Err(e),
            Ok(name) => match spec_parse_parts(
                b,
                le32(b, off + 4) as int,
                le16(b, off + 12) as int,
            ) {
                Err(e) => Err(e),
                Ok(parts) => match spec_parse_anim_entries(
                    b,
                    le32(b, off + 8) as int,
                    le16(b, off + 14) as int,
                ) {
                    Err(e) => Err(e),
                    Ok(anims) => Ok(AnimeV { name, parts, anims }),
                },
            },
        }
    }
}

/// Decodes the animation pack record at `off` with its part and clip
/// tables.
pub fn parse_anime(b: &Vec<u8>, off: u64) -> (r: Result<Anime, DecodeError>)
    ensures
        match r {
            Ok(v) => spec_parse_anime(b@, off as int) == Ok::<AnimeV, DecodeError>(v.deep_view()),
            Err(e) => spec_parse_anime(b@, off as int) == Err::<AnimeV, DecodeError>(e),
        },
{
    let o = match check_range(b, off, ANIME_SIZE) {
        Ok(o) => o,
        Err(e) => {
            return Err(e);
        },
    };
    let l = b.len();
    assert(o + ANIME_SIZE <= l);
    let name = match read_str32(b, get_u32(b, o)) {
        Ok(v) => v,
        Err(e) => {
            return Err(e);
        },
    };
    let parts = match parse_parts(b, get_u32(b, o + 4), get_u16(b, o + 12)) {
        Ok(v) => v,
        Err(e) => {
            return Err(e);
        },
    };
    let anims = match parse_anim_entries(b, get_u32(b, o + 8), get_u16(b, o + 14)) {
        Ok(v) => v,
        Err(e) => {
            return Err(e);
        },
    };
    Ok(Anime { name, parts, anims })
}

impl Anime {
    /// The pack's name.
    pub fn get_name(&self) -> (r: &Vec<u8>)
        ensures
            r@ == self.name@,
    {
        &self.name
    }

    /// The pack's rig parts in rig order.
    pub fn get_parts(&self) -> (r: &Vec<PartEntry>)
        ensures
            r.deep_view() == self.deep_view().parts,
    {
        &self.parts
    }

    /// The number of rig parts.
    pub fn get_num_parts(&self) -> (r: usize)
        ensures
            r == self.parts@.len(),
    {
        self.parts.len()
    }

    /// The pack's clips.
    pub fn get_anims(&self) -> (r: &Vec<AnimEntry>)
        ensures
            r.deep_view() == self.deep_view().anims,
    {
        &self.anims
    }

    /// The number of clips.
    pub fn get_num_anims(&self) -> (r: usize)
        ensures
            r == self.anims@.len(),
    {
        self.anims.len()
    }
}


/// The fixed leading chunks of one rig part's `value` element: name,
/// indices, kinds, and the inherit block.
#[verifier::opaque]
pub open spec fn spec_part_chunks_a(s: Seq<ChunkV>, p: PartEntryV) -> Seq<ChunkV> {
    s.push(tc("<name>")).push(ChunkV::Text(esc(p.name))).push(tc("</name><arrayIndex>")).push(
        ChunkV::Text(dec_i32(p.index as int)),
    ).push(tc("</arrayIndex><parentIndex>")).push(ChunkV::Text(dec_i32(p.parent_index as int))).push(
        tc("</parentIndex><type>"),
    ).push(ChunkV::Text(encode_utf8(p.part_type.spec_name()))).push(tc("</type><boundsType>")).push(
        ChunkV::Text(encode_utf8(p.bounds_type.spec_name())),
    ).push(tc("</boundsType><inheritType>")).push(
        if p.parent_index == -1 {
            tc("self")
        } else {
            tc("parent")
        },
    ).push(
        tc(
            "</inheritType><ineheritRates><ALPH>1</ALPH><IFLH>0</IFLH><IFLV>0</IFLV><FLPH>0</FLPH><FLPV>0</FLPV><HIDE>0</HIDE></ineheritRates>",
        ),
    )
}

/// The chunks of one rig part's `value` element, or the malformed-reference
/// error when a non-empty reference name lacks its delimiter.  An empty
/// reference name emits no reference fields; empty effect and color names
/// likewise emit nothing.
#[verifier::opaque]
pub open spec fn spec_part_doc(s: Seq<ChunkV>, p: PartEntryV) -> Result<Seq<ChunkV>, DecodeError> {
    if p.ref_name.len() > 0 && spec_split_ref(p.ref_name) is Err {
        Err(spec_split_ref(p.ref_name)->Err_0)
    } else {
        let s1 = spec_part_chunks_a(s, p);
        let s2 = if p.ref_name.len() > 0 {
            let q = spec_split_ref(p.ref_name)->Ok_0;
            s1.push(tc("<refAnimePack>")).push(ChunkV::Text(esc(q.0))).push(
                tc("</refAnimePack><refAnime>"),
            ).push(ChunkV::Text(esc(q.1))).push(tc("</refAnime>"))
        } else {
            s1
        };
        let s3 = if p.effect_name.len() > 0 {
            s2.push(tc("<refEffectName>")).push(ChunkV::Text(esc(p.effect_name))).push(
                tc("</refEffectName>"),
            )
        } else {
            s2
        };
        let s4 = s3.push(tc("<alphaBlendType>")).push(
            ChunkV::Text(encode_utf8(p.alpha_blend_type.spec_name())),
        ).push(
            tc(
                "</alphaBlendType><show>1</show><locked>0</locked><expandAttribute>0</expandAttribute><expandChildren>1</expandChildren>",
            ),
        );
        let s5 = if p.color_label.len() > 0 {
            s4.push(tc("<colorLabel>")).push(ChunkV::Text(esc(p.color_label))).push(
                tc("</colorLabel>"),
            )
        } else {
            s4
        };
        Ok(
            s5.push(tc("<refCellTag></refCellTag><maskInfluence>")).push(
                ChunkV::Text(dec_nat(p.mask_influence as nat)),
            ).push(tc("</maskInfluence>")),
        )
    }
}

impl PartEntry {
    /// Renders the fixed leading fields of this part.
    fn to_xml_a(&self, doc: &mut Vec<Chunk>)
        ensures
            final(doc).deep_view() == spec_part_chunks_a(old(doc).deep_view(), self.deep_view()),
    {
        proof {
            reveal(spec_part_chunks_a);
        }
        push_text(doc, "<name>");
        push_esc(doc, &self.name);
        push_text(doc, "</name><arrayIndex>");
        push_dec_i(doc, self.index as i32);
        push_text(doc, "</arrayIndex><parentIndex>");
        push_dec_i(doc, self.parent_index as i32);
        push_text(doc, "</parentIndex><type>");
        push_text(doc, self.part_type.name_str());
        push_text(doc, "</type><boundsType>");
        push_text(doc, self.bounds_type.name_str());
        push_text(doc, "</boundsType><inheritType>");
        if self.parent_index == -1 {
            push_text(doc, "self");
        } else {
            push_text(doc, "parent");
        }
        push_text(
            doc,
            "</inheritType><ineheritRates><ALPH>1</ALPH><IFLH>0</IFLH><IFLV>0</IFLV><FLPH>0</FLPH><FLPV>0</FLPV><HIDE>0</HIDE></ineheritRates>",
        );
    }

    /// Renders this part's fields as the content of one `value` element of
    /// the pack's model; a non-empty reference name without its delimiter
    /// is the malformed-reference error, and the document is then left
    /// untouched.
    pub fn to_xml(&self, doc: &mut Vec<Chunk>) -> (r: Result<(), DecodeError>)
        ensures
            match r {
                Ok(_) => spec_part_doc(old(doc).deep_view(), self.deep_view()) == Ok::<
                    Seq<ChunkV>,
                    DecodeError,
                >(final(doc).deep_view()),
                Err(e) => spec_part_doc(old(doc).deep_view(), self.deep_view()) == Err::<
                    Seq<ChunkV>,
                    DecodeError,
                >(e) && final(doc).deep_view() == old(doc).deep_view(),
            },
    {
        proof {
            reveal(spec_part_doc);
        }
        let has_ref = self.ref_name.len() > 0;
        let mut pack: Vec<u8> = Vec::new();
        let mut anim: Vec<u8> = Vec::new();
        if has_ref {
            match split_ref_name(&self.ref_name) {
                Ok(q) => {
                    pack = q.0;
                    anim = q.1;
                },
                Err(e) => {
                    return Err(e);
                },
            }
        }
        self.to_xml_a(doc);
        if has_ref {
            push_text(doc, "<refAnimePack>");
            push_esc(doc, &pack);
            push_text(doc, "</refAnimePack><refAnime>");
            push_esc(doc, &anim);
            push_text(doc, "</refAnime>");
        }
        if self.effect_name.len() > 0 {
            push_text(doc, "<refEffectName>");
            push_esc(doc, &self.effect_name);
            push_text(doc, "</refEffectName>");
        }
        push_text(doc, "<alphaBlendType>");
        push_text(doc, self.alpha_blend_type.name_str());
        push_text(
            doc,
            "</alphaBlendType><show>1</show><locked>0</locked><expandAttribute>0</expandAttribute><expandChildren>1</expandChildren>",
        );
        if self.color_label.len() > 0 {
            push_text(doc, "<colorLabel>");
            push_esc(doc, &self.color_label);
            push_text(doc, "</colorLabel>");
        }
        push_text(doc, "<refCellTag></refCellTag><maskInfluence>");
        push_dec(doc, self.mask_influence as u32);
        push_text(doc, "</maskInfluence>");
        Ok(())
    }
}

/// The chunks of one clip's `settings` element.
#[verifier::opaque]
pub open spec fn spec_settings_chunks(s: Seq<ChunkV>, e: AnimEntryRefs) -> Seq<ChunkV> {
    s.push(tc("<fps>")).push(ChunkV::Text(dec_nat(e.fps as nat))).push(
        tc("</fps><frameCount>"),
    ).push(ChunkV::Text(dec_nat(e.total_frames as nat))).push(
        tc("</frameCount><sortMode>prio</sortMode><canvasSize>"),
    ).push(ChunkV::Text(dec_nat(e.canvas_size_w as nat))).push(tc(" ")).push(
        ChunkV::Text(dec_nat(e.canvas_size_h as nat)),
    ).push(tc("</canvasSize><pivot>")).push(ChunkV::Scalar(e.canvas_pivot_x)).push(tc(" ")).push(
        ChunkV::Scalar(e.canvas_pivot_y),
    ).push(
        tc(
            "</pivot><gridSize>32</gridSize><gridColor>FF808080</gridColor><ik_depth>3</ik_depth><startFrame>",
        ),
    ).push(ChunkV::Text(dec_nat(e.start_frames as nat))).push(tc("</startFrame><endFrame>")).push(
        ChunkV::Text(dec_nat(e.end_frames as nat)),
    ).push(tc("</endFrame><outStartNum>0</outStartNum>"))
}

/// The chunks of every part's `partAnime` element; parts with no keyframes
/// are omitted, following the sparse convention.
pub open spec fn spec_part_animes_chunks(
    s: Seq<ChunkV>,
    ws: Seq<AttributeWriterV>,
    ignore_interpolation: bool,
) -> Seq<ChunkV>
    decreases ws.len(),
{
    if ws.len() == 0 {
        s
    } else {
        let rest = spec_part_animes_chunks(s, ws.drop_last(), ignore_interpolation);
        if ws.last().attributes.len() != 0 {
            spec_part_anime_chunks(rest, ws.last(), ignore_interpolation)
        } else {
            rest
        }
    }
}

/// The chunks of one whole `anime` element: the clip's name and settings,
/// its Setup marker, and the per-part tracks already decoded into `ws`.
#[verifier::opaque]
pub open spec fn spec_anime_chunks(s: Seq<ChunkV>, e: AnimEntryV, ws: Seq<AttributeWriterV>) -> Seq<
    ChunkV,
> {
    let is_setup = e.name == "Setup".spec_bytes();
    let s1 = s.push(tc("<anime><name>")).push(ChunkV::Text(esc(e.name))).push(
        tc("</name><overrideSettings>1</overrideSettings><settings>"),
    );
    let s2 = spec_settings_chunks(s1, e.refs).push(tc("</settings><labels/><isSetup>")).push(
        if is_setup {
            tc("1")
        } else {
            tc("0")
        },
    ).push(tc("</isSetup><partAnimes>"));
    spec_part_animes_chunks(s2, ws, is_setup).push(tc("</partAnimes></anime>"))
}

impl AnimEntry {
    /// Renders this clip's `settings` element content.
    fn to_xml_settings(&self, doc: &mut Vec<Chunk>)
        ensures
            final(doc).deep_view() == spec_settings_chunks(old(doc).deep_view(), self.refs),
    {
        proof {
            reveal(spec_settings_chunks);
        }
        push_text(doc, "<fps>");
        push_dec(doc, self.refs.fps as u32);
        push_text(doc, "</fps><frameCount>");
        push_dec(doc, self.refs.total_frames as u32);
        push_text(doc, "</frameCount><sortMode>prio</sortMode><canvasSize>");
        push_dec(doc, self.refs.canvas_size_w as u32);
        push_text(doc, " ");
        push_dec(doc, self.refs.canvas_size_h as u32);
        push_text(doc, "</canvasSize><pivot>");
        push_scalar(doc, self.refs.canvas_pivot_x);
        push_text(doc, " ");
        push_scalar(doc, self.refs.canvas_pivot_y);
        push_text(
            doc,
            "</pivot><gridSize>32</gridSize><gridColor>FF808080</gridColor><ik_depth>3</ik_depth><startFrame>",
        );
        push_dec(doc, self.refs.start_frames as u32);
        push_text(doc, "</startFrame><endFrame>");
        push_dec(doc, self.refs.end_frames as u32);
        push_text(doc, "</endFrame><outStartNum>0</outStartNum>");
    }

    /// Renders this clip as one `anime` element, from its decoded per-part
    /// tracks.
    pub fn to_xml(&self, writers: &Vec<AttributeWriter>, doc: &mut Vec<Chunk>)
        ensures
            final(doc).deep_view() == spec_anime_chunks(
                old(doc).deep_view(),
                self.deep_view(),
                writers.deep_view(),
            ),
    {
        proof {
            reveal(spec_anime_chunks);
        }
        let ghost wv = writers.deep_view();
        let is_setup = bytes_eq_str(&self.name, "Setup");
        push_text(doc, "<anime><name>");
        push_esc(doc, &self.name);
        push_text(doc, "</name><overrideSettings>1</overrideSettings><settings>");
        self.to_xml_settings(doc);
        push_text(doc, "</settings><labels/><isSetup>");
        if is_setup {
            push_text(doc, "1");
        } else {
            push_text(doc, "0");
        }
        push_text(doc, "</isSetup><partAnimes>");
        let ghost s0 = doc.deep_view();
        let mut i: usize = 0;
        assert(spec_part_animes_chunks(s0, wv.take(0), is_setup) == s0);
        while i < writers.len()
            invariant
                0 <= i <= writers@.len(),
                wv == writers.deep_view(),
                wv.len() == writers@.len(),
                doc.deep_view() == spec_part_animes_chunks(s0, wv.take(i as int), is_setup),
            decreases writers@.len() - i,
        {
            let w = &writers[i];
            if w.has_attributes() {
                w.to_xml(doc, is_setup);
            }
            proof {
                assert(wv.take(i + 1).drop_last() =~= wv.take(i as int));
                assert(wv.take(i + 1).last() == wv[i as int]);
            }
            i = i + 1;
        }
        assert(wv.take(writers@.len() as int) =~= wv);
        push_text(doc, "</partAnimes></anime>");
    }
}

/// The chunks of the pack's `Model` part list, or the first part's
/// malformed-reference error.
pub open spec fn spec_part_list_chunks(s: Seq<ChunkV>, parts: Seq<PartEntryV>) -> Result<
    Seq<ChunkV>,
    DecodeError,
>
    decreases parts.len(),
{
    if parts.len() == 0 {
        Ok(s)
    } else {
        match spec_part_list_chunks(s, parts.drop_last()) {
            Err(e) => Err(e),
            Ok(rest) => match spec_part_doc(rest.push(tc("<value>")), parts.last()) {
                Err(e) => Err(e),
                Ok(done) => Ok(done.push(tc("</value>"))),
            },
        }
    }
}

/// The chunks of every clip of the pack, paired with its decoded tracks.
pub open spec fn spec_anime_list_chunks(
    s: Seq<ChunkV>,
    anims: Seq<AnimEntryV>,
    tracks: Seq<Seq<AttributeWriterV>>,
) -> Seq<ChunkV>
    decreases anims.len(),
{
    if anims.len() == 0 {
        s
    } else {
        spec_anime_chunks(
            spec_anime_list_chunks(s, anims.drop_last(), tracks.drop_last()),
            anims.last(),
            tracks.last(),
        )
    }
}

/// The whole animation pack document: the pack's name, its rig model, the
/// atlas file-name list it references, and every clip with its decoded
/// tracks; or the first malformed-reference error among its parts.
#[verifier::opaque]
pub open spec fn spec_anime_pack_doc(
    a: AnimeV,
    cell_names: Seq<Seq<u8>>,
    tracks: Seq<Seq<AttributeWriterV>>,
) -> Result<Seq<ChunkV>, DecodeError> {
    let s1 = Seq::<ChunkV>::empty().push(
        tc(
            "<?xml version=\"1.0\" encoding=\"utf-8\" standalone=\"yes\"?>\n<SpriteStudioAnimePack version=\"2.00.00\"><name>",
        ),
    ).push(ChunkV::Text(esc(a.name))).push(
        tc("</name><exportPath></exportPath><Model><partList>"),
    );
    match spec_part_list_chunks(s1, a.parts) {
        Err(e) => Err(e),
        Ok(s2) => {
            let s3 = name_list_chunks(
                s2.push(tc("</partList></Model>")),
                "cellmapNames",
                cell_names,
            ).push(tc("<animeList>"));
            Ok(
                spec_anime_list_chunks(s3, a.anims, tracks).push(
                    tc("</animeList></SpriteStudioAnimePack>"),
                ),
            )
        },
    }
}

impl Anime {
    /// Renders this pack as one animation pack document, given the atlas
    /// file-name list and each clip's decoded tracks, in clip order.
    #[verifier::rlimit(100)]
    pub fn to_xml(&self, cell_names: &Vec<Vec<u8>>, tracks: &Vec<Vec<AttributeWriter>>) -> (r:
        Result<Vec<Chunk>, DecodeError>)
        requires
            tracks@.len() == self.anims@.len(),
        ensures
            match r {
                Ok(v) => spec_anime_pack_doc(
                    self.deep_view(),
                    cell_names.deep_view(),
                    tracks.deep_view(),
                ) == Ok::<Seq<ChunkV>, DecodeError>(v.deep_view()),
                Err(e) => spec_anime_pack_doc(
                    self.deep_view(),
                    cell_names.deep_view(),
                    tracks.deep_view(),
                ) == Err::<Seq<ChunkV>, DecodeError>(e),
            },
    {
        proof {
            reveal(spec_anime_pack_doc);
        }
        let ghost av = self.deep_view();
        let ghost tv = tracks.deep_view();
        let mut doc: Vec<Chunk> = Vec::new();
        assert(doc.deep_view() =~= Seq::<ChunkV>::empty());
        push_text(
            &mut doc,
            "<?xml version=\"1.0\" encoding=\"utf-8\" standalone=\"yes\"?>\n<SpriteStudioAnimePack version=\"2.00.00\"><name>",
        );
        push_esc(&mut doc, &self.name);
        push_text(&mut doc, "</name><exportPath></exportPath><Model><partList>");
        let ghost s1 = doc.deep_view();
        let mut i: usize = 0;
        assert(spec_part_list_chunks(s1, av.parts.take(0)) == Ok::<Seq<ChunkV>, DecodeError>(s1));
        while i < self.parts.len()
            invariant
                0 <= i <= self.parts@.len(),
                av == self.deep_view(),
                av.parts.len() == self.parts@.len(),
                s1 == Seq::<ChunkV>::empty().push(
                    tc(
                        "<?xml version=\"1.0\" encoding=\"utf-8\" standalone=\"yes\"?>\n<SpriteStudioAnimePack version=\"2.00.00\"><name>",
                    ),
                ).push(ChunkV::Text(esc(av.name))).push(
                    tc("</name><exportPath></exportPath><Model><partList>"),
                ),
                spec_part_list_chunks(s1, av.parts.take(i as int)) == Ok::<Seq<ChunkV>, DecodeError>(
                    doc.deep_view(),
                ),
            decreases self.parts@.len() - i,
        {
            push_text(&mut doc, "<value>");
            match self.parts[i].to_xml(&mut doc) {
                Ok(_) => {},
                Err(e) => {
                    proof {
                        reveal(spec_anime_pack_doc);
                        assert(av.parts.take(i + 1).drop_last() =~= av.parts.take(i as int));
                        assert(av.parts.take(i + 1).last() == av.parts[i as int]);
                        assert(spec_part_list_chunks(s1, av.parts.take(i + 1)) == Err::<
                            Seq<ChunkV>,
                            DecodeError,
                        >(e));
                        lemma_part_list_err(s1, av.parts, i + 1);
                    }
                    return Err(e);
                },
            }
            push_text(&mut doc, "</value>");
            proof {
                assert(av.parts.take(i + 1).drop_last() =~= av.parts.take(i as int));
                assert(av.parts.take(i + 1).last() == av.parts[i as int]);
            }
            i = i + 1;
        }
        assert(av.parts.take(self.parts@.len() as int) =~= av.parts);
        push_text(&mut doc, "</partList></Model>");
        create_name_list(&mut doc, "cellmapNames", cell_names);
        push_text(&mut doc, "<animeList>");
        let ghost s3 = doc.deep_view();
        let mut j: usize = 0;
        assert(spec_anime_list_chunks(s3, av.anims.take(0), tv.take(0)) == s3);
        while j < self.anims.len()
            invariant
                0 <= j <= self.anims@.len(),
                av == self.deep_view(),
                tv == tracks.deep_view(),
                av.anims.len() == self.anims@.len(),
                tv.len() == self.anims@.len(),
                tracks@.len() == self.anims@.len(),
                doc.deep_view() == spec_anime_list_chunks(
                    s3,
                    av.anims.take(j as int),
                    tv.take(j as int),
                ),
            decreases self.anims@.len() - j,
        {
            self.anims[j].to_xml(&tracks[j], &mut doc);
            proof {
                assert(av.anims.take(j + 1).drop_last() =~= av.anims.take(j as int));
                assert(tv.take(j + 1).drop_last() =~= tv.take(j as int));
                assert(av.anims.take(j + 1).last() == av.anims[j as int]);
                assert(tv.take(j + 1).last() == tv[j as int]);
            }
            j = j + 1;
        }
        proof {
            assert(av.anims.take(self.anims@.len() as int) =~= av.anims);
            assert(tv.take(self.anims@.len() as int) =~= tv);
        }
        push_text(&mut doc, "</animeList></SpriteStudioAnimePack>");
        Ok(doc)
    }
}

/// A malformed reference in some prefix of the part list stands for the
/// whole list.
pub proof fn lemma_part_list_err(s: Seq<ChunkV>, parts: Seq<PartEntryV>, m: int)
    requires
        0 <= m <= parts.len(),
        spec_part_list_chunks(s, parts.take(m)) is Err,
    ensures
        spec_part_list_chunks(s, parts) == spec_part_list_chunks(s, parts.take(m)),
    decreases parts.len() - m,
{
    if m < parts.len() {
        assert(parts.take(m + 1).drop_last() =~= parts.take(m));
        lemma_part_list_err(s, parts, m + 1);
        assert(parts.take(parts.len() as int) =~= parts);
    } else {
        assert(parts.take(parts.len() as int) =~= parts);
    }
}


/// The delimiter scan finds a delimiter exactly when one exists at or
/// after `off`, and finds the first one.
proof fn lemma_slash_pos(s: Seq<u8>, off: int)
    requires
        0 <= off <= s.len(),
    ensures
        off <= slash_pos(s, off) <= s.len(),
        slash_pos(s, off) < s.len() ==> s[slash_pos(s, off)] == 47,
        forall|i: int| off <= i < slash_pos(s, off) ==> s[i] != 47,
    decreases s.len() - off,
{
    if off < s.len() && s[off] != 47 {
        lemma_slash_pos(s, off + 1);
    }
}

/// Splitting a reference name succeeds exactly when it holds the
/// delimiter; the parts then surround the first delimiter, so that a name
/// `pack/animation` gives the pack and animation names; a name without
/// the delimiter is the malformed-reference error.
pub proof fn lemma_split_reference(s: Seq<u8>)
    ensures
        (spec_split_ref(s) is Ok) <==> (exists|i: int| 0 <= i < s.len() && s[i] == 47),
        spec_split_ref(s) is Err ==> spec_split_ref(s) == Err::<(Seq<u8>, Seq<u8>), DecodeError>(
            DecodeError::Part(PartError::MissingPathInRefName),
        ),
        spec_split_ref(s) matches Ok(q) ==> s =~= q.0 + seq![47u8] + q.1 && (forall|i: int|
            0 <= i < q.0.len() ==> q.0[i] != 47),
{
    lemma_slash_pos(s, 0);
    let p = slash_pos(s, 0);
    if p < s.len() {
        assert(s[p] == 47);
        let q = spec_split_ref(s)->Ok_0;
        assert(s =~= q.0 + seq![47u8] + q.1);
    } else {
        assert(forall|i: int| 0 <= i < s.len() ==> s[i] != 47);
    }
}

/// An empty reference name emits no reference fields: the part document
/// then succeeds and carries no pack or animation reference elements.
pub proof fn lemma_empty_ref_no_fields(s: Seq<ChunkV>, p: PartEntryV)
    requires
        p.ref_name.len() == 0,
        p.effect_name.len() == 0,
        p.color_label.len() == 0,
    ensures
        spec_part_doc(s, p) == Ok::<Seq<ChunkV>, DecodeError>(
            spec_part_chunks_a(s, p).push(tc("<alphaBlendType>")).push(
                ChunkV::Text(encode_utf8(p.alpha_blend_type.spec_name())),
            ).push(
                tc(
                    "</alphaBlendType><show>1</show><locked>0</locked><expandAttribute>0</expandAttribute><expandChildren>1</expandChildren>",
                ),
            ).push(tc("<refCellTag></refCellTag><maskInfluence>")).push(
                ChunkV::Text(dec_nat(p.mask_influence as nat)),
            ).push(tc("</maskInfluence>")),
        ),
{
    reveal(spec_part_doc);
}

} // verus!

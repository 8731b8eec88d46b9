//! Particle effect records: the effect header, its node tree, and each
//! node's ordered behavior list, a closed tagged union selected by a
//! leading discriminant.

use vstd::prelude::*;
use crate::{CastError, DecodeError, EffectError};
use crate::binary::{bounds_err, check_range, get_i16, get_u16, get_u32, le16, le32, read_str32, str_read_r, Ptr};
use crate::cell::{CellLookup, CellLookupV};
use crate::xml::{
    dec_i32, dec_nat, esc, hex_nat, push_dec, push_dec64, push_dec_i, push_esc, push_hex,
    push_scalar, push_text, tc, Chunk, ChunkV,
};
use vstd::string::StringSliceAdditionalSpecFns;
use vstd::utf8::encode_utf8;

verus! {

/// Byte size of one effect node record.
pub const NODE_SIZE: u64 = 0x10;

/// Byte size of the effect header record.
pub const EFFECT_SIZE: u64 = 0x14;

/// The kind of one effect node; the emitter kind's spelling follows the
/// authoring tool's own vocabulary.
#[derive(Debug, Clone, Copy, PartialEq, Eq, Structural)]
pub enum EffectNodeType {
    Root,
    Emmiter,
    Particle,
}

/// Render blend kind of one effect node.
#[derive(Debug, Clone, Copy, PartialEq, Eq, Structural)]
pub enum RenderBlendType {
    Mix,
    Add,
}

/// The discriminant vocabulary of behavior records; `Base` is the
/// reserved sentinel, invalid as a standalone record.
#[derive(Debug, Clone, Copy, PartialEq, Eq, Structural)]
pub enum BehaviorType {
    Base,
    Basic,
    RndSeedChange,
    Delay,
    Gravity,
    Position,
    Rotation,
    TransRotation,
    TransSpeed,
    TangentialAcceleration,
    InitColor,
    TransColor,
    AlphaFade,
    Size,
    TransSize,
    PointGravity,
    TurnToDirectionEnabled,
    InfiniteEmitEnabled,
}

/// The node type selected by ordinal `v`.
pub open spec fn spec_node_type_from(v: u16) -> Result<EffectNodeType, DecodeError> {
    if v == 0 {
        Ok(EffectNodeType::Root)
    } else if v == 1 {
        Ok(EffectNodeType::Emmiter)
    } else if v == 2 {
        Ok(EffectNodeType::Particle)
    } else {
        Err(DecodeError::Cast(CastError(v as usize)))
    }
}

/// The render blend type selected by ordinal `v`.
pub open spec fn spec_render_blend_from(v: u16) -> Result<RenderBlendType, DecodeError> {
    if v == 0 {
        Ok(RenderBlendType::Mix)
    } else if v == 1 {
        Ok(RenderBlendType::Add)
    } else {
        Err(DecodeError::Cast(CastError(v as usize)))
    }
}

impl EffectNodeType {
    /// Decodes the node-type ordinal.
    pub fn from_u16(v: u16) -> (r: Result<EffectNodeType, DecodeError>)
        ensures
            r == spec_node_type_from(v),
    {
        if v == 0 {
            Ok(EffectNodeType::Root)
        } else if v == 1 {
            Ok(EffectNodeType::Emmiter)
        } else if v == 2 {
            Ok(EffectNodeType::Particle)
        } else {
            Err(DecodeError::Cast(CastError(v as usize)))
        }
    }

    /// The node type's name in the output vocabulary.
    pub open spec fn spec_name(self) -> Seq<char> {
        match self {
            EffectNodeType::Root => "Root"@,
            EffectNodeType::Emmiter => "Emmiter"@,
            EffectNodeType::Particle => "Particle"@,
        }
    }

    /// The node type's name in the output vocabulary.
    pub fn name_str(&self) -> (r: &'static str)
        ensures
            r@ == self.spec_name(),
    {
        match self {
            EffectNodeType::Root => "Root",
            EffectNodeType::Emmiter => "Emmiter",
            EffectNodeType::Particle => "Particle",
        }
    }
}

impl RenderBlendType {
    /// Decodes the blend-type ordinal.
    pub fn from_u16(v: u16) -> (r: Result<RenderBlendType, DecodeError>)
        ensures
            r == spec_render_blend_from(v),
    {
        if v == 0 {
            Ok(RenderBlendType::Mix)
        } else if v == 1 {
            Ok(RenderBlendType::Add)
        } else {
            Err(DecodeError::Cast(CastError(v as usize)))
        }
    }

    /// The blend type's name in the output vocabulary.
    pub open spec fn spec_name(self) -> Seq<char> {
        match self {
            RenderBlendType::Mix => "Mix"@,
            RenderBlendType::Add => "Add"@,
        }
    }

    /// The blend type's name in the output vocabulary.
    pub fn name_str(&self) -> (r: &'static str)
        ensures
            r@ == self.spec_name(),
    {
        match self {
            RenderBlendType::Mix => "Mix",
            RenderBlendType::Add => "Add",
        }
    }
}
/// Payload of the `Basic` behavior; fields the binary stores as 32-bit
/// floats hold their bit patterns.
#[derive(Debug, Clone, Copy, PartialEq, Eq, Structural)]
pub struct Basic {
    pub priority: u32,
    pub maximum_particle: u32,
    pub attime_create: u32,
    pub interval: u32,
    pub lifetime: u32,
    pub speed_min: u32,
    pub speed_max: u32,
    pub lifespan_min: u32,
    pub lifespan_max: u32,
    pub angle: u32,
    pub angle_variance: u32,
}

/// Payload of the `RndSeedChange` behavior; fields the binary stores as 32-bit
/// floats hold their bit patterns.
#[derive(Debug, Clone, Copy, PartialEq, Eq, Structural)]
pub struct RndSeedChange {
    pub seed: u32,
}

/// Payload of the `Delay` behavior; fields the binary stores as 32-bit
/// floats hold their bit patterns.
#[derive(Debug, Clone, Copy, PartialEq, Eq, Structural)]
pub struct Delay {
    pub delay_time: u32,
}

/// Payload of the `Gravity` behavior; fields the binary stores as 32-bit
/// floats hold their bit patterns.
#[derive(Debug, Clone, Copy, PartialEq, Eq, Structural)]
pub struct Gravity {
    pub gravity_x: u32,
    pub gravity_y: u32,
}

/// Payload of the `Position` behavior; fields the binary stores as 32-bit
/// floats hold their bit patterns.
#[derive(Debug, Clone, Copy, PartialEq, Eq, Structural)]
pub struct Position {
    pub offset_x_min: u32,
    pub offset_x_max: u32,
    pub offset_y_min: u32,
    pub offset_y_max: u32,
}

/// Payload of the `Rotation` behavior; fields the binary stores as 32-bit
/// floats hold their bit patterns.
#[derive(Debug, Clone, Copy, PartialEq, Eq, Structural)]
pub struct Rotation {
    pub rotation_min: u32,
    pub rotation_max: u32,
    pub rotation_add_min: u32,
    pub rotation_add_max: u32,
}

/// Payload of the `TransRotation` behavior; fields the binary stores as 32-bit
/// floats hold their bit patterns.
#[derive(Debug, Clone, Copy, PartialEq, Eq, Structural)]
pub struct TransRotation {
    pub rotation_factor: u32,
    pub end_life_time_per: u32,
}

/// Payload of the `TransSpeed` behavior; fields the binary stores as 32-bit
/// floats hold their bit patterns.
#[derive(Debug, Clone, Copy, PartialEq, Eq, Structural)]
pub struct TransSpeed {
    pub speed_min: u32,
    pub speed_max: u32,
}

/// Payload of the `TangentialAcceleration` behavior; fields the binary stores as 32-bit
/// floats hold their bit patterns.
#[derive(Debug, Clone, Copy, PartialEq, Eq, Structural)]
pub struct TangentialAcceleration {
    pub acceleration_min: u32,
    pub acceleration_max: u32,
}

/// Payload of the `InitColor` behavior; fields the binary stores as 32-bit
/// floats hold their bit patterns.
#[derive(Debug, Clone, Copy, PartialEq, Eq, Structural)]
pub struct InitColor {
    pub color_min: u32,
    pub color_max: u32,
}

/// Payload of the `TransColor` behavior; fields the binary stores as 32-bit
/// floats hold their bit patterns.
#[derive(Debug, Clone, Copy, PartialEq, Eq, Structural)]
pub struct TransColor {
    pub color_min: u32,
    pub color_max: u32,
}

/// Payload of the `AlphaFade` behavior; fields the binary stores as 32-bit
/// floats hold their bit patterns.
#[derive(Debug, Clone, Copy, PartialEq, Eq, Structural)]
pub struct AlphaFade {
    pub disprange_min: u32,
    pub disprange_max: u32,
}

/// Payload of the `Size` behavior; fields the binary stores as 32-bit
/// floats hold their bit patterns.
#[derive(Debug, Clone, Copy, PartialEq, Eq, Structural)]
pub struct Size {
    pub size_x_min: u32,
    pub size_x_max: u32,
    pub size_y_min: u32,
    pub size_y_max: u32,
    pub scale_factor_min: u32,
    pub scale_factor_max: u32,
}

/// Payload of the `TransSize` behavior; fields the binary stores as 32-bit
/// floats hold their bit patterns.
#[derive(Debug, Clone, Copy, PartialEq, Eq, Structural)]
pub struct TransSize {
    pub size_x_min: u32,
    pub size_x_max: u32,
    pub size_y_min: u32,
    pub size_y_max: u32,
    pub scale_factor_min: u32,
    pub scale_factor_max: u32,
}

/// Payload of the `PointGravity` behavior; fields the binary stores as 32-bit
/// floats hold their bit patterns.
#[derive(Debug, Clone, Copy, PartialEq, Eq, Structural)]
pub struct PointGravity {
    pub position_x: u32,
    pub position_y: u32,
    pub power: u32,
}

/// Payload of the `TurnToDirectionEnabled` behavior; fields the binary stores as 32-bit
/// floats hold their bit patterns.
#[derive(Debug, Clone, Copy, PartialEq, Eq, Structural)]
pub struct TurnToDirectionEnabled {
    pub rotation: u32,
}

/// Payload of the `InfiniteEmitEnabled` behavior; fields the binary stores as 32-bit
/// floats hold their bit patterns.
#[derive(Debug, Clone, Copy, PartialEq, Eq, Structural)]
pub struct InfiniteEmitEnabled {
    pub flag: u32,
}

/// One decoded behavior record: the closed union of the 17 concrete
/// shapes, selected by the leading discriminant.
#[derive(Debug, Clone, Copy, PartialEq, Eq, Structural)]
pub enum BehaviorData {
    Basic(Basic),
    RndSeedChange(RndSeedChange),
    Delay(Delay),
    Gravity(Gravity),
    Position(Position),
    Rotation(Rotation),
    TransRotation(TransRotation),
    TransSpeed(TransSpeed),
    TangentialAcceleration(TangentialAcceleration),
    InitColor(InitColor),
    TransColor(TransColor),
    AlphaFade(AlphaFade),
    Size(Size),
    TransSize(TransSize),
    PointGravity(PointGravity),
    TurnToDirectionEnabled(TurnToDirectionEnabled),
    InfiniteEmitEnabled(InfiniteEmitEnabled),
}

impl DeepView for BehaviorData {
    type V = BehaviorData;

    open spec fn deep_view(&self) -> BehaviorData {
        *self
    }
}

/// The whole byte size of a behavior record with discriminant `d`.
pub open spec fn behavior_size(d: u16) -> int {
    if d == 1 {
        48
    } else if d == 2 {
        8
    } else if d == 3 {
        8
    } else if d == 4 {
        12
    } else if d == 5 {
        20
    } else if d == 6 {
        20
    } else if d == 7 {
        12
    } else if d == 8 {
        12
    } else if d == 9 {
        12
    } else if d == 10 {
        12
    } else if d == 11 {
        12
    } else if d == 12 {
        12
    } else if d == 13 {
        28
    } else if d == 14 {
        28
    } else if d == 15 {
        16
    } else if d == 16 {
        8
    } else if d == 17 {
        8
    } else {
        0
    }
}

/// The behavior record held at `off`, decoded: the discriminant selects
/// the concrete shape; the reserved base tag and any tag outside the 18
/// known values are errors.
pub open spec fn spec_parse_behavior(b: Seq<u8>, off: int) -> Result<BehaviorData, DecodeError> {
    if off + 2 > b.len() {
        Err(bounds_err(b, off, 2))
    } else {
        let d = le16(b, off);
        if d == 0 {
            Err(DecodeError::Effect(EffectError::GotBaseEffect))
        } else if d > 17 {
            Err(DecodeError::Cast(CastError(d as usize)))
        } else if off + behavior_size(d) > b.len() {
            Err(bounds_err(b, off, behavior_size(d)))
        } else {
            if d == 1 {
                Ok(
                    BehaviorData::Basic(
                        Basic {
                        priority: le32(b, off + 4),
                        maximum_particle: le32(b, off + 8),
                        attime_create: le32(b, off + 12),
                        interval: le32(b, off + 16),
                        lifetime: le32(b, off + 20),
                        speed_min: le32(b, off + 24),
                        speed_max: le32(b, off + 28),
                        lifespan_min: le32(b, off + 32),
                        lifespan_max: le32(b, off + 36),
                        angle: le32(b, off + 40),
                        angle_variance: le32(b, off + 44),
                        },
                    ),
                )
            } else if d == 2 {
                Ok(
                    BehaviorData::RndSeedChange(
                        RndSeedChange {
                        seed: le32(b, off + 4),
                        },
                    ),
                )
            } else if d == 3 {
                Ok(
                    BehaviorData::Delay(
                        Delay {
                        delay_time: le32(b, off + 4),
                        },
                    ),
                )
            } else if d == 4 {
                Ok(
                    BehaviorData::Gravity(
                        Gravity {
                        gravity_x: le32(b, off + 4),
                        gravity_y: le32(b, off + 8),
                        },
                    ),
                )
            } else if d == 5 {
                Ok(
                    BehaviorData::Position(
                        Position {
                        offset_x_min: le32(b, off + 4),
                        offset_x_max: le32(b, off + 8),
                        offset_y_min: le32(b, off + 12),
                        offset_y_max: le32(b, off + 16),
                        },
                    ),
                )
            } else if d == 6 {
                Ok(
                    BehaviorData::Rotation(
                        Rotation {
                        rotation_min: le32(b, off + 4),
                        rotation_max: le32(b, off + 8),
                        rotation_add_min: le32(b, off + 12),
                        rotation_add_max: le32(b, off + 16),
                        },
                    ),
                )
            } else if d == 7 {
                Ok(
                    BehaviorData::TransRotation(
                        TransRotation {
                        rotation_factor: le32(b, off + 4),
                        end_life_time_per: le32(b, off + 8),
                        },
                    ),
                )
            } else if d == 8 {
                Ok(
                    BehaviorData::TransSpeed(
                        TransSpeed {
                        speed_min: le32(b, off + 4),
                        speed_max: le32(b, off + 8),
                        },
                    ),
                )
            } else if d == 9 {
                Ok(
                    BehaviorData::TangentialAcceleration(
                        TangentialAcceleration {
                        acceleration_min: le32(b, off + 4),
                        acceleration_max: le32(b, off + 8),
                        },
                    ),
                )
            } else if d == 10 {
                Ok(
                    BehaviorData::InitColor(
                        InitColor {
                        color_min: le32(b, off + 4),
                        color_max: le32(b, off + 8),
                        },
                    ),
                )
            } else if d == 11 {
                Ok(
                    BehaviorData::TransColor(
                        TransColor {
                        color_min: le32(b, off + 4),
                        color_max: le32(b, off + 8),
                        },
                    ),
                )
            } else if d == 12 {
                Ok(
                    BehaviorData::AlphaFade(
                        AlphaFade {
                        disprange_min: le32(b, off + 4),
                        disprange_max: le32(b, off + 8),
                        },
                    ),
                )
            } else if d == 13 {
                Ok(
                    BehaviorData::Size(
                        Size {
                        size_x_min: le32(b, off + 4),
                        size_x_max: le32(b, off + 8),
                        size_y_min: le32(b, off + 12),
                        size_y_max: le32(b, off + 16),
                        scale_factor_min: le32(b, off + 20),
                        scale_factor_max: le32(b, off + 24),
                        },
                    ),
                )
            } else if d == 14 {
                Ok(
                    BehaviorData::TransSize(
                        TransSize {
                        size_x_min: le32(b, off + 4),
                        size_x_max: le32(b, off + 8),
                        size_y_min: le32(b, off + 12),
                        size_y_max: le32(b, off + 16),
                        scale_factor_min: le32(b, off + 20),
                        scale_factor_max: le32(b, off + 24),
                        },
                    ),
                )
            } else if d == 15 {
                Ok(
                    BehaviorData::PointGravity(
                        PointGravity {
                        position_x: le32(b, off + 4),
                        position_y: le32(b, off + 8),
                        power: le32(b, off + 12),
                        },
                    ),
                )
            } else if d == 16 {
                Ok(
                    BehaviorData::TurnToDirectionEnabled(
                        TurnToDirectionEnabled {
                        rotation: le32(b, off + 4),
                        },
                    ),
                )
            } else if d == 17 {
                Ok(
                    BehaviorData::InfiniteEmitEnabled(
                        InfiniteEmitEnabled {
                        flag: le32(b, off + 4),
                        },
                    ),
                )
            } else {
                Err(DecodeError::Cast(CastError(d as usize)))
            }
        }
    }
}

/// Decodes the behavior record at `off`.
pub fn parse_behavior(b: &Vec<u8>, off: u64) -> (r: Result<BehaviorData, DecodeError>)
    ensures
        match r {
            Ok(v) => spec_parse_behavior(b@, off as int) == Ok::<BehaviorData, DecodeError>(v),
            Err(e) => spec_parse_behavior(b@, off as int) == Err::<BehaviorData, DecodeError>(e),
        },
{
    let o = match check_range(b, off, 2) {
        Ok(o) => o,
        Err(e) => {
            return Err(e);
        },
    };
    let l = b.len();
    assert(o + 2 <= l);
    let d = get_u16(b, o);
    if d == 0 {
        return Err(DecodeError::Effect(EffectError::GotBaseEffect));
    }
    if d > 17 {
        return Err(DecodeError::Cast(CastError(d as usize)));
    }
    if d == 1 {
        match check_range(b, off, 48) {
            Ok(_) => {},
            Err(e) => {
                return Err(e);
            },
        }
        assert(o + 48 <= l);
        Ok(
            BehaviorData::Basic(
                Basic {
                priority: get_u32(b, o + 4),
                maximum_particle: get_u32(b, o + 8),
                attime_create: get_u32(b, o + 12),
                interval: get_u32(b, o + 16),
                lifetime: get_u32(b, o + 20),
                speed_min: get_u32(b, o + 24),
                speed_max: get_u32(b, o + 28),
                lifespan_min: get_u32(b, o + 32),
                lifespan_max: get_u32(b, o + 36),
                angle: get_u32(b, o + 40),
                angle_variance: get_u32(b, o + 44),
                },
            ),
        )
    } else if d == 2 {
        match check_range(b, off, 8) {
            Ok(_) => {},
            Err(e) => {
                return Err(e);
            },
        }
        assert(o + 8 <= l);
        Ok(
            BehaviorData::RndSeedChange(
                RndSeedChange {
                seed: get_u32(b, o + 4),
                },
            ),
        )
    } else if d == 3 {
        match check_range(b, off, 8) {
            Ok(_) => {},
            Err(e) => {
                return Err(e);
            },
        }
        assert(o + 8 <= l);
        Ok(
            BehaviorData::Delay(
                Delay {
                delay_time: get_u32(b, o + 4),
                },
            ),
        )
    } else if d == 4 {
        match check_range(b, off, 12) {
            Ok(_) => {},
            Err(e) => {
                return Err(e);
            },
        }
        assert(o + 12 <= l);
        Ok(
            BehaviorData::Gravity(
                Gravity {
                gravity_x: get_u32(b, o + 4),
                gravity_y: get_u32(b, o + 8),
                },
            ),
        )
    } else if d == 5 {
        match check_range(b, off, 20) {
            Ok(_) => {},
            Err(e) => {
                return Err(e);
            },
        }
        assert(o + 20 <= l);
        Ok(
            BehaviorData::Position(
                Position {
                offset_x_min: get_u32(b, o + 4),
                offset_x_max: get_u32(b, o + 8),
                offset_y_min: get_u32(b, o + 12),
                offset_y_max: get_u32(b, o + 16),
                },
            ),
        )
    } else if d == 6 {
        match check_range(b, off, 20) {
            Ok(_) => {},
            Err(e) => {
                return Err(e);
            },
        }
        assert(o + 20 <= l);
        Ok(
            BehaviorData::Rotation(
                Rotation {
                rotation_min: get_u32(b, o + 4),
                rotation_max: get_u32(b, o + 8),
                rotation_add_min: get_u32(b, o + 12),
                rotation_add_max: get_u32(b, o + 16),
                },
            ),
        )
    } else if d == 7 {
        match check_range(b, off, 12) {
            Ok(_) => {},
            Err(e) => {
                return Err(e);
            },
        }
        assert(o + 12 <= l);
        Ok(
            BehaviorData::TransRotation(
                TransRotation {
                rotation_factor: get_u32(b, o + 4),
                end_life_time_per: get_u32(b, o + 8),
                },
            ),
        )
    } else if d == 8 {
        match check_range(b, off, 12) {
            Ok(_) => {},
            Err(e) => {
                return Err(e);
            },
        }
        assert(o + 12 <= l);
        Ok(
            BehaviorData::TransSpeed(
                TransSpeed {
                speed_min: get_u32(b, o + 4),
                speed_max: get_u32(b, o + 8),
                },
            ),
        )
    } else if d == 9 {
        match check_range(b, off, 12) {
            Ok(_) => {},
            Err(e) => {
                return Err(e);
            },
        }
        assert(o + 12 <= l);
        Ok(
            BehaviorData::TangentialAcceleration(
                TangentialAcceleration {
                acceleration_min: get_u32(b, o + 4),
                acceleration_max: get_u32(b, o + 8),
                },
            ),
        )
    } else if d == 10 {
        match check_range(b, off, 12) {
            Ok(_) => {},
            Err(e) => {
                return Err(e);
            },
        }
        assert(o + 12 <= l);
        Ok(
            BehaviorData::InitColor(
                InitColor {
                color_min: get_u32(b, o + 4),
                color_max: get_u32(b, o + 8),
                },
            ),
        )
    } else if d == 11 {
        match check_range(b, off, 12) {
            Ok(_) => {},
            Err(e) => {
                return Err(e);
            },
        }
        assert(o + 12 <= l);
        Ok(
            BehaviorData::TransColor(
                TransColor {
                color_min: get_u32(b, o + 4),
                color_max: get_u32(b, o + 8),
                },
            ),
        )
    } else if d == 12 {
        match check_range(b, off, 12) {
            Ok(_) => {},
            Err(e) => {
                return Err(e);
            },
        }
        assert(o + 12 <= l);
        Ok(
            BehaviorData::AlphaFade(
                AlphaFade {
                disprange_min: get_u32(b, o + 4),
                disprange_max: get_u32(b, o + 8),
                },
            ),
        )
    } else if d == 13 {
        match check_range(b, off, 28) {
            Ok(_) => {},
            Err(e) => {
                return Err(e);
            },
        }
        assert(o + 28 <= l);
        Ok(
            BehaviorData::Size(
                Size {
                size_x_min: get_u32(b, o + 4),
                size_x_max: get_u32(b, o + 8),
                size_y_min: get_u32(b, o + 12),
                size_y_max: get_u32(b, o + 16),
                scale_factor_min: get_u32(b, o + 20),
                scale_factor_max: get_u32(b, o + 24),
                },
            ),
        )
    } else if d == 14 {
        match check_range(b, off, 28) {
            Ok(_) => {},
            Err(e) => {
                return Err(e);
            },
        }
        assert(o + 28 <= l);
        Ok(
            BehaviorData::TransSize(
                TransSize {
                size_x_min: get_u32(b, o + 4),
                size_x_max: get_u32(b, o + 8),
                size_y_min: get_u32(b, o + 12),
                size_y_max: get_u32(b, o + 16),
                scale_factor_min: get_u32(b, o + 20),
                scale_factor_max: get_u32(b, o + 24),
                },
            ),
        )
    } else if d == 15 {
        match check_range(b, off, 16) {
            Ok(_) => {},
            Err(e) => {
                return Err(e);
            },
        }
        assert(o + 16 <= l);
        Ok(
            BehaviorData::PointGravity(
                PointGravity {
                position_x: get_u32(b, o + 4),
                position_y: get_u32(b, o + 8),
                power: get_u32(b, o + 12),
                },
            ),
        )
    } else if d == 16 {
        match check_range(b, off, 8) {
            Ok(_) => {},
            Err(e) => {
                return Err(e);
            },
        }
        assert(o + 8 <= l);
        Ok(
            BehaviorData::TurnToDirectionEnabled(
                TurnToDirectionEnabled {
                rotation: get_u32(b, o + 4),
                },
            ),
        )
    } else if d == 17 {
        match check_range(b, off, 8) {
            Ok(_) => {},
            Err(e) => {
                return Err(e);
            },
        }
        assert(o + 8 <= l);
        Ok(
            BehaviorData::InfiniteEmitEnabled(
                InfiniteEmitEnabled {
                flag: get_u32(b, o + 4),
                },
            ),
        )
    } else {
        Err(DecodeError::Cast(CastError(d as usize)))
    }
}


/// The first `n` behavior references at `off` (an array of offset
/// references), each followed to its record and decoded.
pub open spec fn spec_parse_behaviors(b: Seq<u8>, off: int, n: int) -> Result<
    Seq<BehaviorData>,
    DecodeError,
>
    decreases n,
{
    if n <= 0 {
        Ok(Seq::<BehaviorData>::empty())
    } else {
        match spec_parse_behaviors(b, off, n - 1) {
            Err(e) => Err(e),
            Ok(bs) => if off + (n - 1) * 4 + 4 > b.len() {
                Err(bounds_err(b, off + (n - 1) * 4, 4))
            } else {
                match spec_parse_behavior(b, le32(b, off + (n - 1) * 4) as int) {
                    Err(e) => Err(e),
                    Ok(d) => Ok(bs.push(d)),
                }
            },
        }
    }
}

/// A failure of the behavior-list decode at some prefix stands for the
/// whole list.
pub proof fn lemma_parse_behaviors_err(b: Seq<u8>, off: int, m: int, n: int)
    requires
        0 <= m <= n,
        spec_parse_behaviors(b, off, m) is Err,
    ensures
        spec_parse_behaviors(b, off, n) == spec_parse_behaviors(b, off, m),
    decreases n - m,
{
    if m < n {
        lemma_parse_behaviors_err(b, off, m, n - 1);
    }
}

/// Decodes `n` behavior references starting at `off`.
pub fn parse_behaviors(b: &Vec<u8>, off: u32, n: u16) -> (r: Result<Vec<BehaviorData>, DecodeError>)
    ensures
        match r {
            Ok(v) => spec_parse_behaviors(b@, off as int, n as int) == Ok::<
                Seq<BehaviorData>,
                DecodeError,
            >(v.deep_view()),
            Err(e) => spec_parse_behaviors(b@, off as int, n as int) == Err::<
                Seq<BehaviorData>,
                DecodeError,
            >(e),
        },
{
    let mut bs: Vec<BehaviorData> = Vec::new();
    assert(bs.deep_view() =~= Seq::<BehaviorData>::empty());
    let mut i: u16 = 0;
    while i < n
        invariant
            0 <= i <= n,
            spec_parse_behaviors(b@, off as int, i as int) == Ok::<Seq<BehaviorData>, DecodeError>(
                bs.deep_view(),
            ),
        decreases n - i,
    {
        let eoff: u64 = (off as u64) + (i as u64) * 4;
        let o = match check_range(b, eoff, 4) {
            Ok(o) => o,
            Err(e) => {
                proof {
                    assert(spec_parse_behaviors(b@, off as int, i + 1) == Err::<
                        Seq<BehaviorData>,
                        DecodeError,
                    >(e));
                    lemma_parse_behaviors_err(b@, off as int, i + 1, n as int);
                }
                return Err(e);
            },
        };
        let l = b.len();
        assert(o + 4 <= l);
        let p = get_u32(b, o);
        match parse_behavior(b, p as u64) {
            Ok(d) => {
                let ghost bs0 = bs.deep_view();
                bs.push(d);
                assert(bs.deep_view() =~= bs0.push(d));
            },
            Err(e) => {
                proof {
                    assert(spec_parse_behaviors(b@, off as int, i + 1) == Err::<
                        Seq<BehaviorData>,
                        DecodeError,
                    >(e));
                    lemma_parse_behaviors_err(b@, off as int, i + 1, n as int);
                }
                return Err(e);
            },
        }
        i = i + 1;
    }
    Ok(bs)
}

/// One effect node: its place in the tree, its kind, its cell reference
/// and blend, and its decoded behavior list in stored order.
#[derive(Debug)]
pub struct Node {
    pub array_index: i16,
    pub parent_index: i16,
    pub node_type: EffectNodeType,
    pub cell_index: i16,
    pub blend_type: RenderBlendType,
    pub behaviors: Vec<BehaviorData>,
}

/// The mathematical value of one effect node.
pub struct NodeV {
    pub array_index: i16,
    pub parent_index: i16,
    pub node_type: EffectNodeType,
    pub cell_index: i16,
    pub blend_type: RenderBlendType,
    pub behaviors: Seq<BehaviorData>,
}

impl DeepView for Node {
    type V = NodeV;

    open spec fn deep_view(&self) -> NodeV {
        NodeV {
            array_index: self.array_index,
            parent_index: self.parent_index,
            node_type: self.node_type,
            cell_index: self.cell_index,
            blend_type: self.blend_type,
            behaviors: self.behaviors.deep_view(),
        }
    }
}

impl Node {
    /// The node's own index in the node table.
    pub fn get_array_index(&self) -> (r: i16)
        ensures
            r == self.array_index,
    {
        self.array_index
    }

    /// The node's parent index; the root carries the sentinel -1.
    pub fn get_parent_index(&self) -> (r: i16)
        ensures
            r == self.parent_index,
    {
        self.parent_index
    }

    /// The node's kind.
    pub fn get_type(&self) -> (r: EffectNodeType)
        ensures
            r == self.node_type,
    {
        self.node_type
    }

    /// The node's cell reference: a flat cell-table position, or the
    /// sentinel -1 for none.
    pub fn get_cell_index(&self) -> (r: i16)
        ensures
            r == self.cell_index,
    {
        self.cell_index
    }

    /// The node's render blend kind.
    pub fn get_blend_type(&self) -> (r: RenderBlendType)
        ensures
            r == self.blend_type,
    {
        self.blend_type
    }

    /// The node's decoded behavior list, in stored order.
    pub fn get_behaviors(&self) -> (r: &Vec<BehaviorData>)
        ensures
            r.deep_view() == self.deep_view().behaviors,
    {
        &self.behaviors
    }
}

/// The node record held at `off`, decoded with its behavior list.
pub open spec fn spec_parse_node(b: Seq<u8>, off: int) -> Result<NodeV, DecodeError> {
    if off + NODE_SIZE > b.len() {
        Err(bounds_err(b, off, NODE_SIZE as int))
    } else {
        match spec_node_type_from(le16(b, off + 4)) {
            Err(e) => Err(e),
            Ok(node_type) => match spec_render_blend_from(le16(b, off + 8)) {
                Err(e) => Err(e),
                Ok(blend_type) => match spec_parse_behaviors(
                    b,
                    le32(b, off + 12) as int,
                    le16(b, off + 10) as int,
                ) {
                    Err(e) => Err(e),
                    Ok(behaviors) => Ok(
                        NodeV {
                            array_index: le16(b, off) as i16,
                            parent_index: le16(b, off + 2) as i16,
                            node_type,
                            cell_index: le16(b, off + 6) as i16,
                            blend_type,
                            behaviors,
                        },
                    ),
                },
            },
        }
    }
}

/// Decodes the node record at `off`.
pub fn parse_node(b: &Vec<u8>, off: u64) -> (r: Result<Node, DecodeError>)
    ensures
        match r {
            Ok(v) => spec_parse_node(b@, off as int) == Ok::<NodeV, DecodeError>(v.deep_view()),
            Err(e) => spec_parse_node(b@, off as int) == Err::<NodeV, DecodeError>(e),
        },
{
    let o = match check_range(b, off, NODE_SIZE) {
        Ok(o) => o,
        Err(e) => {
            return Err(e);
        },
    };
    let l = b.len();
    assert(o + NODE_SIZE <= l);
    let node_type = match EffectNodeType::from_u16(get_u16(b, o + 4)) {
        Ok(v) => v,
        Err(e) => {
            return Err(e);
        },
    };
    let blend_type = match RenderBlendType::from_u16(get_u16(b, o + 8)) {
        Ok(v) => v,
        Err(e) => {
            return Err(e);
        },
    };
    let behaviors = match parse_behaviors(b, get_u32(b, o + 12), get_u16(b, o + 10)) {
        Ok(v) => v,
        Err(e) => {
            return Err(e);
        },
    };
    Ok(
        Node {
            array_index: get_i16(b, o),
            parent_index: get_i16(b, o + 2),
            node_type,
            cell_index: get_i16(b, o + 6),
            blend_type,
            behaviors,
        },
    )
}

/// The first `n` node records at `off`, decoded in order.
pub open spec fn spec_parse_nodes(b: Seq<u8>, off: int, n: int) -> Result<Seq<NodeV>, DecodeError>
    decreases n,
{
    if n <= 0 {
        Ok(Seq::<NodeV>::empty())
    } else {
        match spec_parse_nodes(b, off, n - 1) {
            Err(e) => Err(e),
            Ok(ns) => match spec_parse_node(b, off + (n - 1) * (NODE_SIZE as int)) {
                Err(e) => Err(e),
                Ok(nd) => Ok(ns.push(nd)),
            },
        }
    }
}

/// A failure of the node-table decode at some prefix stands for the whole
/// table.
pub proof fn lemma_parse_nodes_err(b: Seq<u8>, off: int, m: int, n: int)
    requires
        0 <= m <= n,
        spec_parse_nodes(b, off, m) is Err,
    ensures
        spec_parse_nodes(b, off, n) == spec_parse_nodes(b, off, m),
    decreases n - m,
{
    if m < n {
        lemma_parse_nodes_err(b, off, m, n - 1);
    }
}

/// Decodes `n` node records starting at `off`.
pub fn parse_nodes(b: &Vec<u8>, off: u32, n: u16) -> (r: Result<Vec<Node>, DecodeError>)
    ensures
        match r {
            Ok(v) => spec_parse_nodes(b@, off as int, n as int) == Ok::<Seq<NodeV>, DecodeError>(
                v.deep_view(),
            ),
            Err(e) => spec_parse_nodes(b@, off as int, n as int) == Err::<Seq<NodeV>, DecodeError>(
                e,
            ),
        },
{
    let mut ns: Vec<Node> = Vec::new();
    assert(ns.deep_view() =~= Seq::<NodeV>::empty());
    let mut i: u16 = 0;
    while i < n
        invariant
            0 <= i <= n,
            spec_parse_nodes(b@, off as int, i as int) == Ok::<Seq<NodeV>, DecodeError>(
                ns.deep_view(),
            ),
        decreases n - i,
    {
        let eoff: u64 = (off as u64) + (i as u64) * NODE_SIZE;
        match parse_node(b, eoff) {
            Ok(nd) => {
                let ghost ns0 = ns.deep_view();
                let ghost nv = nd.deep_view();
                ns.push(nd);
                assert(ns.deep_view() =~= ns0.push(nv));
            },
            Err(e) => {
                proof {
                    assert(spec_parse_nodes(b@, off as int, i + 1) == Err::<
                        Seq<NodeV>,
                        DecodeError,
                    >(e));
                    lemma_parse_nodes_err(b@, off as int, i + 1, n as int);
                }
                return Err(e);
            },
        }
        i = i + 1;
    }
    Ok(ns)
}

/// One effect pack: its header fields and its decoded node tree.
#[derive(Debug)]
pub struct Effect {
    pub name: Vec<u8>,
    pub fps: u16,
    pub is_lock_random_seed: u16,
    pub lock_random_seed: u16,
    pub layout_scale_x: u16,
    pub layout_scale_y: u16,
    pub nodes: Vec<Node>,
}

/// The mathematical value of one effect pack.
pub struct EffectV {
    pub name: Seq<u8>,
    pub fps: u16,
    pub is_lock_random_seed: u16,
    pub lock_random_seed: u16,
    pub layout_scale_x: u16,
    pub layout_scale_y: u16,
    pub nodes: Seq<NodeV>,
}

impl DeepView for Effect {
    type V = EffectV;

    open spec fn deep_view(&self) -> EffectV {
        EffectV {
            name: self.name@,
            fps: self.fps,
            is_lock_random_seed: self.is_lock_random_seed,
            lock_random_seed: self.lock_random_seed,
            layout_scale_x: self.layout_scale_x,
            layout_scale_y: self.layout_scale_y,
            nodes: self.nodes.deep_view(),
        }
    }
}

impl Effect {
    /// The effect's name.
    pub fn get_name(&self) -> (r: &Vec<u8>)
        ensures
            r@ == self.name@,
    {
        &self.name
    }

    /// The effect's frame rate.
    pub fn get_fps(&self) -> (r: u16)
        ensures
            r == self.fps,
    {
        self.fps
    }

    /// Whether the random seed is locked.
    pub fn get_is_lock_random_seed(&self) -> (r: u16)
        ensures
            r == self.is_lock_random_seed,
    {
        self.is_lock_random_seed
    }

    /// The locked random seed.
    pub fn get_lock_random_seed(&self) -> (r: u16)
        ensures
            r == self.lock_random_seed,
    {
        self.lock_random_seed
    }

    /// The horizontal layout scale.
    pub fn get_layout_scale_x(&self) -> (r: u16)
        ensures
            r == self.layout_scale_x,
    {
        self.layout_scale_x
    }

    /// The vertical layout scale.
    pub fn get_layout_scale_y(&self) -> (r: u16)
        ensures
            r == self.layout_scale_y,
    {
        self.layout_scale_y
    }

    /// The effect's node tree in table order.
    pub fn get_nodes(&self) -> (r: &Vec<Node>)
        ensures
            r.deep_view() == self.deep_view().nodes,
    {
        &self.nodes
    }
}

/// The effect header record held at `off`, decoded with its node table.
pub open spec fn spec_parse_effect(b: Seq<u8>, off: int) -> Result<EffectV, DecodeError> {
    if off + EFFECT_SIZE > b.len() {
        Err(bounds_err(b, off, EFFECT_SIZE as int))
    } else {
        match str_read_r(b, le32(b, off) as int) {
            Err(e) => Err(e),
            Ok(name) => match spec_parse_nodes(b, le32(b, off + 16) as int, le16(b, off + 14) as int) {
                Err(e) => Err(e),
                Ok(nodes) => Ok(
                    EffectV {
                        name,
                        fps: le16(b, off + 4),
                        is_lock_random_seed: le16(b, off + 6),
                        lock_random_seed: le16(b, off + 8),
                        layout_scale_x: le16(b, off + 10),
                        layout_scale_y: le16(b, off + 12),
                        nodes,
                    },
                ),
            },
        }
    }
}

/// Decodes the effect header record at `off` with its node table.
pub fn parse_effect(b: &Vec<u8>, off: u64) -> (r: Result<Effect, DecodeError>)
    ensures
        match r {
            Ok(v) => spec_parse_effect(b@, off as int) == Ok::<EffectV, DecodeError>(v.deep_view()),
            Err(e) => spec_parse_effect(b@, off as int) == Err::<EffectV, DecodeError>(e),
        },
{
    let o = match check_range(b, off, EFFECT_SIZE) {
        Ok(o) => o,
        Err(e) => {
            return Err(e);
        },
    };
    let l = b.len();
    assert(o + EFFECT_SIZE <= l);
    let name = match read_str32(b, get_u32(b, o)) {
        Ok(v) => v,
        Err(e) => {
            return Err(e);
        },
    };
    let nodes = match parse_nodes(b, get_u32(b, o + 16), get_u16(b, o + 14)) {
        Ok(v) => v,
        Err(e) => {
            return Err(e);
        },
    };
    Ok(
        Effect {
            name,
            fps: get_u16(b, o + 4),
            is_lock_random_seed: get_u16(b, o + 6),
            lock_random_seed: get_u16(b, o + 8),
            layout_scale_x: get_u16(b, o + 10),
            layout_scale_y: get_u16(b, o + 12),
            nodes,
        },
    )
}

/// The emitter and particle name counters of one effect's rendering: each
/// counter runs across the whole traversal, never reset per node.
#[derive(Debug, Clone, Copy, PartialEq, Eq, Structural)]
pub struct NodeTracker {
    pub emitters: usize,
    pub particles: usize,
}

impl NodeTracker {
    /// Fresh counters, both starting at one.
    pub fn new() -> (r: NodeTracker)
        ensures
            r.emitters == 1,
            r.particles == 1,
    {
        NodeTracker { emitters: 1, particles: 1 }
    }

    /// The next emitter number; the counter moves on by one.
    pub fn get_emitter(&mut self) -> (r: usize)
        requires
            old(self).emitters < usize::MAX,
        ensures
            r == old(self).emitters,
            final(self).emitters == old(self).emitters + 1,
            final(self).particles == old(self).particles,
    {
        let id = self.emitters;
        self.emitters = self.emitters + 1;
        id
    }

    /// The next particle number; the counter moves on by one.
    pub fn get_particle(&mut self) -> (r: usize)
        requires
            old(self).particles < usize::MAX,
        ensures
            r == old(self).particles,
            final(self).particles == old(self).particles + 1,
            final(self).emitters == old(self).emitters,
    {
        let id = self.particles;
        self.particles = self.particles + 1;
        id
    }
}

/// The chunks of one `Basic` behavior element.
pub open spec fn spec_basic_chunks(s: Seq<ChunkV>, v: Basic) -> Seq<ChunkV> {
    s.push(tc("<value name=\"Basic\"><name>Basic</name>")).push(tc("<priority>")).push(ChunkV::Text(dec_nat(v.priority as nat))).push(tc("</priority><maxximumParticle>")).push(ChunkV::Text(dec_nat(v.maximum_particle as nat))).push(tc("</maxximumParticle><attimeCreate>")).push(ChunkV::Text(dec_nat(v.attime_create as nat))).push(tc("</attimeCreate><interval>")).push(ChunkV::Text(dec_nat(v.interval as nat))).push(tc("</interval><lifetime>")).push(ChunkV::Text(dec_nat(v.lifetime as nat))).push(tc("</lifetime><speed value=\"")).push(ChunkV::Scalar(v.speed_min)).push(tc("\" subvalue=\"")).push(ChunkV::Scalar(v.speed_max)).push(tc("\"/><lifespan value=\"")).push(ChunkV::Text(dec_nat(v.lifespan_min as nat))).push(tc("\" subvalue=\"")).push(ChunkV::Text(dec_nat(v.lifespan_max as nat))).push(tc("\"/><angle>")).push(ChunkV::Scalar(v.angle)).push(tc("</angle><angleVariance>")).push(ChunkV::Scalar(v.angle_variance)).push(tc("</angleVariance>")).push(tc("</value>"))
}

impl Basic {
    /// Renders this behavior as one `value` element of a node's behavior
    /// list.
    pub fn to_xml(&self, doc: &mut Vec<Chunk>)
        ensures
            final(doc).deep_view() == spec_basic_chunks(old(doc).deep_view(), *self),
    {
        push_text(doc, "<value name=\"Basic\"><name>Basic</name>");
        push_text(doc, "<priority>");
        push_dec(doc, self.priority);
        push_text(doc, "</priority><maxximumParticle>");
        push_dec(doc, self.maximum_particle);
        push_text(doc, "</maxximumParticle><attimeCreate>");
        push_dec(doc, self.attime_create);
        push_text(doc, "</attimeCreate><interval>");
        push_dec(doc, self.interval);
        push_text(doc, "</interval><lifetime>");
        push_dec(doc, self.lifetime);
        push_text(doc, "</lifetime><speed value=\"");
        push_scalar(doc, self.speed_min);
        push_text(doc, "\" subvalue=\"");
        push_scalar(doc, self.speed_max);
        push_text(doc, "\"/><lifespan value=\"");
        push_dec(doc, self.lifespan_min);
        push_text(doc, "\" subvalue=\"");
        push_dec(doc, self.lifespan_max);
        push_text(doc, "\"/><angle>");
        push_scalar(doc, self.angle);
        push_text(doc, "</angle><angleVariance>");
        push_scalar(doc, self.angle_variance);
        push_text(doc, "</angleVariance>");
        push_text(doc, "</value>");
    }
}

/// The chunks of one `RndSeedChange` behavior element.
pub open spec fn spec_rndseedchange_chunks(s: Seq<ChunkV>, v: RndSeedChange) -> Seq<ChunkV> {
    s.push(tc("<value name=\"OverWriteSeed\"><name>OverWriteSeed</name>")).push(tc("<seed>")).push(ChunkV::Text(dec_nat(v.seed as nat))).push(tc("</seed>")).push(tc("</value>"))
}

impl RndSeedChange {
    /// Renders this behavior as one `value` element of a node's behavior
    /// list.
    pub fn to_xml(&self, doc: &mut Vec<Chunk>)
        ensures
            final(doc).deep_view() == spec_rndseedchange_chunks(old(doc).deep_view(), *self),
    {
        push_text(doc, "<value name=\"OverWriteSeed\"><name>OverWriteSeed</name>");
        push_text(doc, "<seed>");
        push_dec(doc, self.seed);
        push_text(doc, "</seed>");
        push_text(doc, "</value>");
    }
}

/// The chunks of one `Delay` behavior element.
pub open spec fn spec_delay_chunks(s: Seq<ChunkV>, v: Delay) -> Seq<ChunkV> {
    s.push(tc("<value name=\"Delay\"><name>Delay</name>")).push(tc("<DelayTime>")).push(ChunkV::Text(dec_nat(v.delay_time as nat))).push(tc("</DelayTime>")).push(tc("</value>"))
}

impl Delay {
    /// Renders this behavior as one `value` element of a node's behavior
    /// list.
    pub fn to_xml(&self, doc: &mut Vec<Chunk>)
        ensures
            final(doc).deep_view() == spec_delay_chunks(old(doc).deep_view(), *self),
    {
        push_text(doc, "<value name=\"Delay\"><name>Delay</name>");
        push_text(doc, "<DelayTime>");
        push_dec(doc, self.delay_time);
        push_text(doc, "</DelayTime>");
        push_text(doc, "</value>");
    }
}

/// The chunks of one `Gravity` behavior element.
pub open spec fn spec_gravity_chunks(s: Seq<ChunkV>, v: Gravity) -> Seq<ChunkV> {
    s.push(tc("<value name=\"Gravity\"><name>Gravity</name>")).push(tc("<Gravity>")).push(ChunkV::Scalar(v.gravity_x)).push(tc(" ")).push(ChunkV::Scalar(v.gravity_y)).push(tc("</Gravity>")).push(tc("</value>"))
}

impl Gravity {
    /// Renders this behavior as one `value` element of a node's behavior
    /// list.
    pub fn to_xml(&self, doc: &mut Vec<Chunk>)
        ensures
            final(doc).deep_view() == spec_gravity_chunks(old(doc).deep_view(), *self),
    {
        push_text(doc, "<value name=\"Gravity\"><name>Gravity</name>");
        push_text(doc, "<Gravity>");
        push_scalar(doc, self.gravity_x);
        push_text(doc, " ");
        push_scalar(doc, self.gravity_y);
        push_text(doc, "</Gravity>");
        push_text(doc, "</value>");
    }
}

/// The chunks of one `Position` behavior element.
pub open spec fn spec_position_chunks(s: Seq<ChunkV>, v: Position) -> Seq<ChunkV> {
    s.push(tc("<value name=\"init_position\"><name>init_position</name>")).push(tc("<OffsetX value=\"")).push(ChunkV::Scalar(v.offset_x_min)).push(tc("\" subvalue=\"")).push(ChunkV::Scalar(v.offset_x_max)).push(tc("\"/><OffsetY value=\"")).push(ChunkV::Scalar(v.offset_y_min)).push(tc("\" subvalue=\"")).push(ChunkV::Scalar(v.offset_y_max)).push(tc("\"/>")).push(tc("</value>"))
}

impl Position {
    /// Renders this behavior as one `value` element of a node's behavior
    /// list.
    pub fn to_xml(&self, doc: &mut Vec<Chunk>)
        ensures
            final(doc).deep_view() == spec_position_chunks(old(doc).deep_view(), *self),
    {
        push_text(doc, "<value name=\"init_position\"><name>init_position</name>");
        push_text(doc, "<OffsetX value=\"");
        push_scalar(doc, self.offset_x_min);
        push_text(doc, "\" subvalue=\"");
        push_scalar(doc, self.offset_x_max);
        push_text(doc, "\"/><OffsetY value=\"");
        push_scalar(doc, self.offset_y_min);
        push_text(doc, "\" subvalue=\"");
        push_scalar(doc, self.offset_y_max);
        push_text(doc, "\"/>");
        push_text(doc, "</value>");
    }
}

/// The chunks of one `Rotation` behavior element.
pub open spec fn spec_rotation_chunks(s: Seq<ChunkV>, v: Rotation) -> Seq<ChunkV> {
    s.push(tc("<value name=\"init_rotation\"><name>init_rotation</name>")).push(tc("<Rotation value=\"")).push(ChunkV::Scalar(v.rotation_min)).push(tc("\" subvalue=\"")).push(ChunkV::Scalar(v.rotation_max)).push(tc("\"/><RotationAdd value=\"")).push(ChunkV::Scalar(v.rotation_add_min)).push(tc("\" subvalue=\"")).push(ChunkV::Scalar(v.rotation_add_max)).push(tc("\"/>")).push(tc("</value>"))
}

impl Rotation {
    /// Renders this behavior as one `value` element of a node's behavior
    /// list.
    pub fn to_xml(&self, doc: &mut Vec<Chunk>)
        ensures
            final(doc).deep_view() == spec_rotation_chunks(old(doc).deep_view(), *self),
    {
        push_text(doc, "<value name=\"init_rotation\"><name>init_rotation</name>");
        push_text(doc, "<Rotation value=\"");
        push_scalar(doc, self.rotation_min);
        push_text(doc, "\" subvalue=\"");
        push_scalar(doc, self.rotation_max);
        push_text(doc, "\"/><RotationAdd value=\"");
        push_scalar(doc, self.rotation_add_min);
        push_text(doc, "\" subvalue=\"");
        push_scalar(doc, self.rotation_add_max);
        push_text(doc, "\"/>");
        push_text(doc, "</value>");
    }
}

/// The chunks of one `TransRotation` behavior element.
pub open spec fn spec_transrotation_chunks(s: Seq<ChunkV>, v: TransRotation) -> Seq<ChunkV> {
    s.push(tc("<value name=\"trans_rotation\"><name>trans_rotation</name>")).push(tc("<RotationFactor>")).push(ChunkV::Scalar(v.rotation_factor)).push(tc("</RotationFactor><EndLifePerTime>")).push(ChunkV::Scalar(v.end_life_time_per)).push(tc("</EndLifePerTime>")).push(tc("</value>"))
}

impl TransRotation {
    /// Renders this behavior as one `value` element of a node's behavior
    /// list.
    pub fn to_xml(&self, doc: &mut Vec<Chunk>)
        ensures
            final(doc).deep_view() == spec_transrotation_chunks(old(doc).deep_view(), *self),
    {
        push_text(doc, "<value name=\"trans_rotation\"><name>trans_rotation</name>");
        push_text(doc, "<RotationFactor>");
        push_scalar(doc, self.rotation_factor);
        push_text(doc, "</RotationFactor><EndLifePerTime>");
        push_scalar(doc, self.end_life_time_per);
        push_text(doc, "</EndLifePerTime>");
        push_text(doc, "</value>");
    }
}

/// The chunks of one `TransSpeed` behavior element.
pub open spec fn spec_transspeed_chunks(s: Seq<ChunkV>, v: TransSpeed) -> Seq<ChunkV> {
    s.push(tc("<value name=\"trans_speed\"><name>trans_speed</name>")).push(tc("<Speed value=\"")).push(ChunkV::Scalar(v.speed_min)).push(tc("\" subvalue=\"")).push(ChunkV::Scalar(v.speed_max)).push(tc("\"/>")).push(tc("</value>"))
}

impl TransSpeed {
    /// Renders this behavior as one `value` element of a node's behavior
    /// list.
    pub fn to_xml(&self, doc: &mut Vec<Chunk>)
        ensures
            final(doc).deep_view() == spec_transspeed_chunks(old(doc).deep_view(), *self),
    {
        push_text(doc, "<value name=\"trans_speed\"><name>trans_speed</name>");
        push_text(doc, "<Speed value=\"");
        push_scalar(doc, self.speed_min);
        push_text(doc, "\" subvalue=\"");
        push_scalar(doc, self.speed_max);
        push_text(doc, "\"/>");
        push_text(doc, "</value>");
    }
}

/// The chunks of one `TangentialAcceleration` behavior element.
pub open spec fn spec_tangentialacceleration_chunks(s: Seq<ChunkV>, v: TangentialAcceleration) -> Seq<ChunkV> {
    s.push(tc("<value name=\"add_tangentiala\"><name>add_tangentiala</name>")).push(tc("<Acceleration value=\"")).push(ChunkV::Scalar(v.acceleration_min)).push(tc("\" subvalue=\"")).push(ChunkV::Scalar(v.acceleration_max)).push(tc("\"/>")).push(tc("</value>"))
}

impl TangentialAcceleration {
    /// Renders this behavior as one `value` element of a node's behavior
    /// list.
    pub fn to_xml(&self, doc: &mut Vec<Chunk>)
        ensures
            final(doc).deep_view() == spec_tangentialacceleration_chunks(old(doc).deep_view(), *self),
    {
        push_text(doc, "<value name=\"add_tangentiala\"><name>add_tangentiala</name>");
        push_text(doc, "<Acceleration value=\"");
        push_scalar(doc, self.acceleration_min);
        push_text(doc, "\" subvalue=\"");
        push_scalar(doc, self.acceleration_max);
        push_text(doc, "\"/>");
        push_text(doc, "</value>");
    }
}

/// The chunks of one `InitColor` behavior element.
pub open spec fn spec_initcolor_chunks(s: Seq<ChunkV>, v: InitColor) -> Seq<ChunkV> {
    s.push(tc("<value name=\"init_vertexcolor\"><name>init_vertexcolor</name>")).push(tc("<Color value=\"")).push(ChunkV::Text(hex_nat(v.color_min as nat))).push(tc("\" subvalue=\"")).push(ChunkV::Text(hex_nat(v.color_max as nat))).push(tc("\"/>")).push(tc("</value>"))
}

impl InitColor {
    /// Renders this behavior as one `value` element of a node's behavior
    /// list.
    pub fn to_xml(&self, doc: &mut Vec<Chunk>)
        ensures
            final(doc).deep_view() == spec_initcolor_chunks(old(doc).deep_view(), *self),
    {
        push_text(doc, "<value name=\"init_vertexcolor\"><name>init_vertexcolor</name>");
        push_text(doc, "<Color value=\"");
        push_hex(doc, self.color_min);
        push_text(doc, "\" subvalue=\"");
        push_hex(doc, self.color_max);
        push_text(doc, "\"/>");
        push_text(doc, "</value>");
    }
}

/// The chunks of one `TransColor` behavior element.
pub open spec fn spec_transcolor_chunks(s: Seq<ChunkV>, v: TransColor) -> Seq<ChunkV> {
    s.push(tc("<value name=\"trans_vertexcolor\"><name>trans_vertexcolor</name>")).push(tc("<Color value=\"")).push(ChunkV::Text(hex_nat(v.color_min as nat))).push(tc("\" subvalue=\"")).push(ChunkV::Text(hex_nat(v.color_max as nat))).push(tc("\"/>")).push(tc("</value>"))
}

impl TransColor {
    /// Renders this behavior as one `value` element of a node's behavior
    /// list.
    pub fn to_xml(&self, doc: &mut Vec<Chunk>)
        ensures
            final(doc).deep_view() == spec_transcolor_chunks(old(doc).deep_view(), *self),
    {
        push_text(doc, "<value name=\"trans_vertexcolor\"><name>trans_vertexcolor</name>");
        push_text(doc, "<Color value=\"");
        push_hex(doc, self.color_min);
        push_text(doc, "\" subvalue=\"");
        push_hex(doc, self.color_max);
        push_text(doc, "\"/>");
        push_text(doc, "</value>");
    }
}

/// The chunks of one `AlphaFade` behavior element.
pub open spec fn spec_alphafade_chunks(s: Seq<ChunkV>, v: AlphaFade) -> Seq<ChunkV> {
    s.push(tc("<value name=\"trans_colorfade\"><name>trans_colorfade</name>")).push(tc("<Disprange value=\"")).push(ChunkV::Scalar(v.disprange_min)).push(tc("\" subvalue=\"")).push(ChunkV::Scalar(v.disprange_max)).push(tc("\"/>")).push(tc("</value>"))
}

impl AlphaFade {
    /// Renders this behavior as one `value` element of a node's behavior
    /// list.
    pub fn to_xml(&self, doc: &mut Vec<Chunk>)
        ensures
            final(doc).deep_view() == spec_alphafade_chunks(old(doc).deep_view(), *self),
    {
        push_text(doc, "<value name=\"trans_colorfade\"><name>trans_colorfade</name>");
        push_text(doc, "<Disprange value=\"");
        push_scalar(doc, self.disprange_min);
        push_text(doc, "\" subvalue=\"");
        push_scalar(doc, self.disprange_max);
        push_text(doc, "\"/>");
        push_text(doc, "</value>");
    }
}

/// The chunks of one `Size` behavior element.
pub open spec fn spec_size_chunks(s: Seq<ChunkV>, v: Size) -> Seq<ChunkV> {
    s.push(tc("<value name=\"init_size\"><name>init_size</name>")).push(tc("<SizeX value=\"")).push(ChunkV::Scalar(v.size_x_min)).push(tc("\" subvalue=\"")).push(ChunkV::Scalar(v.size_x_max)).push(tc("\"/><SizeY value=\"")).push(ChunkV::Scalar(v.size_y_min)).push(tc("\" subvalue=\"")).push(ChunkV::Scalar(v.size_y_max)).push(tc("\"/><ScaleFactor value=\"")).push(ChunkV::Scalar(v.scale_factor_min)).push(tc("\" subvalue=\"")).push(ChunkV::Scalar(v.scale_factor_max)).push(tc("\"/>")).push(tc("</value>"))
}

impl Size {
    /// Renders this behavior as one `value` element of a node's behavior
    /// list.
    pub fn to_xml(&self, doc: &mut Vec<Chunk>)
        ensures
            final(doc).deep_view() == spec_size_chunks(old(doc).deep_view(), *self),
    {
        push_text(doc, "<value name=\"init_size\"><name>init_size</name>");
        push_text(doc, "<SizeX value=\"");
        push_scalar(doc, self.size_x_min);
        push_text(doc, "\" subvalue=\"");
        push_scalar(doc, self.size_x_max);
        push_text(doc, "\"/><SizeY value=\"");
        push_scalar(doc, self.size_y_min);
        push_text(doc, "\" subvalue=\"");
        push_scalar(doc, self.size_y_max);
        push_text(doc, "\"/><ScaleFactor value=\"");
        push_scalar(doc, self.scale_factor_min);
        push_text(doc, "\" subvalue=\"");
        push_scalar(doc, self.scale_factor_max);
        push_text(doc, "\"/>");
        push_text(doc, "</value>");
    }
}

/// The chunks of one `TransSize` behavior element.
pub open spec fn spec_transsize_chunks(s: Seq<ChunkV>, v: TransSize) -> Seq<ChunkV> {
    s.push(tc("<value name=\"trans_size\"><name>trans_size</name>")).push(tc("<SizeX value=\"")).push(ChunkV::Scalar(v.size_x_min)).push(tc("\" subvalue=\"")).push(ChunkV::Scalar(v.size_x_max)).push(tc("\"/><SizeY value=\"")).push(ChunkV::Scalar(v.size_y_min)).push(tc("\" subvalue=\"")).push(ChunkV::Scalar(v.size_y_max)).push(tc("\"/><ScaleFactor value=\"")).push(ChunkV::Scalar(v.scale_factor_min)).push(tc("\" subvalue=\"")).push(ChunkV::Scalar(v.scale_factor_max)).push(tc("\"/>")).push(tc("</value>"))
}

impl TransSize {
    /// Renders this behavior as one `value` element of a node's behavior
    /// list.
    pub fn to_xml(&self, doc: &mut Vec<Chunk>)
        ensures
            final(doc).deep_view() == spec_transsize_chunks(old(doc).deep_view(), *self),
    {
        push_text(doc, "<value name=\"trans_size\"><name>trans_size</name>");
        push_text(doc, "<SizeX value=\"");
        push_scalar(doc, self.size_x_min);
        push_text(doc, "\" subvalue=\"");
        push_scalar(doc, self.size_x_max);
        push_text(doc, "\"/><SizeY value=\"");
        push_scalar(doc, self.size_y_min);
        push_text(doc, "\" subvalue=\"");
        push_scalar(doc, self.size_y_max);
        push_text(doc, "\"/><ScaleFactor value=\"");
        push_scalar(doc, self.scale_factor_min);
        push_text(doc, "\" subvalue=\"");
        push_scalar(doc, self.scale_factor_max);
        push_text(doc, "\"/>");
        push_text(doc, "</value>");
    }
}

/// The chunks of one `PointGravity` behavior element.
pub open spec fn spec_pointgravity_chunks(s: Seq<ChunkV>, v: PointGravity) -> Seq<ChunkV> {
    s.push(tc("<value name=\"add_pointgravity\"><name>add_pointgravity</name>")).push(tc("<Position>")).push(ChunkV::Scalar(v.position_x)).push(tc(" ")).push(ChunkV::Scalar(v.position_y)).push(tc("</Position><Power>")).push(ChunkV::Scalar(v.power)).push(tc("</Power>")).push(tc("</value>"))
}

impl PointGravity {
    /// Renders this behavior as one `value` element of a node's behavior
    /// list.
    pub fn to_xml(&self, doc: &mut Vec<Chunk>)
        ensures
            final(doc).deep_view() == spec_pointgravity_chunks(old(doc).deep_view(), *self),
    {
        push_text(doc, "<value name=\"add_pointgravity\"><name>add_pointgravity</name>");
        push_text(doc, "<Position>");
        push_scalar(doc, self.position_x);
        push_text(doc, " ");
        push_scalar(doc, self.position_y);
        push_text(doc, "</Position><Power>");
        push_scalar(doc, self.power);
        push_text(doc, "</Power>");
        push_text(doc, "</value>");
    }
}

/// The chunks of one `TurnToDirectionEnabled` behavior element.
pub open spec fn spec_turntodirectionenabled_chunks(s: Seq<ChunkV>, v: TurnToDirectionEnabled) -> Seq<ChunkV> {
    s.push(tc("<value name=\"TurnToDirection\"><name>TurnToDirection</name>")).push(tc("<Rotation>")).push(ChunkV::Scalar(v.rotation)).push(tc("</Rotation>")).push(tc("</value>"))
}

impl TurnToDirectionEnabled {
    /// Renders this behavior as one `value` element of a node's behavior
    /// list.
    pub fn to_xml(&self, doc: &mut Vec<Chunk>)
        ensures
            final(doc).deep_view() == spec_turntodirectionenabled_chunks(old(doc).deep_view(), *self),
    {
        push_text(doc, "<value name=\"TurnToDirection\"><name>TurnToDirection</name>");
        push_text(doc, "<Rotation>");
        push_scalar(doc, self.rotation);
        push_text(doc, "</Rotation>");
        push_text(doc, "</value>");
    }
}

/// The chunks of one `InfiniteEmitEnabled` behavior element.
pub open spec fn spec_infiniteemitenabled_chunks(s: Seq<ChunkV>, v: InfiniteEmitEnabled) -> Seq<ChunkV> {
    s.push(tc("<value name=\"InfiniteEmit\"><name>InfiniteEmit</name>")).push(tc("<calcGen>")).push(ChunkV::Text(dec_nat(v.flag as nat))).push(tc("</calcGen>")).push(tc("</value>"))
}

impl InfiniteEmitEnabled {
    /// Renders this behavior as one `value` element of a node's behavior
    /// list.
    pub fn to_xml(&self, doc: &mut Vec<Chunk>)
        ensures
            final(doc).deep_view() == spec_infiniteemitenabled_chunks(old(doc).deep_view(), *self),
    {
        push_text(doc, "<value name=\"InfiniteEmit\"><name>InfiniteEmit</name>");
        push_text(doc, "<calcGen>");
        push_dec(doc, self.flag);
        push_text(doc, "</calcGen>");
        push_text(doc, "</value>");
    }
}

/// The chunks of one behavior element, whatever its concrete shape.
pub open spec fn spec_behavior_chunks(s: Seq<ChunkV>, b: BehaviorData) -> Seq<ChunkV> {
    match b {
        BehaviorData::Basic(v) => spec_basic_chunks(s, v),
        BehaviorData::RndSeedChange(v) => spec_rndseedchange_chunks(s, v),
        BehaviorData::Delay(v) => spec_delay_chunks(s, v),
        BehaviorData::Gravity(v) => spec_gravity_chunks(s, v),
        BehaviorData::Position(v) => spec_position_chunks(s, v),
        BehaviorData::Rotation(v) => spec_rotation_chunks(s, v),
        BehaviorData::TransRotation(v) => spec_transrotation_chunks(s, v),
        BehaviorData::TransSpeed(v) => spec_transspeed_chunks(s, v),
        BehaviorData::TangentialAcceleration(v) => spec_tangentialacceleration_chunks(s, v),
        BehaviorData::InitColor(v) => spec_initcolor_chunks(s, v),
        BehaviorData::TransColor(v) => spec_transcolor_chunks(s, v),
        BehaviorData::AlphaFade(v) => spec_alphafade_chunks(s, v),
        BehaviorData::Size(v) => spec_size_chunks(s, v),
        BehaviorData::TransSize(v) => spec_transsize_chunks(s, v),
        BehaviorData::PointGravity(v) => spec_pointgravity_chunks(s, v),
        BehaviorData::TurnToDirectionEnabled(v) => spec_turntodirectionenabled_chunks(s, v),
        BehaviorData::InfiniteEmitEnabled(v) => spec_infiniteemitenabled_chunks(s, v),
    }
}

impl BehaviorData {
    /// Renders this behavior as one `value` element.
    pub fn to_xml(&self, doc: &mut Vec<Chunk>)
        ensures
            final(doc).deep_view() == spec_behavior_chunks(old(doc).deep_view(), *self),
    {
        match self {
            BehaviorData::Basic(v) => v.to_xml(doc),
            BehaviorData::RndSeedChange(v) => v.to_xml(doc),
            BehaviorData::Delay(v) => v.to_xml(doc),
            BehaviorData::Gravity(v) => v.to_xml(doc),
            BehaviorData::Position(v) => v.to_xml(doc),
            BehaviorData::Rotation(v) => v.to_xml(doc),
            BehaviorData::TransRotation(v) => v.to_xml(doc),
            BehaviorData::TransSpeed(v) => v.to_xml(doc),
            BehaviorData::TangentialAcceleration(v) => v.to_xml(doc),
            BehaviorData::InitColor(v) => v.to_xml(doc),
            BehaviorData::TransColor(v) => v.to_xml(doc),
            BehaviorData::AlphaFade(v) => v.to_xml(doc),
            BehaviorData::Size(v) => v.to_xml(doc),
            BehaviorData::TransSize(v) => v.to_xml(doc),
            BehaviorData::PointGravity(v) => v.to_xml(doc),
            BehaviorData::TurnToDirectionEnabled(v) => v.to_xml(doc),
            BehaviorData::InfiniteEmitEnabled(v) => v.to_xml(doc),
        }
    }
}



/// The chunks of every behavior of one node, in stored order.
pub open spec fn spec_behaviors_chunks(s: Seq<ChunkV>, bs: Seq<BehaviorData>) -> Seq<ChunkV>
    decreases bs.len(),
{
    if bs.len() == 0 {
        s
    } else {
        spec_behavior_chunks(spec_behaviors_chunks(s, bs.drop_last()), bs.last())
    }
}

/// The chunks of one node element's content: its running name, its place
/// in the tree, and, for emitter and particle nodes, its behavior block
/// with the cell it references.  `em` and `pa` are the counter values the
/// node's name draws from.
#[verifier::opaque]
pub open spec fn spec_node_chunks(
    s: Seq<ChunkV>,
    n: NodeV,
    lookup: Seq<CellLookupV>,
    em: usize,
    pa: usize,
) -> Seq<ChunkV> {
    let s1 = match n.node_type {
        EffectNodeType::Root => s.push(tc("<name>Root</name>")),
        EffectNodeType::Emmiter => s.push(tc("<name>Emitter_")).push(
            ChunkV::Text(dec_nat(em as nat)),
        ).push(tc("</name>")),
        EffectNodeType::Particle => s.push(tc("<name>Particle_")).push(
            ChunkV::Text(dec_nat(pa as nat)),
        ).push(tc("</name>")),
    };
    let s2 = s1.push(tc("<type>")).push(ChunkV::Text(encode_utf8(n.node_type.spec_name()))).push(
        tc("</type><arrayIndex>"),
    ).push(ChunkV::Text(dec_i32(n.array_index as int))).push(tc("</arrayIndex><parentIndex>")).push(
        ChunkV::Text(dec_i32(n.parent_index as int)),
    ).push(tc("</parentIndex><visible>1</visible>"));
    if n.node_type == EffectNodeType::Root {
        s2
    } else {
        let has_cell = 0 <= n.cell_index < lookup.len();
        let s3 = if has_cell {
            s2.push(tc("<behavior><CellName>")).push(
                ChunkV::Text(esc(lookup[n.cell_index as int].name)),
            ).push(tc("</CellName><CellMapName>")).push(
                ChunkV::Text(esc(lookup[n.cell_index as int].map_name)),
            ).push(tc(".ssce</CellMapName><BlendType>"))
        } else {
            s2.push(tc("<behavior><CellName>")).push(tc("</CellName><CellMapName>")).push(
                tc("</CellMapName><BlendType>"),
            )
        };
        let s4 = s3.push(ChunkV::Text(encode_utf8(n.blend_type.spec_name())));
        if n.behaviors.len() == 0 {
            s4.push(tc("</BlendType><list/></behavior>"))
        } else {
            spec_behaviors_chunks(s4.push(tc("</BlendType><list>")), n.behaviors).push(
                tc("</list></behavior>"),
            )
        }
    }
}

impl Node {
    /// Renders this node's element content, drawing its running name from
    /// the pack-wide counters.
    pub fn to_xml(&self, lookup: &Vec<CellLookup>, tracker: &mut NodeTracker, doc: &mut Vec<Chunk>)
        requires
            old(tracker).emitters < usize::MAX,
            old(tracker).particles < usize::MAX,
        ensures
            final(doc).deep_view() == spec_node_chunks(
                old(doc).deep_view(),
                self.deep_view(),
                lookup.deep_view(),
                old(tracker).emitters,
                old(tracker).particles,
            ),
            final(tracker).emitters == old(tracker).emitters + (if self.node_type
                == EffectNodeType::Emmiter {
                1int
            } else {
                0int
            }),
            final(tracker).particles == old(tracker).particles + (if self.node_type
                == EffectNodeType::Particle {
                1int
            } else {
                0int
            }),
    {
        proof {
            reveal(spec_node_chunks);
        }
        let ghost nv = self.deep_view();
        let ghost lv = lookup.deep_view();
        match self.node_type {
            EffectNodeType::Root => {
                push_text(doc, "<name>Root</name>");
            },
            EffectNodeType::Emmiter => {
                push_text(doc, "<name>Emitter_");
                push_dec64(doc, tracker.get_emitter() as u64);
                push_text(doc, "</name>");
            },
            EffectNodeType::Particle => {
                push_text(doc, "<name>Particle_");
                push_dec64(doc, tracker.get_particle() as u64);
                push_text(doc, "</name>");
            },
        }
        push_text(doc, "<type>");
        push_text(doc, self.node_type.name_str());
        push_text(doc, "</type><arrayIndex>");
        push_dec_i(doc, self.array_index as i32);
        push_text(doc, "</arrayIndex><parentIndex>");
        push_dec_i(doc, self.parent_index as i32);
        push_text(doc, "</parentIndex><visible>1</visible>");
        if matches!(self.node_type, EffectNodeType::Root) {
            return ;
        }
        let has_cell = self.cell_index >= 0 && (self.cell_index as usize) < lookup.len();
        if has_cell {
            let row = &lookup[self.cell_index as usize];
            push_text(doc, "<behavior><CellName>");
            push_esc(doc, &row.name);
            push_text(doc, "</CellName><CellMapName>");
            push_esc(doc, &row.map_name);
            push_text(doc, ".ssce</CellMapName><BlendType>");
        } else {
            push_text(doc, "<behavior><CellName>");
            push_text(doc, "</CellName><CellMapName>");
            push_text(doc, "</CellMapName><BlendType>");
        }
        push_text(doc, self.blend_type.name_str());
        if self.behaviors.len() == 0 {
            push_text(doc, "</BlendType><list/></behavior>");
        } else {
            push_text(doc, "</BlendType><list>");
            let ghost s4l = doc.deep_view();
            let mut i: usize = 0;
            assert(spec_behaviors_chunks(s4l, nv.behaviors.take(0)) == s4l);
            while i < self.behaviors.len()
                invariant
                    0 <= i <= self.behaviors@.len(),
                    nv == self.deep_view(),
                    nv.behaviors.len() == self.behaviors@.len(),
                    doc.deep_view() == spec_behaviors_chunks(s4l, nv.behaviors.take(i as int)),
                decreases self.behaviors@.len() - i,
            {
                self.behaviors[i].to_xml(doc);
                proof {
                    assert(nv.behaviors.take(i + 1).drop_last() =~= nv.behaviors.take(i as int));
                    assert(nv.behaviors.take(i + 1).last() == nv.behaviors[i as int]);
                }
                i = i + 1;
            }
            assert(nv.behaviors.take(self.behaviors@.len() as int) =~= nv.behaviors);
            push_text(doc, "</list></behavior>");
        }
    }
}

/// How many emitter nodes `nodes` holds.
pub open spec fn emitters_in(nodes: Seq<NodeV>) -> int
    decreases nodes.len(),
{
    if nodes.len() == 0 {
        0
    } else {
        emitters_in(nodes.drop_last()) + (if nodes.last().node_type == EffectNodeType::Emmiter {
            1int
        } else {
            0int
        })
    }
}

/// How many particle nodes `nodes` holds.
pub open spec fn particles_in(nodes: Seq<NodeV>) -> int
    decreases nodes.len(),
{
    if nodes.len() == 0 {
        0
    } else {
        particles_in(nodes.drop_last()) + (if nodes.last().node_type == EffectNodeType::Particle {
            1int
        } else {
            0int
        })
    }
}

/// Emitter and particle counts never exceed the node count.
pub proof fn lemma_counters_bounded(nodes: Seq<NodeV>)
    ensures
        0 <= emitters_in(nodes) <= nodes.len(),
        0 <= particles_in(nodes) <= nodes.len(),
    decreases nodes.len(),
{
    if nodes.len() > 0 {
        lemma_counters_bounded(nodes.drop_last());
    }
}

/// The chunks of every `node` element of the tree, the name counters
/// starting at one and running across the whole traversal.
pub open spec fn spec_nodes_chunks(s: Seq<ChunkV>, nodes: Seq<NodeV>, lookup: Seq<CellLookupV>) -> Seq<
    ChunkV,
>
    decreases nodes.len(),
{
    if nodes.len() == 0 {
        s
    } else {
        spec_node_chunks(
            spec_nodes_chunks(s, nodes.drop_last(), lookup).push(tc("<node>")),
            nodes.last(),
            lookup,
            (1 + emitters_in(nodes.drop_last())) as usize,
            (1 + particles_in(nodes.drop_last())) as usize,
        ).push(tc("</node>"))
    }
}

/// The whole effect document of one effect pack.
pub open spec fn spec_effect_doc(e: EffectV, lookup: Seq<CellLookupV>) -> Seq<ChunkV> {
    let s1 = Seq::<ChunkV>::empty().push(
        tc(
            "<?xml version=\"1.0\" encoding=\"utf-8\" standalone=\"yes\"?>\n<SpriteStudioEffect version=\"2.00.00\"><name>",
        ),
    ).push(ChunkV::Text(esc(e.name))).push(
        tc("</name><exportPath></exportPath><effectData><lockRandSeed>"),
    ).push(ChunkV::Text(dec_nat(e.lock_random_seed as nat))).push(
        tc("</lockRandSeed><isLockRandSeed>"),
    ).push(ChunkV::Text(dec_nat(e.is_lock_random_seed as nat))).push(
        tc("</isLockRandSeed><fps>"),
    ).push(ChunkV::Text(dec_nat(e.fps as nat))).push(
        tc(
            "</fps><bgColor>FF000000</bgColor><renderVersion>2</renderVersion><nodeList>",
        ),
    );
    spec_nodes_chunks(s1, e.nodes, lookup).push(
        tc("</nodeList></effectData></SpriteStudioEffect>"),
    )
}

impl Effect {
    /// Renders this effect pack as one effect document.  The node count is
    /// bounded by the machine's address space so that the running name
    /// counters cannot wrap.
    pub fn to_xml(&self, lookup: &Vec<CellLookup>) -> (r: Vec<Chunk>)
        requires
            self.nodes@.len() < usize::MAX,
        ensures
            r.deep_view() == spec_effect_doc(self.deep_view(), lookup.deep_view()),
    {
        let ghost ev = self.deep_view();
        let ghost lv = lookup.deep_view();
        let mut doc: Vec<Chunk> = Vec::new();
        assert(doc.deep_view() =~= Seq::<ChunkV>::empty());
        push_text(
            &mut doc,
            "<?xml version=\"1.0\" encoding=\"utf-8\" standalone=\"yes\"?>\n<SpriteStudioEffect version=\"2.00.00\"><name>",
        );
        push_esc(&mut doc, &self.name);
        push_text(&mut doc, "</name><exportPath></exportPath><effectData><lockRandSeed>");
        push_dec(&mut doc, self.lock_random_seed as u32);
        push_text(&mut doc, "</lockRandSeed><isLockRandSeed>");
        push_dec(&mut doc, self.is_lock_random_seed as u32);
        push_text(&mut doc, "</isLockRandSeed><fps>");
        push_dec(&mut doc, self.fps as u32);
        push_text(
            &mut doc,
            "</fps><bgColor>FF000000</bgColor><renderVersion>2</renderVersion><nodeList>",
        );
        let ghost s1 = doc.deep_view();
        let mut tracker = NodeTracker::new();
        let mut i: usize = 0;
        assert(spec_nodes_chunks(s1, ev.nodes.take(0), lv) == s1);
        while i < self.nodes.len()
            invariant
                0 <= i <= self.nodes@.len(),
                ev == self.deep_view(),
                lv == lookup.deep_view(),
                ev.nodes.len() == self.nodes@.len(),
                self.nodes@.len() < usize::MAX,
                tracker.emitters == 1 + emitters_in(ev.nodes.take(i as int)),
                tracker.particles == 1 + particles_in(ev.nodes.take(i as int)),
                doc.deep_view() == spec_nodes_chunks(s1, ev.nodes.take(i as int), lv),
            decreases self.nodes@.len() - i,
        {
            proof {
                lemma_counters_bounded(ev.nodes.take(i as int));
            }
            push_text(&mut doc, "<node>");
            self.nodes[i].to_xml(lookup, &mut tracker, &mut doc);
            push_text(&mut doc, "</node>");
            proof {
                assert(ev.nodes.take(i + 1).drop_last() =~= ev.nodes.take(i as int));
                assert(ev.nodes.take(i + 1).last() == ev.nodes[i as int]);
            }
            i = i + 1;
        }
        assert(ev.nodes.take(self.nodes@.len() as int) =~= ev.nodes);
        push_text(&mut doc, "</nodeList></effectData></SpriteStudioEffect>");
        doc
    }
}


/// A discriminant outside the 18 known values is the unknown-discriminant
/// error, and the reserved base tag standing alone is an error too, never
/// an empty behavior.
pub proof fn lemma_behavior_discriminants(b: Seq<u8>, off: int)
    requires
        0 <= off,
        off + 2 <= b.len(),
    ensures
        le16(b, off) > 17 ==> spec_parse_behavior(b, off) == Err::<BehaviorData, DecodeError>(
            DecodeError::Cast(CastError(le16(b, off) as usize)),
        ),
        le16(b, off) == 0 ==> spec_parse_behavior(b, off) == Err::<BehaviorData, DecodeError>(
            DecodeError::Effect(EffectError::GotBaseEffect),
        ),
{
}

} // verus!

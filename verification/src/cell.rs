//! Cell records: the atlas table (cell maps), the sub-image table (cell
//! entries), and the resolver that groups entries by owning atlas.

use vstd::prelude::*;
use vstd::string::StringSliceAdditionalSpecFns;
use vstd::utf8::encode_utf8;
use crate::xml::{
    dec_nat, esc, push_close_chunk, push_dec, push_esc, push_open_chunk, push_scalar, push_text,
    tc, Chunk, ChunkV,
};
use crate::{CastError, DecodeError};
use crate::binary::{
    bounds_err, check_range, get_u16, get_u32, le16, le32, read_str32, str_read_r, Ptr,
};

verus! {

/// Byte size of one cell map record.
pub const CELL_MAP_SIZE: u64 = 0x10;

/// Byte size of one cell entry record.
pub const CELL_ENTRY_SIZE: u64 = 0x2c;

/// Texture wrap mode of an atlas.
#[derive(Debug, Clone, Copy, PartialEq, Eq, Structural)]
#[allow(non_camel_case_types)]
pub enum TexWrapMode {
    clamp,
    repeat,
    mirror,
}

/// Texture filter mode of an atlas; the spelling of the nearest-neighbour
/// mode follows the authoring tool's own vocabulary.
#[derive(Debug, Clone, Copy, PartialEq, Eq, Structural)]
#[allow(non_camel_case_types)]
pub enum TexFilterMode {
    nearlest,
    linear,
}

/// Keyframe interpolation kinds known to the authoring tool.
#[derive(Debug, Clone, Copy, PartialEq, Eq, Structural)]
#[allow(non_camel_case_types)]
pub enum InterpolateType {
    none,
    linear,
    hermite,
    bezier,
    acceleration,
    deceleration,
}

/// The wrap mode selected by ordinal `v`, or the cast error for an ordinal
/// outside the domain.
pub open spec fn spec_wrap_from(v: u16) -> Result<TexWrapMode, DecodeError> {
    if v == 0 {
        Ok(TexWrapMode::clamp)
    } else if v == 1 {
        Ok(TexWrapMode::repeat)
    } else if v == 2 {
        Ok(TexWrapMode::mirror)
    } else {
        Err(DecodeError::Cast(CastError(v as usize)))
    }
}

/// The filter mode selected by ordinal `v`, or the cast error for an
/// ordinal outside the domain.
pub open spec fn spec_filter_from(v: u16) -> Result<TexFilterMode, DecodeError> {
    if v == 0 {
        Ok(TexFilterMode::nearlest)
    } else if v == 1 {
        Ok(TexFilterMode::linear)
    } else {
        Err(DecodeError::Cast(CastError(v as usize)))
    }
}

impl TexWrapMode {
    /// Decodes the wrap-mode ordinal.
    pub fn from_u16(v: u16) -> (r: Result<TexWrapMode, DecodeError>)
        ensures
            r == spec_wrap_from(v),
    {
        if v == 0 {
            Ok(TexWrapMode::clamp)
        } else if v == 1 {
            Ok(TexWrapMode::repeat)
        } else if v == 2 {
            Ok(TexWrapMode::mirror)
        } else {
            Err(DecodeError::Cast(CastError(v as usize)))
        }
    }

    /// The name of the mode in the output vocabulary.
    pub open spec fn spec_name(self) -> Seq<char> {
        match self {
            TexWrapMode::clamp => "clamp"@,
            TexWrapMode::repeat => "repeat"@,
            TexWrapMode::mirror => "mirror"@,
        }
    }

    /// The name of the mode in the output vocabulary.
    pub fn name_str(&self) -> (r: &'static str)
        ensures
            r@ == self.spec_name(),
    {
        match self {
            TexWrapMode::clamp => "clamp",
            TexWrapMode::repeat => "repeat",
            TexWrapMode::mirror => "mirror",
        }
    }
}

impl TexFilterMode {
    /// Decodes the filter-mode ordinal.
    pub fn from_u16(v: u16) -> (r: Result<TexFilterMode, DecodeError>)
        ensures
            r == spec_filter_from(v),
    {
        if v == 0 {
            Ok(TexFilterMode::nearlest)
        } else if v == 1 {
            Ok(TexFilterMode::linear)
        } else {
            Err(DecodeError::Cast(CastError(v as usize)))
        }
    }

    /// The name of the mode in the output vocabulary.
    pub open spec fn spec_name(self) -> Seq<char> {
        match self {
            TexFilterMode::nearlest => "nearlest"@,
            TexFilterMode::linear => "linear"@,
        }
    }

    /// The name of the mode in the output vocabulary.
    pub fn name_str(&self) -> (r: &'static str)
        ensures
            r@ == self.spec_name(),
    {
        match self {
            TexFilterMode::nearlest => "nearlest",
            TexFilterMode::linear => "linear",
        }
    }
}

/// The interpolation kind selected by ordinal `v`.
pub open spec fn spec_interpolate_from(v: u32) -> Result<InterpolateType, DecodeError> {
    if v == 0 {
        Ok(InterpolateType::none)
    } else if v == 1 {
        Ok(InterpolateType::linear)
    } else if v == 2 {
        Ok(InterpolateType::hermite)
    } else if v == 3 {
        Ok(InterpolateType::bezier)
    } else if v == 4 {
        Ok(InterpolateType::acceleration)
    } else if v == 5 {
        Ok(InterpolateType::deceleration)
    } else {
        Err(DecodeError::Cast(CastError(v as usize)))
    }
}

impl InterpolateType {
    /// Decodes the interpolation ordinal.
    pub fn from_u32(v: u32) -> (r: Result<InterpolateType, DecodeError>)
        ensures
            r == spec_interpolate_from(v),
    {
        if v == 0 {
            Ok(InterpolateType::none)
        } else if v == 1 {
            Ok(InterpolateType::linear)
        } else if v == 2 {
            Ok(InterpolateType::hermite)
        } else if v == 3 {
            Ok(InterpolateType::bezier)
        } else if v == 4 {
            Ok(InterpolateType::acceleration)
        } else if v == 5 {
            Ok(InterpolateType::deceleration)
        } else {
            Err(DecodeError::Cast(CastError(v as usize)))
        }
    }
}

/// One atlas definition.
#[derive(Debug)]
pub struct CellMap {
    pub name: Vec<u8>,
    pub image_path: Vec<u8>,
    pub index: u16,
    pub wrap_mode: TexWrapMode,
    pub filter_mode: TexFilterMode,
}

/// The mathematical value of a cell map.
pub struct CellMapV {
    pub name: Seq<u8>,
    pub image_path: Seq<u8>,
    pub index: u16,
    pub wrap_mode: TexWrapMode,
    pub filter_mode: TexFilterMode,
}

impl DeepView for CellMap {
    type V = CellMapV;

    open spec fn deep_view(&self) -> CellMapV {
        CellMapV {
            name: self.name@,
            image_path: self.image_path@,
            index: self.index,
            wrap_mode: self.wrap_mode,
            filter_mode: self.filter_mode,
        }
    }
}

impl CellMap {
    /// The atlas's dense numeric index, the key cross-references use.
    pub fn get_index(&self) -> (r: u16)
        ensures
            r == self.index,
    {
        self.index
    }

    /// The atlas's texture wrap mode.
    pub fn get_wrap_mode(&self) -> (r: TexWrapMode)
        ensures
            r == self.wrap_mode,
    {
        self.wrap_mode
    }

    /// The atlas's texture filter mode.
    pub fn get_filter_mode(&self) -> (r: TexFilterMode)
        ensures
            r == self.filter_mode,
    {
        self.filter_mode
    }
}

/// The cell map record held at `off`, decoded.
pub open spec fn spec_parse_cell_map(b: Seq<u8>, off: int) -> Result<CellMapV, DecodeError> {
    if off + CELL_MAP_SIZE > b.len() {
        Err(bounds_err(b, off, CELL_MAP_SIZE as int))
    } else {
        match str_read_r(b, le32(b, off) as int) {
            Err(e) => Err(e),
            Ok(name) => match str_read_r(b, le32(b, off + 4) as int) {
                Err(e) => Err(e),
                Ok(image_path) => match spec_wrap_from(le16(b, off + 10)) {
                    Err(e) => Err(e),
                    Ok(wrap_mode) => match spec_filter_from(le16(b, off + 12)) {
                        Err(e) => Err(e),
                        Ok(filter_mode) => Ok(
                            CellMapV {
                                name,
                                image_path,
                                index: le16(b, off + 8),
                                wrap_mode,
                                filter_mode,
                            },
                        ),
                    },
                },
            },
        }
    }
}

/// Decodes the cell map record at `off`.
pub fn parse_cell_map(b: &Vec<u8>, off: u64) -> (r: Result<CellMap, DecodeError>)
    ensures
        match r {
            Ok(v) => spec_parse_cell_map(b@, off as int) == Ok::<CellMapV, DecodeError>(
                v.deep_view(),
            ),
            Err(e) => spec_parse_cell_map(b@, off as int) == Err::<CellMapV, DecodeError>(e),
        },
{
    let o = match check_range(b, off, CELL_MAP_SIZE) {
        Ok(o) => o,
        Err(e) => {
            return Err(e);
        },
    };
    let l = b.len();
    assert(o + CELL_MAP_SIZE <= l);
    let name = match read_str32(b, get_u32(b, o)) {
        Ok(v) => v,
        Err(e) => {
            return Err(e);
        },
    };
    let image_path = match read_str32(b, get_u32(b, o + 4)) {
        Ok(v) => v,
        Err(e) => {
            return Err(e);
        },
    };
    let index = get_u16(b, o + 8);
    let wrap_mode = match TexWrapMode::from_u16(get_u16(b, o + 10)) {
        Ok(v) => v,
        Err(e) => {
            return Err(e);
        },
    };
    let filter_mode = match TexFilterMode::from_u16(get_u16(b, o + 12)) {
        Ok(v) => v,
        Err(e) => {
            return Err(e);
        },
    };
    Ok(CellMap { name, image_path, index, wrap_mode, filter_mode })
}

/// One sub-image of an atlas.
#[derive(Debug)]
pub struct CellEntry {
    pub name: Vec<u8>,
    pub cell_map: Ptr,
    pub index: u16,
    pub x: u16,
    pub y: u16,
    pub width: u16,
    pub height: u16,
    pub pivot_x: u32,
    pub pivot_y: u32,
    pub u1: u32,
    pub v1: u32,
    pub u2: u32,
    pub v2: u32,
}

/// The mathematical value of a cell entry; the pivot and texture corner
/// fields hold 32-bit float bit patterns.
pub struct CellEntryV {
    pub name: Seq<u8>,
    pub cell_map: Ptr,
    pub index: u16,
    pub x: u16,
    pub y: u16,
    pub width: u16,
    pub height: u16,
    pub pivot_x: u32,
    pub pivot_y: u32,
    pub u1: u32,
    pub v1: u32,
    pub u2: u32,
    pub v2: u32,
}

impl DeepView for CellEntry {
    type V = CellEntryV;

    open spec fn deep_view(&self) -> CellEntryV {
        CellEntryV {
            name: self.name@,
            cell_map: self.cell_map,
            index: self.index,
            x: self.x,
            y: self.y,
            width: self.width,
            height: self.height,
            pivot_x: self.pivot_x,
            pivot_y: self.pivot_y,
            u1: self.u1,
            v1: self.v1,
            u2: self.u2,
            v2: self.v2,
        }
    }
}

/// The cell entry record held at `off`, decoded.
pub open spec fn spec_parse_cell_entry(b: Seq<u8>, off: int) -> Result<CellEntryV, DecodeError> {
    if off + CELL_ENTRY_SIZE > b.len() {
        Err(bounds_err(b, off, CELL_ENTRY_SIZE as int))
    } else {
        match str_read_r(b, le32(b, off) as int) {
            Err(e) => Err(e),
            Ok(name) => Ok(
                CellEntryV {
                    name,
                    cell_map: Ptr { offset: le32(b, off + 4) },
                    index: le16(b, off + 8),
                    x: le16(b, off + 10),
                    y: le16(b, off + 12),
                    width: le16(b, off + 14),
                    height: le16(b, off + 16),
                    pivot_x: le32(b, off + 20),
                    pivot_y: le32(b, off + 24),
                    u1: le32(b, off + 28),
                    v1: le32(b, off + 32),
                    u2: le32(b, off + 36),
                    v2: le32(b, off + 40),
                },
            ),
        }
    }
}

/// Decodes the cell entry record at `off`.
pub fn parse_cell_entry(b: &Vec<u8>, off: u64) -> (r: Result<CellEntry, DecodeError>)
    ensures
        match r {
            Ok(v) => spec_parse_cell_entry(b@, off as int) == Ok::<CellEntryV, DecodeError>(
                v.deep_view(),
            ),
            Err(e) => spec_parse_cell_entry(b@, off as int) == Err::<CellEntryV, DecodeError>(e),
        },
{
    let o = match check_range(b, off, CELL_ENTRY_SIZE) {
        Ok(o) => o,
        Err(e) => {
            return Err(e);
        },
    };
    let l = b.len();
    assert(o + CELL_ENTRY_SIZE <= l);
    let name = match read_str32(b, get_u32(b, o)) {
        Ok(v) => v,
        Err(e) => {
            return Err(e);
        },
    };
    Ok(
        CellEntry {
            name,
            cell_map: Ptr { offset: get_u32(b, o + 4) },
            index: get_u16(b, o + 8),
            x: get_u16(b, o + 10),
            y: get_u16(b, o + 12),
            width: get_u16(b, o + 14),
            height: get_u16(b, o + 16),
            pivot_x: get_u32(b, o + 20),
            pivot_y: get_u32(b, o + 24),
            u1: get_u32(b, o + 28),
            v1: get_u32(b, o + 32),
            u2: get_u32(b, o + 36),
            v2: get_u32(b, o + 40),
        },
    )
}

impl CellEntry {
    /// The cell's name.
    pub fn get_name(&self) -> (r: &Vec<u8>)
        ensures
            r@ == self.name@,
    {
        &self.name
    }

    /// Decodes the owning cell map record this entry references.
    pub fn get_cell_map(&self, binary: &Vec<u8>) -> (r: Result<CellMap, DecodeError>)
        ensures
            match r {
                Ok(v) => spec_parse_cell_map(binary@, self.cell_map.offset as int) == Ok::<
                    CellMapV,
                    DecodeError,
                >(v.deep_view()),
                Err(e) => spec_parse_cell_map(binary@, self.cell_map.offset as int) == Err::<
                    CellMapV,
                    DecodeError,
                >(e),
            },
    {
        parse_cell_map(binary, self.cell_map.offset as u64)
    }
}


/// One row of the secondary index: flat cell-table position to owning map
/// index, cell name and map name.
#[derive(Debug)]
pub struct CellLookup {
    pub map_index: u16,
    pub name: Vec<u8>,
    pub map_name: Vec<u8>,
}

/// The mathematical value of a secondary-index row.
pub struct CellLookupV {
    pub map_index: u16,
    pub name: Seq<u8>,
    pub map_name: Seq<u8>,
}

impl DeepView for CellLookup {
    type V = CellLookupV;

    open spec fn deep_view(&self) -> CellLookupV {
        CellLookupV { map_index: self.map_index, name: self.name@, map_name: self.map_name@ }
    }
}

/// All cell entries sharing one cell map, in encounter order: the aggregate
/// an atlas document is rendered from.
#[derive(Debug)]
pub struct Cell {
    pub data: CellMap,
    pub list: Vec<CellEntry>,
}

/// The mathematical value of a cell aggregate.
pub struct CellV {
    pub data: CellMapV,
    pub list: Seq<CellEntryV>,
}

impl DeepView for Cell {
    type V = CellV;

    open spec fn deep_view(&self) -> CellV {
        CellV { data: self.data.deep_view(), list: self.list.deep_view() }
    }
}

/// Whether some entry of `list` carries in-map index `index`.
pub open spec fn spec_has_index(list: Seq<CellEntryV>, index: u16) -> bool {
    exists|j: int| 0 <= j < list.len() && list[j].index == index
}

/// The name of the first entry of `list` with in-map index `index`.
pub open spec fn spec_name_by_index(list: Seq<CellEntryV>, index: u16) -> Option<Seq<u8>>
    decreases list.len(),
{
    if list.len() == 0 {
        None
    } else if list[0].index == index {
        Some(list[0].name)
    } else {
        spec_name_by_index(list.drop_first(), index)
    }
}

/// Finding an index succeeds exactly when some entry carries it.
pub proof fn lemma_name_by_index_some(list: Seq<CellEntryV>, index: u16)
    ensures
        spec_name_by_index(list, index) is Some <==> spec_has_index(list, index),
    decreases list.len(),
{
    if list.len() == 0 {
    } else if list[0].index == index {
    } else {
        lemma_name_by_index_some(list.drop_first(), index);
        assert(spec_has_index(list.drop_first(), index) ==> spec_has_index(list, index)) by {
            if spec_has_index(list.drop_first(), index) {
                let j = choose|j: int|
                    0 <= j < list.drop_first().len() && list.drop_first()[j].index == index;
                assert(list[j + 1].index == index);
            }
        }
        assert(spec_has_index(list, index) ==> spec_has_index(list.drop_first(), index)) by {
            if spec_has_index(list, index) {
                let j = choose|j: int| 0 <= j < list.len() && list[j].index == index;
                assert(list.drop_first()[j - 1].index == index);
            }
        }
    }
}

impl Cell {
    /// A fresh aggregate for `data` holding its first entry.
    pub fn new(data: CellMap, first: CellEntry) -> (r: Cell)
        ensures
            r.deep_view().data == data.deep_view(),
            r.deep_view().list =~= seq![first.deep_view()],
    {
        let mut list: Vec<CellEntry> = Vec::new();
        list.push(first);
        let r = Cell { data, list };
        assert(r.deep_view().list =~= seq![first.deep_view()]);
        r
    }

    /// Appends one more entry of the same map.
    pub fn add(&mut self, new: CellEntry)
        ensures
            final(self).deep_view().data == old(self).deep_view().data,
            final(self).deep_view().list == old(self).deep_view().list.push(new.deep_view()),
    {
        self.list.push(new);
        assert(self.deep_view().list =~= old(self).deep_view().list.push(new.deep_view()));
    }

    /// The owning map's name.
    pub fn get_name(&self) -> (r: &Vec<u8>)
        ensures
            r@ == self.deep_view().data.name,
    {
        &self.data.name
    }

    /// The name of the first entry with in-map index `index`, if any.
    pub fn get_name_by_index(&self, index: u16) -> (r: Option<&Vec<u8>>)
        ensures
            match r {
                Some(n) => spec_name_by_index(self.deep_view().list, index) == Some(n@),
                None => spec_name_by_index(self.deep_view().list, index) is None,
            },
    {
        let ghost lv = self.deep_view().list;
        proof {
            assert(lv.skip(0) =~= lv);
        }
        let mut i: usize = 0;
        while i < self.list.len()
            invariant
                0 <= i <= self.list@.len(),
                lv == self.deep_view().list,
                lv.len() == self.list@.len(),
                forall|j: int| 0 <= j < i ==> lv[j].index != index,
                spec_name_by_index(lv, index) == spec_name_by_index(lv.skip(i as int), index),
            decreases self.list@.len() - i,
        {
            if self.list[i].index == index {
                assert(lv.skip(i as int)[0] == lv[i as int]);
                return Some(&self.list[i].name);
            }
            assert(lv.skip(i as int).drop_first() =~= lv.skip(i + 1));
            i = i + 1;
        }
        assert(lv.skip(i as int) =~= Seq::<CellEntryV>::empty());
        None
    }
}

/// The position of the first aggregate whose map carries `idx`.
pub open spec fn spec_find_cell(cells: Seq<CellV>, idx: u16) -> Option<int>
    decreases cells.len(),
{
    if cells.len() == 0 {
        None
    } else if cells[0].data.index == idx {
        Some(0int)
    } else {
        match spec_find_cell(cells.drop_first(), idx) {
            None => None,
            Some(j) => Some(j + 1),
        }
    }
}

/// A found aggregate position lies in range and matches `idx`, and a miss
/// means no aggregate matches.
pub proof fn lemma_find_cell(cells: Seq<CellV>, idx: u16)
    ensures
        match spec_find_cell(cells, idx) {
            Some(j) => 0 <= j < cells.len() && cells[j].data.index == idx && forall|k: int|
                0 <= k < j ==> cells[k].data.index != idx,
            None => forall|k: int| 0 <= k < cells.len() ==> cells[k].data.index != idx,
        },
    decreases cells.len(),
{
    if cells.len() == 0 {
    } else if cells[0].data.index == idx {
    } else {
        lemma_find_cell(cells.drop_first(), idx);
        assert(forall|k: int|
            1 <= k < cells.len() ==> cells[k] == #[trigger] cells.drop_first()[k - 1]);
        match spec_find_cell(cells.drop_first(), idx) {
            Some(j) => {
                assert(cells[j + 1] == cells.drop_first()[j]);
                assert forall|k: int| 1 <= k < j + 1 implies cells[k].data.index != idx by {
                    assert(cells[k] == cells.drop_first()[k - 1]);
                    assert(cells.drop_first()[k - 1].data.index != idx);
                }
            },
            None => {
                assert forall|k: int| 1 <= k < cells.len() implies cells[k].data.index != idx by {
                    assert(cells[k] == cells.drop_first()[k - 1]);
                    assert(cells.drop_first()[k - 1].data.index != idx);
                }
            },
        }
    }
}

/// Finds the aggregate owned by map index `idx`.
pub fn find_cell_by_index(cells: &Vec<Cell>, idx: u16) -> (r: Option<usize>)
    ensures
        match r {
            Some(j) => spec_find_cell(cells.deep_view(), idx) == Some(j as int) && j
                < cells@.len(),
            None => spec_find_cell(cells.deep_view(), idx) is None,
        },
{
    let ghost cv = cells.deep_view();
    proof {
        assert(cv.skip(0) =~= cv);
    }
    let mut i: usize = 0;
    while i < cells.len()
        invariant
            0 <= i <= cells@.len(),
            cv == cells.deep_view(),
            cv.len() == cells@.len(),
            spec_find_cell(cv, idx) == match spec_find_cell(cv.skip(i as int), idx) {
                None => None::<int>,
                Some(j) => Some(j + i),
            },
        decreases cells@.len() - i,
    {
        if cells[i].data.index == idx {
            assert(cv.skip(i as int)[0] == cv[i as int]);
            return Some(i);
        }
        assert(cv.skip(i as int)[0] == cv[i as int]);
        assert(cv.skip(i as int).drop_first() =~= cv.skip(i + 1));
        i = i + 1;
    }
    assert(cv.skip(i as int) =~= Seq::<CellV>::empty());
    None
}

/// The aggregates after inserting entry `e` of map `m`: appended to the
/// aggregate already keyed by `m`'s index, or opening a fresh aggregate;
/// a repeated in-map index is an error, never an overwrite.
pub open spec fn spec_insert_entry(cells: Seq<CellV>, m: CellMapV, e: CellEntryV) -> Result<
    Seq<CellV>,
    DecodeError,
> {
    match spec_find_cell(cells, m.index) {
        None => Ok(cells.push(CellV { data: m, list: seq![e] })),
        Some(j) => if spec_has_index(cells[j].list, e.index) {
            Err(DecodeError::DuplicateIndex { map_index: m.index, cell_index: e.index })
        } else {
            Ok(cells.update(j, CellV { data: cells[j].data, list: cells[j].list.push(e) }))
        },
    }
}

/// The cell table decoded and grouped: the first `n` cell entry records at
/// `off`, each resolved against its owning map, grouped into aggregates,
/// together with the secondary index in flat table order.
pub open spec fn spec_decode_cells(b: Seq<u8>, off: int, n: int) -> Result<
    (Seq<CellV>, Seq<CellLookupV>),
    DecodeError,
>
    decreases n,
{
    if n <= 0 {
        Ok((Seq::<CellV>::empty(), Seq::<CellLookupV>::empty()))
    } else {
        match spec_decode_cells(b, off, n - 1) {
            Err(e) => Err(e),
            Ok((cells, lookup)) => match spec_parse_cell_entry(
                b,
                off + (n - 1) * (CELL_ENTRY_SIZE as int),
            ) {
                Err(e) => Err(e),
                Ok(e1) => match spec_parse_cell_map(b, e1.cell_map.offset as int) {
                    Err(e) => Err(e),
                    Ok(m) => match spec_insert_entry(cells, m, e1) {
                        Err(e) => Err(e),
                        Ok(cells2) => Ok(
                            (
                                cells2,
                                lookup.push(
                                    CellLookupV {
                                        map_index: m.index,
                                        name: e1.name,
                                        map_name: m.name,
                                    },
                                ),
                            ),
                        ),
                    },
                },
            },
        }
    }
}

/// A failure of the cell-table decode at some prefix stands for the whole
/// table.
pub proof fn lemma_decode_cells_err(b: Seq<u8>, off: int, m: int, n: int)
    requires
        0 <= m <= n,
        spec_decode_cells(b, off, m) is Err,
    ensures
        spec_decode_cells(b, off, n) == spec_decode_cells(b, off, m),
    decreases n - m,
{
    if m < n {
        lemma_decode_cells_err(b, off, m, n - 1);
    }
}

/// Decodes the cell table: `n` entry records starting at `off`, grouped by
/// owning cell map, plus the flat secondary index.
pub fn decode_cells(b: &Vec<u8>, off: u32, n: u16) -> (r: Result<
    (Vec<Cell>, Vec<CellLookup>),
    DecodeError,
>)
    ensures
        match r {
            Ok(v) => spec_decode_cells(b@, off as int, n as int) == Ok::<
                (Seq<CellV>, Seq<CellLookupV>),
                DecodeError,
            >((v.0.deep_view(), v.1.deep_view())),
            Err(e) => spec_decode_cells(b@, off as int, n as int) == Err::<
                (Seq<CellV>, Seq<CellLookupV>),
                DecodeError,
            >(e),
        },
{
    let mut cells: Vec<Cell> = Vec::new();
    let mut lookup: Vec<CellLookup> = Vec::new();
    assert(cells.deep_view() =~= Seq::<CellV>::empty());
    assert(lookup.deep_view() =~= Seq::<CellLookupV>::empty());
    let mut i: u16 = 0;
    while i < n
        invariant
            0 <= i <= n,
            spec_decode_cells(b@, off as int, i as int) == Ok::<
                (Seq<CellV>, Seq<CellLookupV>),
                DecodeError,
            >((cells.deep_view(), lookup.deep_view())),
        decreases n - i,
    {
        let eoff: u64 = (off as u64) + (i as u64) * CELL_ENTRY_SIZE;
        let entry = match parse_cell_entry(b, eoff) {
            Ok(v) => v,
            Err(e) => {
                proof {
                    assert(spec_decode_cells(b@, off as int, i + 1) == Err::<
                        (Seq<CellV>, Seq<CellLookupV>),
                        DecodeError,
                    >(e));
                    lemma_decode_cells_err(b@, off as int, i + 1, n as int);
                }
                return Err(e);
            },
        };
        let m = match parse_cell_map(b, entry.cell_map.offset as u64) {
            Ok(v) => v,
            Err(e) => {
                proof {
                    assert(spec_decode_cells(b@, off as int, i + 1) == Err::<
                        (Seq<CellV>, Seq<CellLookupV>),
                        DecodeError,
                    >(e));
                    lemma_decode_cells_err(b@, off as int, i + 1, n as int);
                }
                return Err(e);
            },
        };
        let ghost cells0 = cells.deep_view();
        let ghost lookup0 = lookup.deep_view();
        let ghost mv = m.deep_view();
        let ghost ev = entry.deep_view();
        lookup.push(
            CellLookup {
                map_index: m.index,
                name: vstd::slice::slice_to_vec(entry.name.as_slice()),
                map_name: vstd::slice::slice_to_vec(m.name.as_slice()),
            },
        );
        assert(lookup.deep_view() =~= lookup0.push(
            CellLookupV { map_index: mv.index, name: ev.name, map_name: mv.name },
        ));
        match find_cell_by_index(&cells, m.index) {
            None => {
                let fresh = Cell::new(m, entry);
                cells.push(fresh);
                assert(cells.deep_view() =~= cells0.push(CellV { data: mv, list: seq![ev] }));
            },
            Some(j) => {
                proof {
                    lemma_find_cell(cells0, mv.index);
                }
                let mut agg = cells.remove(j);
                assert(agg.deep_view() == cells0[j as int]);
                let dup = agg.get_name_by_index(entry.index).is_some();
                proof {
                    lemma_name_by_index_some(cells0[j as int].list, ev.index);
                }
                if dup {
                    let e = DecodeError::DuplicateIndex {
                        map_index: m.index,
                        cell_index: entry.index,
                    };
                    proof {
                        assert(spec_decode_cells(b@, off as int, i + 1) == Err::<
                            (Seq<CellV>, Seq<CellLookupV>),
                            DecodeError,
                        >(e));
                        lemma_decode_cells_err(b@, off as int, i + 1, n as int);
                    }
                    return Err(e);
                }
                agg.add(entry);
                cells.insert(j, agg);
                assert(cells.deep_view() =~= cells0.update(
                    j as int,
                    CellV { data: cells0[j as int].data, list: cells0[j as int].list.push(ev) },
                ));
            },
        }
        i = i + 1;
    }
    Ok((cells, lookup))
}


/// The chunks of one `cell` element: the cell's name, placement, size and
/// pivot, then the fixed fields of the schema.
pub open spec fn spec_cell_chunks(s: Seq<ChunkV>, c: CellEntryV) -> Seq<ChunkV> {
    s.push(tc("<cell><name>")).push(ChunkV::Text(esc(c.name))).push(tc("</name><pos>")).push(
        ChunkV::Text(dec_nat(c.x as nat)),
    ).push(tc(" ")).push(ChunkV::Text(dec_nat(c.y as nat))).push(tc("</pos><size>")).push(
        ChunkV::Text(dec_nat(c.width as nat)),
    ).push(tc(" ")).push(ChunkV::Text(dec_nat(c.height as nat))).push(tc("</size><pivot>")).push(
        ChunkV::Scalar(c.pivot_x),
    ).push(tc(" ")).push(ChunkV::Scalar(c.pivot_y)).push(
        tc(
            "</pivot><rotated>0</rotated><orgImageName></orgImageName><posStable>0</posStable><ismesh>0</ismesh><divtype>unknown</divtype><innerPoint/><outerPoint/><meshPointList/><meshTriList/></cell>",
        ),
    )
}

impl CellEntry {
    /// Renders this cell as one `cell` element of an atlas document.
    pub fn to_xml(&self, doc: &mut Vec<Chunk>)
        ensures
            final(doc).deep_view() == spec_cell_chunks(old(doc).deep_view(), self.deep_view()),
    {
        push_text(doc, "<cell><name>");
        push_esc(doc, &self.name);
        push_text(doc, "</name><pos>");
        push_dec(doc, self.x as u32);
        push_text(doc, " ");
        push_dec(doc, self.y as u32);
        push_text(doc, "</pos><size>");
        push_dec(doc, self.width as u32);
        push_text(doc, " ");
        push_dec(doc, self.height as u32);
        push_text(doc, "</size><pivot>");
        push_scalar(doc, self.pivot_x);
        push_text(doc, " ");
        push_scalar(doc, self.pivot_y);
        push_text(
            doc,
            "</pivot><rotated>0</rotated><orgImageName></orgImageName><posStable>0</posStable><ismesh>0</ismesh><divtype>unknown</divtype><innerPoint/><outerPoint/><meshPointList/><meshTriList/></cell>",
        );
    }
}

/// The chunks of every cell of the aggregate, in encounter order.
pub open spec fn spec_cells_chunks(s: Seq<ChunkV>, list: Seq<CellEntryV>) -> Seq<ChunkV>
    decreases list.len(),
{
    if list.len() == 0 {
        s
    } else {
        spec_cell_chunks(spec_cells_chunks(s, list.drop_last()), list.last())
    }
}

/// The whole atlas document of one aggregate, given the resolved image
/// name and pixel size the texture collaborator reported.
pub open spec fn spec_cellmap_doc(c: CellV, img_name: Seq<u8>, w: u32, h: u32) -> Seq<ChunkV> {
    let s = Seq::<ChunkV>::empty().push(
        tc(
            "<?xml version=\"1.0\" encoding=\"utf-8\" standalone=\"yes\"?>\n<SpriteStudioCellMap version=\"2.00.00\"><name>",
        ),
    ).push(ChunkV::Text(esc(c.data.name))).push(
        tc(
            "</name><exportPath></exportPath><generator>SpriteStudio</generator><packed>0</packed><imagePath>",
        ),
    ).push(ChunkV::Text(esc(img_name))).push(tc("</imagePath><pixelSize>")).push(
        ChunkV::Text(dec_nat(w as nat)),
    ).push(tc(" ")).push(ChunkV::Text(dec_nat(h as nat))).push(
        tc("</pixelSize><overrideTexSettings>0</overrideTexSettings><wrapMode>"),
    ).push(ChunkV::Text(encode_utf8(c.data.wrap_mode.spec_name()))).push(
        tc("</wrapMode><filterMode>"),
    ).push(ChunkV::Text(encode_utf8(c.data.filter_mode.spec_name()))).push(
        tc(
            "</filterMode><imagePathAtImport></imagePathAtImport><packInfoFilePath></packInfoFilePath><texPackSettings><maxSize>4096 4096</maxSize><forcePo2>1</forcePo2><forceSquare>0</forceSquare><margin>0</margin><padding>1</padding></texPackSettings><cells>",
        ),
    );
    spec_cells_chunks(s, c.list).push(tc("</cells></SpriteStudioCellMap>"))
}

impl Cell {
    /// Renders this aggregate as one atlas document, given the resolved
    /// image name and pixel size the texture collaborator reported for the
    /// atlas's image path.
    pub fn to_xml(&self, img_name: &Vec<u8>, width: u32, height: u32) -> (r: Vec<Chunk>)
        ensures
            r.deep_view() == spec_cellmap_doc(self.deep_view(), img_name@, width, height),
    {
        let ghost cv = self.deep_view();
        let mut doc: Vec<Chunk> = Vec::new();
        assert(doc.deep_view() =~= Seq::<ChunkV>::empty());
        push_text(
            &mut doc,
            "<?xml version=\"1.0\" encoding=\"utf-8\" standalone=\"yes\"?>\n<SpriteStudioCellMap version=\"2.00.00\"><name>",
        );
        push_esc(&mut doc, &self.data.name);
        push_text(
            &mut doc,
            "</name><exportPath></exportPath><generator>SpriteStudio</generator><packed>0</packed><imagePath>",
        );
        push_esc(&mut doc, img_name);
        push_text(&mut doc, "</imagePath><pixelSize>");
        push_dec(&mut doc, width);
        push_text(&mut doc, " ");
        push_dec(&mut doc, height);
        push_text(&mut doc, "</pixelSize><overrideTexSettings>0</overrideTexSettings><wrapMode>");
        push_text(&mut doc, self.data.wrap_mode.name_str());
        push_text(&mut doc, "</wrapMode><filterMode>");
        push_text(&mut doc, self.data.filter_mode.name_str());
        push_text(
            &mut doc,
            "</filterMode><imagePathAtImport></imagePathAtImport><packInfoFilePath></packInfoFilePath><texPackSettings><maxSize>4096 4096</maxSize><forcePo2>1</forcePo2><forceSquare>0</forceSquare><margin>0</margin><padding>1</padding></texPackSettings><cells>",
        );
        let ghost s0 = doc.deep_view();
        let mut i: usize = 0;
        assert(spec_cells_chunks(s0, cv.list.take(0)) == s0);
        while i < self.list.len()
            invariant
                0 <= i <= self.list@.len(),
                cv == self.deep_view(),
                cv.list.len() == self.list@.len(),
                doc.deep_view() == spec_cells_chunks(s0, cv.list.take(i as int)),
            decreases self.list@.len() - i,
        {
            self.list[i].to_xml(&mut doc);
            proof {
                assert(cv.list.take(i + 1).drop_last() =~= cv.list.take(i as int));
                assert(cv.list.take(i + 1).last() == cv.list[i as int]);
            }
            i = i + 1;
        }
        assert(cv.list.take(self.list@.len() as int) =~= cv.list);
        push_text(&mut doc, "</cells></SpriteStudioCellMap>");
        doc
    }
}


/// How many entries the aggregates hold in all.
pub open spec fn total_entries(cells: Seq<CellV>) -> int
    decreases cells.len(),
{
    if cells.len() == 0 {
        0
    } else {
        total_entries(cells.drop_last()) + cells.last().list.len()
    }
}

/// Replacing one aggregate by one holding a single further entry raises
/// the total by one.
proof fn lemma_total_update_push(cells: Seq<CellV>, j: int, c: CellV)
    requires
        0 <= j < cells.len(),
        c.list.len() == cells[j].list.len() + 1,
    ensures
        total_entries(cells.update(j, c)) == total_entries(cells) + 1,
    decreases cells.len(),
{
    if j == cells.len() - 1 {
        assert(cells.update(j, c).drop_last() =~= cells.drop_last());
    } else {
        assert(cells.update(j, c).drop_last() =~= cells.drop_last().update(j, c));
        lemma_total_update_push(cells.drop_last(), j, c);
    }
}

/// Appending one aggregate holding one entry raises the total by one.
proof fn lemma_total_push(cells: Seq<CellV>, c: CellV)
    requires
        c.list.len() == 1,
    ensures
        total_entries(cells.push(c)) == total_entries(cells) + 1,
{
    assert(cells.push(c).drop_last() =~= cells);
}

/// The resolver's grouping law: an accepted decode of `n` entries yields
/// one aggregate per distinct cell map, never two aggregates for one map
/// index; within each aggregate the in-map indices are distinct, a
/// repeated index having been an error rather than an overwrite; and the
/// aggregates hold the `n` entries exactly, one secondary-index row each.
pub proof fn lemma_resolver_groups(b: Seq<u8>, off: int, n: int)
    requires
        0 <= n,
        spec_decode_cells(b, off, n) is Ok,
    ensures
        ({
            let r = spec_decode_cells(b, off, n)->Ok_0;
            &&& r.1.len() == n
            &&& total_entries(r.0) == n
            &&& forall|i: int, j: int|
                0 <= i < j < r.0.len() ==> r.0[i].data.index != r.0[j].data.index
            &&& forall|j: int, x: int, y: int|
                0 <= j < r.0.len() && 0 <= x < y < r.0[j].list.len() ==> #[trigger] r.0[j].list[x].index
                    != #[trigger] r.0[j].list[y].index
        }),
    decreases n,
{
    if n > 0 {
        lemma_resolver_groups(b, off, n - 1);
        let prev = spec_decode_cells(b, off, n - 1)->Ok_0;
        let cells = prev.0;
        let e1 = spec_parse_cell_entry(b, off + (n - 1) * (CELL_ENTRY_SIZE as int))->Ok_0;
        let m = spec_parse_cell_map(b, e1.cell_map.offset as int)->Ok_0;
        lemma_find_cell(cells, m.index);
        match spec_find_cell(cells, m.index) {
            None => {
                let fresh = CellV { data: m, list: seq![e1] };
                lemma_total_push(cells, fresh);
                let r0 = cells.push(fresh);
                assert(forall|i: int, j: int|
                    0 <= i < j < r0.len() ==> r0[i].data.index != r0[j].data.index);
                assert forall|j: int, x: int, y: int|
                    0 <= j < r0.len() && 0 <= x < y < r0[j].list.len() implies #[trigger] r0[j].list[x].index
                    != #[trigger] r0[j].list[y].index by {
                    if j < cells.len() {
                        assert(r0[j] == cells[j]);
                        assert(cells[j].list[x].index != cells[j].list[y].index);
                    } else {
                        assert(r0[j].list.len() == 1);
                    }
                }
            },
            Some(j) => {
                assert(!spec_has_index(cells[j].list, e1.index));
                let c2 = CellV { data: cells[j].data, list: cells[j].list.push(e1) };
                lemma_total_update_push(cells, j, c2);
                let r0 = cells.update(j, c2);
                assert(forall|i: int, k: int|
                    0 <= i < k < r0.len() ==> r0[i].data.index != r0[k].data.index);
                assert forall|jj: int, x: int, y: int|
                    0 <= jj < r0.len() && 0 <= x < y < r0[jj].list.len() implies #[trigger] r0[jj].list[x].index
                    != #[trigger] r0[jj].list[y].index by {
                    if jj == j {
                        if y == c2.list.len() - 1 {
                            assert(c2.list[x] == cells[j].list[x]);
                            assert(c2.list[y] == e1);
                            assert(!spec_has_index(cells[j].list, e1.index));
                            assert(cells[j].list[x].index != e1.index);
                        } else {
                            assert(c2.list[x] == cells[j].list[x]);
                            assert(c2.list[y] == cells[j].list[y]);
                            assert(cells[j].list[x].index != cells[j].list[y].index);
                        }
                    } else {
                        assert(r0[jj] == cells[jj]);
                        assert(cells[jj].list[x].index != cells[jj].list[y].index);
                    }
                }
            },
        }
    }
}

} // verus!

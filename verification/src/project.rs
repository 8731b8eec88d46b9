//! The project header, the whole-buffer decode that composes the record
//! catalog, and the assembler that renders the project's documents.

use vstd::prelude::*;
use vstd::string::StringSliceAdditionalSpecFns;
use crate::DecodeError;
use crate::anime::{parse_anime, spec_parse_anime, spec_anime_pack_doc, Anime, AnimeV, ANIME_SIZE};
use crate::binary::{
    bounds_err, check_range, get_u16, get_u32, le16, le32, read_str32, str_read_r, Ptr,
};
use crate::cell::{
    decode_cells, spec_decode_cells, spec_cellmap_doc, spec_find_cell, Cell, CellLookup,
    CellLookupV, CellV,
};
use crate::effect::{parse_effect, spec_parse_effect, Effect, EffectV, EFFECT_SIZE};
use crate::frames::{
    decode_entry_tracks, spec_decode_entry_tracks, AttributeWriter, AttributeWriterV,
};
use crate::xml::{esc, name_list_chunks, create_name_list, push_esc, push_text, tc, Chunk, ChunkV};

verus! {

/// Byte size of the project header record.
pub const PROJECT_HEADER_SIZE: u64 = 0x24;

/// The project header: version and flags, the image base directory, and
/// the offset reference plus count of each of the four tables.
#[derive(Debug)]
pub struct ProjectHeader {
    pub data_id: u32,
    pub version: u32,
    pub flags: u32,
    pub image_base_dir: Vec<u8>,
    pub cell: Ptr,
    pub anime_pack_data: Ptr,
    pub effect_file: Ptr,
    pub num_cells: u16,
    pub num_anime_packs: u16,
    pub num_effect_file_list: u16,
    pub num_sequence_packs: u16,
}

/// The mathematical value of the project header.
pub struct ProjectHeaderV {
    pub data_id: u32,
    pub version: u32,
    pub flags: u32,
    pub image_base_dir: Seq<u8>,
    pub cell: Ptr,
    pub anime_pack_data: Ptr,
    pub effect_file: Ptr,
    pub num_cells: u16,
    pub num_anime_packs: u16,
    pub num_effect_file_list: u16,
    pub num_sequence_packs: u16,
}

impl DeepView for ProjectHeader {
    type V = ProjectHeaderV;

    open spec fn deep_view(&self) -> ProjectHeaderV {
        ProjectHeaderV {
            data_id: self.data_id,
            version: self.version,
            flags: self.flags,
            image_base_dir: self.image_base_dir@,
            cell: self.cell,
            anime_pack_data: self.anime_pack_data,
            effect_file: self.effect_file,
            num_cells: self.num_cells,
            num_anime_packs: self.num_anime_packs,
            num_effect_file_list: self.num_effect_file_list,
            num_sequence_packs: self.num_sequence_packs,
        }
    }
}

/// The project header record held at the start of the buffer, decoded.
pub open spec fn spec_parse_header(b: Seq<u8>) -> Result<ProjectHeaderV, DecodeError> {
    if PROJECT_HEADER_SIZE > b.len() {
        Err(bounds_err(b, 0, PROJECT_HEADER_SIZE as int))
    } else {
        match str_read_r(b, le32(b, 12) as int) {
            Err(e) => Err(e),
            Ok(image_base_dir) => Ok(
                ProjectHeaderV {
                    data_id: le32(b, 0),
                    version: le32(b, 4),
                    flags: le32(b, 8),
                    image_base_dir,
                    cell: Ptr { offset: le32(b, 16) },
                    anime_pack_data: Ptr { offset: le32(b, 20) },
                    effect_file: Ptr { offset: le32(b, 24) },
                    num_cells: le16(b, 28),
                    num_anime_packs: le16(b, 30),
                    num_effect_file_list: le16(b, 32),
                    num_sequence_packs: le16(b, 34),
                },
            ),
        }
    }
}

/// Decodes the project header at the start of the buffer.
pub fn parse_header(b: &Vec<u8>) -> (r: Result<ProjectHeader, DecodeError>)
    ensures
        match r {
            Ok(v) => spec_parse_header(b@) == Ok::<ProjectHeaderV, DecodeError>(v.deep_view()),
            Err(e) => spec_parse_header(b@) == Err::<ProjectHeaderV, DecodeError>(e),
        },
{
    let o = match check_range(b, 0, PROJECT_HEADER_SIZE) {
        Ok(o) => o,
        Err(e) => {
            return Err(e);
        },
    };
    let l = b.len();
    assert(PROJECT_HEADER_SIZE <= l);
    let image_base_dir = match read_str32(b, get_u32(b, 12)) {
        Ok(v) => v,
        Err(e) => {
            return Err(e);
        },
    };
    Ok(
        ProjectHeader {
            data_id: get_u32(b, 0),
            version: get_u32(b, 4),
            flags: get_u32(b, 8),
            image_base_dir,
            cell: Ptr { offset: get_u32(b, 16) },
            anime_pack_data: Ptr { offset: get_u32(b, 20) },
            effect_file: Ptr { offset: get_u32(b, 24) },
            num_cells: get_u16(b, 28),
            num_anime_packs: get_u16(b, 30),
            num_effect_file_list: get_u16(b, 32),
            num_sequence_packs: get_u16(b, 34),
        },
    )
}

impl ProjectHeader {
    /// The number of cell entries.
    pub fn get_num_cells(&self) -> (r: u16)
        ensures
            r == self.num_cells,
    {
        self.num_cells
    }

    /// The number of animation packs.
    pub fn get_num_anime(&self) -> (r: u16)
        ensures
            r == self.num_anime_packs,
    {
        self.num_anime_packs
    }

    /// The number of effect files.
    pub fn get_num_effects(&self) -> (r: u16)
        ensures
            r == self.num_effect_file_list,
    {
        self.num_effect_file_list
    }
}

/// The first `n` animation pack records at `off`, decoded in order.
pub open spec fn spec_parse_animes(b: Seq<u8>, off: int, n: int) -> Result<Seq<AnimeV>, DecodeError>
    decreases n,
{
    if n <= 0 {
        Ok(Seq::<AnimeV>::empty())
    } else {
        match spec_parse_animes(b, off, n - 1) {
            Err(e) => Err(e),
            Ok(xs) => match spec_parse_anime(b, off + (n - 1) * (ANIME_SIZE as int)) {
                Err(e) => Err(e),
                Ok(x) => Ok(xs.push(x)),
            },
        }
    }
}

/// A failure of the pack-table decode at some prefix stands for the whole
/// table.
pub proof fn lemma_parse_animes_err(b: Seq<u8>, off: int, m: int, n: int)
    requires
        0 <= m <= n,
        spec_parse_animes(b, off, m) is Err,
    ensures
        spec_parse_animes(b, off, n) == spec_parse_animes(b, off, m),
    decreases n - m,
{
    if m < n {
        lemma_parse_animes_err(b, off, m, n - 1);
    }
}

/// Decodes `n` animation pack records starting at `off`.
pub fn parse_animes(b: &Vec<u8>, off: u32, n: u16) -> (r: Result<Vec<Anime>, DecodeError>)
    ensures
        match r {
            Ok(v) => spec_parse_animes(b@, off as int, n as int) == Ok::<Seq<AnimeV>, DecodeError>(
                v.deep_view(),
            ),
            Err(e) => spec_parse_animes(b@, off as int, n as int) == Err::<Seq<AnimeV>, DecodeError>(
                e,
            ),
        },
{
    let mut xs: Vec<Anime> = Vec::new();
    assert(xs.deep_view() =~= Seq::<AnimeV>::empty());
    let mut i: u16 = 0;
    while i < n
        invariant
            0 <= i <= n,
            spec_parse_animes(b@, off as int, i as int) == Ok::<Seq<AnimeV>, DecodeError>(
                xs.deep_view(),
            ),
        decreases n - i,
    {
        let eoff: u64 = (off as u64) + (i as u64) * ANIME_SIZE;
        match parse_anime(b, eoff) {
            Ok(x) => {
                let ghost xs0 = xs.deep_view();
                let ghost xv = x.deep_view();
                xs.push(x);
                assert(xs.deep_view() =~= xs0.push(xv));
            },
            Err(e) => {
                proof {
                    assert(spec_parse_animes(b@, off as int, i + 1) == Err::<
                        Seq<AnimeV>,
                        DecodeError,
                    >(e));
                    lemma_parse_animes_err(b@, off as int, i + 1, n as int);
                }
                return Err(e);
            },
        }
        i = i + 1;
    }
    Ok(xs)
}

/// The first `n` effect records at `off`, decoded in order.
pub open spec fn spec_parse_effects(b: Seq<u8>, off: int, n: int) -> Result<
    Seq<EffectV>,
    DecodeError,
>
    decreases n,
{
    if n <= 0 {
        Ok(Seq::<EffectV>::empty())
    } else {
        match spec_parse_effects(b, off, n - 1) {
            Err(e) => Err(e),
            Ok(xs) => match spec_parse_effect(b, off + (n - 1) * (EFFECT_SIZE as int)) {
                Err(e) => Err(e),
                Ok(x) => Ok(xs.push(x)),
            },
        }
    }
}

/// A failure of the effect-table decode at some prefix stands for the
/// whole table.
pub proof fn lemma_parse_effects_err(b: Seq<u8>, off: int, m: int, n: int)
    requires
        0 <= m <= n,
        spec_parse_effects(b, off, m) is Err,
    ensures
        spec_parse_effects(b, off, n) == spec_parse_effects(b, off, m),
    decreases n - m,
{
    if m < n {
        lemma_parse_effects_err(b, off, m, n - 1);
    }
}

/// Decodes `n` effect records starting at `off`.
pub fn parse_effects(b: &Vec<u8>, off: u32, n: u16) -> (r: Result<Vec<Effect>, DecodeError>)
    ensures
        match r {
            Ok(v) => spec_parse_effects(b@, off as int, n as int) == Ok::<
                Seq<EffectV>,
                DecodeError,
            >(v.deep_view()),
            Err(e) => spec_parse_effects(b@, off as int, n as int) == Err::<
                Seq<EffectV>,
                DecodeError,
            >(e),
        },
{
    let mut xs: Vec<Effect> = Vec::new();
    assert(xs.deep_view() =~= Seq::<EffectV>::empty());
    let mut i: u16 = 0;
    while i < n
        invariant
            0 <= i <= n,
            spec_parse_effects(b@, off as int, i as int) == Ok::<Seq<EffectV>, DecodeError>(
                xs.deep_view(),
            ),
        decreases n - i,
    {
        let eoff: u64 = (off as u64) + (i as u64) * EFFECT_SIZE;
        match parse_effect(b, eoff) {
            Ok(x) => {
                let ghost xs0 = xs.deep_view();
                let ghost xv = x.deep_view();
                xs.push(x);
                assert(xs.deep_view() =~= xs0.push(xv));
            },
            Err(e) => {
                proof {
                    assert(spec_parse_effects(b@, off as int, i + 1) == Err::<
                        Seq<EffectV>,
                        DecodeError,
                    >(e));
                    lemma_parse_effects_err(b@, off as int, i + 1, n as int);
                }
                return Err(e);
            },
        }
        i = i + 1;
    }
    Ok(xs)
}

/// The whole in-memory model of one decoded buffer.
#[derive(Debug)]
pub struct SsProject {
    pub header: ProjectHeader,
    pub cells: Vec<Cell>,
    pub lookup: Vec<CellLookup>,
    pub animes: Vec<Anime>,
    pub effects: Vec<Effect>,
}

/// The mathematical value of a decoded project.
pub struct SsProjectV {
    pub header: ProjectHeaderV,
    pub cells: Seq<CellV>,
    pub lookup: Seq<CellLookupV>,
    pub animes: Seq<AnimeV>,
    pub effects: Seq<EffectV>,
}

impl DeepView for SsProject {
    type V = SsProjectV;

    open spec fn deep_view(&self) -> SsProjectV {
        SsProjectV {
            header: self.header.deep_view(),
            cells: self.cells.deep_view(),
            lookup: self.lookup.deep_view(),
            animes: self.animes.deep_view(),
            effects: self.effects.deep_view(),
        }
    }
}

/// The whole buffer decoded: the header, the cell table grouped by owning
/// atlas with its secondary index, the animation packs, and the effect
/// packs.
pub open spec fn spec_decode_project(b: Seq<u8>) -> Result<SsProjectV, DecodeError> {
    match spec_parse_header(b) {
        Err(e) => Err(e),
        Ok(h) => match spec_decode_cells(b, h.cell.offset as int, h.num_cells as int) {
            Err(e) => Err(e),
            Ok(cl) => match spec_parse_animes(
                b,
                h.anime_pack_data.offset as int,
                h.num_anime_packs as int,
            ) {
                Err(e) => Err(e),
                Ok(animes) => match spec_parse_effects(
                    b,
                    h.effect_file.offset as int,
                    h.num_effect_file_list as int,
                ) {
                    Err(e) => Err(e),
                    Ok(effects) => Ok(
                        SsProjectV { header: h, cells: cl.0, lookup: cl.1, animes, effects },
                    ),
                },
            },
        },
    }
}

/// Decodes one whole buffer into the in-memory model.
pub fn decode_project(b: &Vec<u8>) -> (r: Result<SsProject, DecodeError>)
    ensures
        match r {
            Ok(v) => spec_decode_project(b@) == Ok::<SsProjectV, DecodeError>(v.deep_view()),
            Err(e) => spec_decode_project(b@) == Err::<SsProjectV, DecodeError>(e),
        },
{
    let header = match parse_header(b) {
        Ok(v) => v,
        Err(e) => {
            return Err(e);
        },
    };
    let (cells, lookup) = match decode_cells(b, header.cell.offset, header.num_cells) {
        Ok(v) => v,
        Err(e) => {
            return Err(e);
        },
    };
    let animes = match parse_animes(b, header.anime_pack_data.offset, header.num_anime_packs) {
        Ok(v) => v,
        Err(e) => {
            return Err(e);
        },
    };
    let effects = match parse_effects(b, header.effect_file.offset, header.num_effect_file_list) {
        Ok(v) => v,
        Err(e) => {
            return Err(e);
        },
    };
    Ok(SsProject { header, cells, lookup, animes, effects })
}


/// The pixel size and re-encoded image name the texture collaborator
/// reported for one atlas's image path.
#[derive(Debug)]
pub struct ImageParams {
    pub name: Vec<u8>,
    pub width: u32,
    pub height: u32,
}

/// The mathematical value of one collaborator answer.
pub struct ImageParamsV {
    pub name: Seq<u8>,
    pub width: u32,
    pub height: u32,
}

impl DeepView for ImageParams {
    type V = ImageParamsV;

    open spec fn deep_view(&self) -> ImageParamsV {
        ImageParamsV { name: self.name@, width: self.width, height: self.height }
    }
}

/// One rendered document together with its logical file name.
#[derive(Debug)]
pub struct OutputDoc {
    pub file_name: Vec<u8>,
    pub chunks: Vec<Chunk>,
}

/// The mathematical value of one rendered document.
pub struct OutputDocV {
    pub file_name: Seq<u8>,
    pub chunks: Seq<ChunkV>,
}

impl DeepView for OutputDoc {
    type V = OutputDocV;

    open spec fn deep_view(&self) -> OutputDocV {
        OutputDocV { file_name: self.file_name@, chunks: self.chunks.deep_view() }
    }
}

/// `base` extended by the literal `suffix`.
fn append_suffix(base: &Vec<u8>, suffix: &str) -> (r: Vec<u8>)
    ensures
        r@ == base@ + suffix.spec_bytes(),
{
    let mut r = vstd::slice::slice_to_vec(base.as_slice());
    crate::xml::push_str_bytes(&mut r, suffix);
    assert(r@ =~= base@ + suffix.spec_bytes());
    r
}

/// The whole project document: the project's name and the file-name lists
/// of the atlas, animation pack and effect documents produced beside it,
/// amid the tool's fixed settings.
#[verifier::opaque]
pub open spec fn spec_project_doc(
    name: Seq<u8>,
    cell_names: Seq<Seq<u8>>,
    anime_names: Seq<Seq<u8>>,
    effect_names: Seq<Seq<u8>>,
) -> Seq<ChunkV> {
    let s1 = Seq::<ChunkV>::empty().push(tc("<?xml version=\"1.0\" encoding=\"utf-8\" standalone=\"yes\"?>\n<SpriteStudioProject version=\"2.00.00\"><name>")).push(ChunkV::Text(esc(name))).push(
        tc("</name><exportPath></exportPath><settings><animeBaseDirectory></animeBaseDirectory><cellMapBaseDirectory></cellMapBaseDirectory><imageBaseDirectory></imageBaseDirectory><effectBaseDirectory></effectBaseDirectory><exportBaseDirectory>Export</exportBaseDirectory><queryExportBaseDirectory>1</queryExportBaseDirectory><copyWhenImportImageIsOutside>1</copyWhenImportImageIsOutside><exportAnimeFileFormat>SSAX</exportAnimeFileFormat><exportCellMapFileFormat>invalid</exportCellMapFileFormat><exportCellMap>0</exportCellMap><copyImageWhenExportCellmap>1</copyImageWhenExportCellmap><ssConverterOptions></ssConverterOptions><player>any</player><signal></signal><strictVer4>0</strictVer4><dontUseMatrixForTransform>0</dontUseMatrixForTransform><rootPartFunctionAsVer4>0</rootPartFunctionAsVer4><interpolateColorBlendAsVer4>1</interpolateColorBlendAsVer4><interpolateVertexOffsetAsVer4>1</interpolateVertexOffsetAsVer4><restrictXYAsInteger>0</restrictXYAsInteger><inheritRatesNoKeySave>1</inheritRatesNoKeySave><availableInterpolationTypes><item>none</item><item>linear</item><item>hermite</item><item>bezier</item><item>acceleration</item><item>deceleration</item></availableInterpolationTypes><availableAttributes><item>CELL</item><item>POSX</item><item>POSY</item><item>POSZ</item><item>ROTX</item><item>ROTY</item><item>ROTZ</item><item>SCLX</item><item>SCLY</item><item>LSCX</item><item>LSCY</item><item>ALPH</item><item>LALP</item><item>PRIO</item><item>IFLH</item><item>IFLV</item><item>FLPH</item><item>FLPV</item><item>HIDE</item><item>PCOL</item><item>VCOL</item><item>VERT</item><item>PVTX</item><item>PVTY</item><item>ANCX</item><item>ANCY</item><item>SIZX</item><item>SIZY</item><item>UVTX</item><item>UVTY</item><item>UVRZ</item><item>UVSX</item><item>UVSY</item><item>BNDR</item><item>MASK</item><item>USER</item><item>IPRM</item><item>EFCT</item></availableAttributes><availableFeatures><value>bone</value><value>effect</value><value>mask</value><value>mesh</value></availableFeatures><defaultSetAttributes><item>POSX</item><item>POSY</item><item>ROTZ</item><item>PRIO</item><item>HIDE</item></defaultSetAttributes><wrapMode>clamp</wrapMode><filterMode>linear</filterMode><interpolateMode>linear</interpolateMode><coordUnit>rate</coordUnit><renderingSettings><outputFolder></outputFolder><outputType>AVI</outputType><bgColor>FF606060</bgColor><addAnimeName>0</addAnimeName><addTimeStamp>0</addTimeStamp><addAlphaChannel>1</addAlphaChannel><imageSizeRatioW>100</imageSizeRatioW><imageSizeRatioH>100</imageSizeRatioH><imageSizeRatioFix>1</imageSizeRatioFix><imageSizeIsPixcel>1</imageSizeIsPixcel><imageSizeExpansion0>0</imageSizeExpansion0><imageSizeExpansion1>0</imageSizeExpansion1><imageSizeExpansion2>0</imageSizeExpansion2><imageSizeExpansion3>0</imageSizeExpansion3><webpSettings><lossyType>lossless</lossyType><qualityFactor>75</qualityFactor><compMethod>4</compMethod><useLosslessPreset>1</useLosslessPreset><losslessPreset>0</losslessPreset></webpSettings></renderingSettings><effectSettings><gridSize>50</gridSize></effectSettings><cellTags/><useDecimalDigit>2</useDecimalDigit><opacifyOutsideCanvasFrame>1</opacifyOutsideCanvasFrame><convertImageToPMA>0</convertImageToPMA><blendImageAsPMA>0</blendImageAsPMA><unpremultiplyAlpha>0</unpremultiplyAlpha><vertexAnimeFloat>0</vertexAnimeFloat><allowNPOT>0</allowNPOT><maxLoadableImageWidth>8192</maxLoadableImageWidth><maxLoadableImageHeight>8192</maxLoadableImageHeight><maxLoadableImageFileSize>73400320</maxLoadableImageFileSize><instanceStackMax>100</instanceStackMax><selectedAttrSelPreset>0</selectedAttrSelPreset><attrSelPresetNameA></attrSelPresetNameA><attrSelPresetA/><attrSelPresetNameB></attrSelPresetNameB><attrSelPresetB/><attrSelPresetNameC></attrSelPresetNameC><attrSelPresetC/><attrSelPresetNameD></attrSelPresetNameD><attrSelPresetD/><attrSelPresetNameE></attrSelPresetNameE><attrSelPresetE/><attrSelPresetNameF></attrSelPresetNameF><attrSelPresetF/><attrSelPresetNameG></attrSelPresetNameG><attrSelPresetG/><attrSelPresetNameH></attrSelPresetNameH><attrSelPresetH/><attrSelPresetNameI></attrSelPresetNameI><attrSelPresetI/><attrSelPresetNameJ></attrSelPresetNameJ><attrSelPresetJ/></settings><animeSettings><fps>30</fps><frameCount>11</frameCount><sortMode>prio</sortMode><canvasSize>320 320</canvasSize><pivot>0 0</pivot><bgColor>FF323232</bgColor><gridSize>32</gridSize><gridColor>FF808080</gridColor><ik_depth>3</ik_depth><startFrame>0</startFrame><endFrame>10</endFrame><bgSettings><value><imagePath></imagePath><imageDisp>1</imageDisp><imageOffset>0 0</imageOffset><imageCanvas>0 0</imageCanvas><imagePivot>0 0</imagePivot></value><value><imagePath></imagePath><imageDisp>1</imageDisp><imageOffset>0 0</imageOffset><imageCanvas>0 0</imageCanvas><imagePivot>0 0</imagePivot></value></bgSettings><outStartNum>0</outStartNum></animeSettings><texPackSettings><maxSize>4096 4096</maxSize><forcePo2>1</forcePo2><forceSquare>0</forceSquare><margin>0</margin><padding>1</padding></texPackSettings>"),
    );
    let s2 = name_list_chunks(s1, "cellmapNames", cell_names);
    let s3 = name_list_chunks(s2, "animepackNames", anime_names);
    let s4 = name_list_chunks(s3, "effectFileNames", effect_names);
    s4.push(tc("<lastAnimeFile></lastAnimeFile><lastAnimeName></lastAnimeName><lastPart></lastPart><lastCellMapFile></lastCellMapFile><lastCell></lastCell><lastEffectMode></lastEffectMode><setupmode>0</setupmode><expandAnimation/><expandSequence/></SpriteStudioProject>"))
}

impl ProjectHeader {
    /// Renders the project document, given the project's name and the
    /// file-name lists of the documents produced beside it.
    pub fn to_xml(
        &self,
        name: &Vec<u8>,
        cell_names: &Vec<Vec<u8>>,
        anime_names: &Vec<Vec<u8>>,
        effect_names: &Vec<Vec<u8>>,
    ) -> (r: Vec<Chunk>)
        ensures
            r.deep_view() == spec_project_doc(
                name@,
                cell_names.deep_view(),
                anime_names.deep_view(),
                effect_names.deep_view(),
            ),
    {
        proof {
            reveal(spec_project_doc);
        }
        let mut doc: Vec<Chunk> = Vec::new();
        assert(doc.deep_view() =~= Seq::<ChunkV>::empty());
        push_text(&mut doc, "<?xml version=\"1.0\" encoding=\"utf-8\" standalone=\"yes\"?>\n<SpriteStudioProject version=\"2.00.00\"><name>");
        push_esc(&mut doc, name);
        push_text(&mut doc, "</name><exportPath></exportPath><settings><animeBaseDirectory></animeBaseDirectory><cellMapBaseDirectory></cellMapBaseDirectory><imageBaseDirectory></imageBaseDirectory><effectBaseDirectory></effectBaseDirectory><exportBaseDirectory>Export</exportBaseDirectory><queryExportBaseDirectory>1</queryExportBaseDirectory><copyWhenImportImageIsOutside>1</copyWhenImportImageIsOutside><exportAnimeFileFormat>SSAX</exportAnimeFileFormat><exportCellMapFileFormat>invalid</exportCellMapFileFormat><exportCellMap>0</exportCellMap><copyImageWhenExportCellmap>1</copyImageWhenExportCellmap><ssConverterOptions></ssConverterOptions><player>any</player><signal></signal><strictVer4>0</strictVer4><dontUseMatrixForTransform>0</dontUseMatrixForTransform><rootPartFunctionAsVer4>0</rootPartFunctionAsVer4><interpolateColorBlendAsVer4>1</interpolateColorBlendAsVer4><interpolateVertexOffsetAsVer4>1</interpolateVertexOffsetAsVer4><restrictXYAsInteger>0</restrictXYAsInteger><inheritRatesNoKeySave>1</inheritRatesNoKeySave><availableInterpolationTypes><item>none</item><item>linear</item><item>hermite</item><item>bezier</item><item>acceleration</item><item>deceleration</item></availableInterpolationTypes><availableAttributes><item>CELL</item><item>POSX</item><item>POSY</item><item>POSZ</item><item>ROTX</item><item>ROTY</item><item>ROTZ</item><item>SCLX</item><item>SCLY</item><item>LSCX</item><item>LSCY</item><item>ALPH</item><item>LALP</item><item>PRIO</item><item>IFLH</item><item>IFLV</item><item>FLPH</item><item>FLPV</item><item>HIDE</item><item>PCOL</item><item>VCOL</item><item>VERT</item><item>PVTX</item><item>PVTY</item><item>ANCX</item><item>ANCY</item><item>SIZX</item><item>SIZY</item><item>UVTX</item><item>UVTY</item><item>UVRZ</item><item>UVSX</item><item>UVSY</item><item>BNDR</item><item>MASK</item><item>USER</item><item>IPRM</item><item>EFCT</item></availableAttributes><availableFeatures><value>bone</value><value>effect</value><value>mask</value><value>mesh</value></availableFeatures><defaultSetAttributes><item>POSX</item><item>POSY</item><item>ROTZ</item><item>PRIO</item><item>HIDE</item></defaultSetAttributes><wrapMode>clamp</wrapMode><filterMode>linear</filterMode><interpolateMode>linear</interpolateMode><coordUnit>rate</coordUnit><renderingSettings><outputFolder></outputFolder><outputType>AVI</outputType><bgColor>FF606060</bgColor><addAnimeName>0</addAnimeName><addTimeStamp>0</addTimeStamp><addAlphaChannel>1</addAlphaChannel><imageSizeRatioW>100</imageSizeRatioW><imageSizeRatioH>100</imageSizeRatioH><imageSizeRatioFix>1</imageSizeRatioFix><imageSizeIsPixcel>1</imageSizeIsPixcel><imageSizeExpansion0>0</imageSizeExpansion0><imageSizeExpansion1>0</imageSizeExpansion1><imageSizeExpansion2>0</imageSizeExpansion2><imageSizeExpansion3>0</imageSizeExpansion3><webpSettings><lossyType>lossless</lossyType><qualityFactor>75</qualityFactor><compMethod>4</compMethod><useLosslessPreset>1</useLosslessPreset><losslessPreset>0</losslessPreset></webpSettings></renderingSettings><effectSettings><gridSize>50</gridSize></effectSettings><cellTags/><useDecimalDigit>2</useDecimalDigit><opacifyOutsideCanvasFrame>1</opacifyOutsideCanvasFrame><convertImageToPMA>0</convertImageToPMA><blendImageAsPMA>0</blendImageAsPMA><unpremultiplyAlpha>0</unpremultiplyAlpha><vertexAnimeFloat>0</vertexAnimeFloat><allowNPOT>0</allowNPOT><maxLoadableImageWidth>8192</maxLoadableImageWidth><maxLoadableImageHeight>8192</maxLoadableImageHeight><maxLoadableImageFileSize>73400320</maxLoadableImageFileSize><instanceStackMax>100</instanceStackMax><selectedAttrSelPreset>0</selectedAttrSelPreset><attrSelPresetNameA></attrSelPresetNameA><attrSelPresetA/><attrSelPresetNameB></attrSelPresetNameB><attrSelPresetB/><attrSelPresetNameC></attrSelPresetNameC><attrSelPresetC/><attrSelPresetNameD></attrSelPresetNameD><attrSelPresetD/><attrSelPresetNameE></attrSelPresetNameE><attrSelPresetE/><attrSelPresetNameF></attrSelPresetNameF><attrSelPresetF/><attrSelPresetNameG></attrSelPresetNameG><attrSelPresetG/><attrSelPresetNameH></attrSelPresetNameH><attrSelPresetH/><attrSelPresetNameI></attrSelPresetNameI><attrSelPresetI/><attrSelPresetNameJ></attrSelPresetNameJ><attrSelPresetJ/></settings><animeSettings><fps>30</fps><frameCount>11</frameCount><sortMode>prio</sortMode><canvasSize>320 320</canvasSize><pivot>0 0</pivot><bgColor>FF323232</bgColor><gridSize>32</gridSize><gridColor>FF808080</gridColor><ik_depth>3</ik_depth><startFrame>0</startFrame><endFrame>10</endFrame><bgSettings><value><imagePath></imagePath><imageDisp>1</imageDisp><imageOffset>0 0</imageOffset><imageCanvas>0 0</imageCanvas><imagePivot>0 0</imagePivot></value><value><imagePath></imagePath><imageDisp>1</imageDisp><imageOffset>0 0</imageOffset><imageCanvas>0 0</imageCanvas><imagePivot>0 0</imagePivot></value></bgSettings><outStartNum>0</outStartNum></animeSettings><texPackSettings><maxSize>4096 4096</maxSize><forcePo2>1</forcePo2><forceSquare>0</forceSquare><margin>0</margin><padding>1</padding></texPackSettings>");
        create_name_list(&mut doc, "cellmapNames", cell_names);
        create_name_list(&mut doc, "animepackNames", anime_names);
        create_name_list(&mut doc, "effectFileNames", effect_names);
        push_text(&mut doc, "<lastAnimeFile></lastAnimeFile><lastAnimeName></lastAnimeName><lastPart></lastPart><lastCellMapFile></lastCellMapFile><lastCell></lastCell><lastEffectMode></lastEffectMode><setupmode>0</setupmode><expandAnimation/><expandSequence/></SpriteStudioProject>");
        doc
    }
}


/// The atlas documents and their file names after walking map-index slots
/// 0 to `m`-1 in order: one document per slot owned by an aggregate, its
/// file name the atlas's name with the atlas suffix, its pixel data drawn
/// from the collaborator answer of the owning aggregate's position.
pub open spec fn spec_atlas_stage(
    docs: Seq<OutputDocV>,
    names: Seq<Seq<u8>>,
    p: SsProjectV,
    images: Seq<ImageParamsV>,
    m: int,
) -> (Seq<OutputDocV>, Seq<Seq<u8>>)
    decreases m,
{
    if m <= 0 {
        (docs, names)
    } else {
        let prev = spec_atlas_stage(docs, names, p, images, m - 1);
        match spec_find_cell(p.cells, (m - 1) as u16) {
            None => prev,
            Some(j) => {
                let file = p.cells[j].data.name + ".ssce".spec_bytes();
                (
                    prev.0.push(
                        OutputDocV {
                            file_name: file,
                            chunks: spec_cellmap_doc(
                                p.cells[j],
                                images[j].name,
                                images[j].width,
                                images[j].height,
                            ),
                        },
                    ),
                    prev.1.push(file),
                )
            },
        }
    }
}

/// The decoded track sets of the first `n` clips of pack `a`.
pub open spec fn spec_pack_tracks(b: Seq<u8>, a: AnimeV, lookup: Seq<CellLookupV>, n: int) -> Result<
    Seq<Seq<AttributeWriterV>>,
    DecodeError,
>
    decreases n,
{
    if n <= 0 {
        Ok(Seq::<Seq<AttributeWriterV>>::empty())
    } else {
        match spec_pack_tracks(b, a, lookup, n - 1) {
            Err(e) => Err(e),
            Ok(ts) => match spec_decode_entry_tracks(b, a, a.anims[n - 1], lookup) {
                Err(e) => Err(e),
                Ok(t) => Ok(ts.push(t)),
            },
        }
    }
}

/// A failure of the clip-track decode at some prefix stands for the whole
/// pack.
pub proof fn lemma_pack_tracks_err(
    b: Seq<u8>,
    a: AnimeV,
    lookup: Seq<CellLookupV>,
    m: int,
    n: int,
)
    requires
        0 <= m <= n,
        spec_pack_tracks(b, a, lookup, m) is Err,
    ensures
        spec_pack_tracks(b, a, lookup, n) == spec_pack_tracks(b, a, lookup, m),
    decreases n - m,
{
    if m < n {
        lemma_pack_tracks_err(b, a, lookup, m, n - 1);
    }
}

/// An accepted clip-track decode yields one track set per clip.
pub proof fn lemma_pack_tracks_len(b: Seq<u8>, a: AnimeV, lookup: Seq<CellLookupV>, n: int)
    requires
        0 <= n,
        spec_pack_tracks(b, a, lookup, n) is Ok,
    ensures
        spec_pack_tracks(b, a, lookup, n)->Ok_0.len() == n,
    decreases n,
{
    if n > 0 {
        lemma_pack_tracks_len(b, a, lookup, n - 1);
    }
}

/// Decodes the track sets of every clip of pack `a`.
pub fn decode_pack_tracks(b: &Vec<u8>, a: &Anime, lookup: &Vec<CellLookup>) -> (r: Result<
    Vec<Vec<AttributeWriter>>,
    DecodeError,
>)
    ensures
        match r {
            Ok(v) => spec_pack_tracks(
                b@,
                a.deep_view(),
                lookup.deep_view(),
                a.anims@.len() as int,
            ) == Ok::<Seq<Seq<AttributeWriterV>>, DecodeError>(v.deep_view()) && v@.len()
                == a.anims@.len(),
            Err(e) => spec_pack_tracks(
                b@,
                a.deep_view(),
                lookup.deep_view(),
                a.anims@.len() as int,
            ) == Err::<Seq<Seq<AttributeWriterV>>, DecodeError>(e),
        },
{
    let ghost av = a.deep_view();
    let ghost lv = lookup.deep_view();
    let n = a.anims.len();
    let mut ts: Vec<Vec<AttributeWriter>> = Vec::new();
    assert(ts.deep_view() =~= Seq::<Seq<AttributeWriterV>>::empty());
    let mut i: usize = 0;
    while i < n
        invariant
            0 <= i <= n,
            n == a.anims@.len(),
            av == a.deep_view(),
            lv == lookup.deep_view(),
            ts@.len() == i,
            spec_pack_tracks(b@, av, lv, i as int) == Ok::<
                Seq<Seq<AttributeWriterV>>,
                DecodeError,
            >(ts.deep_view()),
        decreases n - i,
    {
        match decode_entry_tracks(b, a, &a.anims[i], lookup) {
            Ok(t) => {
                let ghost ts0 = ts.deep_view();
                let ghost tv = t.deep_view();
                ts.push(t);
                assert(ts.deep_view() =~= ts0.push(tv));
            },
            Err(e) => {
                proof {
                    assert(spec_pack_tracks(b@, av, lv, i + 1) == Err::<
                        Seq<Seq<AttributeWriterV>>,
                        DecodeError,
                    >(e));
                    lemma_pack_tracks_err(b@, av, lv, i + 1, n as int);
                }
                return Err(e);
            },
        }
        i = i + 1;
    }
    Ok(ts)
}

/// The animation pack documents and their file names after the first `m`
/// packs, each rendered from its decoded tracks and the atlas file-name
/// list; or the first error among them.
pub open spec fn spec_anime_stage(
    b: Seq<u8>,
    docs: Seq<OutputDocV>,
    names: Seq<Seq<u8>>,
    p: SsProjectV,
    cell_names: Seq<Seq<u8>>,
    m: int,
) -> Result<(Seq<OutputDocV>, Seq<Seq<u8>>), DecodeError>
    decreases m,
{
    if m <= 0 {
        Ok((docs, names))
    } else {
        match spec_anime_stage(b, docs, names, p, cell_names, m - 1) {
            Err(e) => Err(e),
            Ok(prev) => {
                let a = p.animes[m - 1];
                match spec_pack_tracks(b, a, p.lookup, a.anims.len() as int) {
                    Err(e) => Err(e),
                    Ok(tr) => match spec_anime_pack_doc(a, cell_names, tr) {
                        Err(e) => Err(e),
                        Ok(chunks) => {
                            let file = a.name + ".ssae".spec_bytes();
                            Ok((prev.0.push(OutputDocV { file_name: file, chunks }), prev.1.push(file)))
                        },
                    },
                }
            },
        }
    }
}

/// A failure of the pack stage at some prefix stands for the whole stage.
pub proof fn lemma_anime_stage_err(
    b: Seq<u8>,
    docs: Seq<OutputDocV>,
    names: Seq<Seq<u8>>,
    p: SsProjectV,
    cell_names: Seq<Seq<u8>>,
    m: int,
    n: int,
)
    requires
        0 <= m <= n,
        spec_anime_stage(b, docs, names, p, cell_names, m) is Err,
    ensures
        spec_anime_stage(b, docs, names, p, cell_names, n) == spec_anime_stage(
            b,
            docs,
            names,
            p,
            cell_names,
            m,
        ),
    decreases n - m,
{
    if m < n {
        lemma_anime_stage_err(b, docs, names, p, cell_names, m, n - 1);
    }
}

/// Every document of one buffer's conversion, in the order they are
/// produced: one atlas document per owned map-index slot, one document per
/// animation pack, and last the project document, whose name lists hold
/// exactly the file names of the documents before it; or the first decode
/// error met along the way.
pub open spec fn spec_render_documents(
    b: Seq<u8>,
    p: SsProjectV,
    name: Seq<u8>,
    images: Seq<ImageParamsV>,
) -> Result<Seq<OutputDocV>, DecodeError> {
    let at = spec_atlas_stage(
        Seq::<OutputDocV>::empty(),
        Seq::<Seq<u8>>::empty(),
        p,
        images,
        p.cells.len() as int,
    );
    match spec_anime_stage(b, at.0, Seq::<Seq<u8>>::empty(), p, at.1, p.animes.len() as int) {
        Err(e) => Err(e),
        Ok(an) => Ok(
            an.0.push(
                OutputDocV {
                    file_name: name + ".sspj".spec_bytes(),
                    chunks: spec_project_doc(name, at.1, an.1, Seq::<Seq<u8>>::empty()),
                },
            ),
        ),
    }
}

/// Renders every document of one decoded buffer: the atlas documents in
/// map-index order, the animation pack documents in table order, and the
/// project document listing exactly the file names produced, in the same
/// order.  `images` holds the texture collaborator's answer for each
/// aggregate, in aggregate order.
pub fn render_documents(
    b: &Vec<u8>,
    project: &SsProject,
    name: &Vec<u8>,
    images: &Vec<ImageParams>,
) -> (r: Result<Vec<OutputDoc>, DecodeError>)
    requires
        images@.len() == project.cells@.len(),
        project.cells@.len() <= 0x10000,
    ensures
        match r {
            Ok(v) => spec_render_documents(b@, project.deep_view(), name@, images.deep_view())
                == Ok::<Seq<OutputDocV>, DecodeError>(v.deep_view()),
            Err(e) => spec_render_documents(b@, project.deep_view(), name@, images.deep_view())
                == Err::<Seq<OutputDocV>, DecodeError>(e),
        },
{
    let ghost pv = project.deep_view();
    let ghost iv = images.deep_view();
    let mut docs: Vec<OutputDoc> = Vec::new();
    let mut cell_names: Vec<Vec<u8>> = Vec::new();
    assert(docs.deep_view() =~= Seq::<OutputDocV>::empty());
    assert(cell_names.deep_view() =~= Seq::<Seq<u8>>::empty());
    let k = project.cells.len();
    let mut m: usize = 0;
    while m < k
        invariant
            0 <= m <= k,
            k == project.cells@.len(),
            k <= 0x10000,
            pv == project.deep_view(),
            iv == images.deep_view(),
            iv.len() == k,
            images@.len() == k,
            (docs.deep_view(), cell_names.deep_view()) == spec_atlas_stage(
                Seq::<OutputDocV>::empty(),
                Seq::<Seq<u8>>::empty(),
                pv,
                iv,
                m as int,
            ),
        decreases k - m,
    {
        match crate::cell::find_cell_by_index(&project.cells, m as u16) {
            None => {},
            Some(j) => {
                let img = &images[j];
                let chunks = project.cells[j].to_xml(&img.name, img.width, img.height);
                let file = append_suffix(&project.cells[j].data.name, ".ssce");
                let file2 = vstd::slice::slice_to_vec(file.as_slice());
                let ghost d0 = docs.deep_view();
                let ghost n0 = cell_names.deep_view();
                let ghost fv = file@;
                docs.push(OutputDoc { file_name: file, chunks });
                cell_names.push(file2);
                assert(docs.deep_view() =~= d0.push(
                    OutputDocV {
                        file_name: pv.cells[j as int].data.name + ".ssce".spec_bytes(),
                        chunks: spec_cellmap_doc(
                            pv.cells[j as int],
                            iv[j as int].name,
                            iv[j as int].width,
                            iv[j as int].height,
                        ),
                    },
                ));
                assert(cell_names.deep_view() =~~= n0.push(
                    pv.cells[j as int].data.name + ".ssce".spec_bytes(),
                ));
            },
        }
        m = m + 1;
    }
    let mut anime_names: Vec<Vec<u8>> = Vec::new();
    assert(anime_names.deep_view() =~= Seq::<Seq<u8>>::empty());
    let ghost at_docs = docs.deep_view();
    let ghost cn = cell_names.deep_view();
    let na = project.animes.len();
    let mut i: usize = 0;
    while i < na
        invariant
            0 <= i <= na,
            na == project.animes@.len(),
            pv == project.deep_view(),
            cn == cell_names.deep_view(),
            at_docs == spec_atlas_stage(
                Seq::<OutputDocV>::empty(),
                Seq::<Seq<u8>>::empty(),
                pv,
                iv,
                pv.cells.len() as int,
            ).0,
            cn == spec_atlas_stage(
                Seq::<OutputDocV>::empty(),
                Seq::<Seq<u8>>::empty(),
                pv,
                iv,
                pv.cells.len() as int,
            ).1,
            iv == images.deep_view(),
            pv.cells.len() == project.cells@.len(),
            spec_anime_stage(b@, at_docs, Seq::<Seq<u8>>::empty(), pv, cn, i as int) == Ok::<
                (Seq<OutputDocV>, Seq<Seq<u8>>),
                DecodeError,
            >((docs.deep_view(), anime_names.deep_view())),
        decreases na - i,
    {
        let a = &project.animes[i];
        let tracks = match decode_pack_tracks(b, a, &project.lookup) {
            Ok(v) => v,
            Err(e) => {
                proof {
                    assert(spec_anime_stage(b@, at_docs, Seq::<Seq<u8>>::empty(), pv, cn, i + 1)
                        == Err::<(Seq<OutputDocV>, Seq<Seq<u8>>), DecodeError>(e));
                    lemma_anime_stage_err(
                        b@,
                        at_docs,
                        Seq::<Seq<u8>>::empty(),
                        pv,
                        cn,
                        i + 1,
                        na as int,
                    );
                }
                return Err(e);
            },
        };
        let chunks = match a.to_xml(&cell_names, &tracks) {
            Ok(v) => v,
            Err(e) => {
                proof {
                    assert(spec_anime_stage(b@, at_docs, Seq::<Seq<u8>>::empty(), pv, cn, i + 1)
                        == Err::<(Seq<OutputDocV>, Seq<Seq<u8>>), DecodeError>(e));
                    lemma_anime_stage_err(
                        b@,
                        at_docs,
                        Seq::<Seq<u8>>::empty(),
                        pv,
                        cn,
                        i + 1,
                        na as int,
                    );
                }
                return Err(e);
            },
        };
        let file = append_suffix(&a.name, ".ssae");
        let file2 = vstd::slice::slice_to_vec(file.as_slice());
        let ghost d0 = docs.deep_view();
        let ghost n0 = anime_names.deep_view();
        docs.push(OutputDoc { file_name: file, chunks });
        anime_names.push(file2);
        assert(docs.deep_view() =~= d0.push(
            OutputDocV {
                file_name: pv.animes[i as int].name + ".ssae".spec_bytes(),
                chunks: spec_anime_pack_doc(
                    pv.animes[i as int],
                    cn,
                    spec_pack_tracks(
                        b@,
                        pv.animes[i as int],
                        pv.lookup,
                        pv.animes[i as int].anims.len() as int,
                    )->Ok_0,
                )->Ok_0,
            },
        ));
        assert(anime_names.deep_view() =~~= n0.push(
            pv.animes[i as int].name + ".ssae".spec_bytes(),
        ));
        i = i + 1;
    }
    let effect_names: Vec<Vec<u8>> = Vec::new();
    assert(effect_names.deep_view() =~= Seq::<Seq<u8>>::empty());
    let proj = project.header.to_xml(name, &cell_names, &anime_names, &effect_names);
    let file = append_suffix(name, ".sspj");
    let ghost d0 = docs.deep_view();
    docs.push(OutputDoc { file_name: file, chunks: proj });
    assert(docs.deep_view() =~= d0.push(
        OutputDocV {
            file_name: name@ + ".sspj".spec_bytes(),
            chunks: spec_project_doc(
                name@,
                cn,
                anime_names.deep_view(),
                Seq::<Seq<u8>>::empty(),
            ),
        },
    ));
    Ok(docs)
}


/// Decoding is deterministic: one buffer, one project name and one set of
/// collaborator answers give one document list, byte for byte, on every
/// run.
pub proof fn lemma_conversion_deterministic(
    b1: Seq<u8>,
    b2: Seq<u8>,
    name1: Seq<u8>,
    name2: Seq<u8>,
    images1: Seq<ImageParamsV>,
    images2: Seq<ImageParamsV>,
)
    requires
        b1 == b2,
        name1 == name2,
        images1 == images2,
    ensures
        spec_decode_project(b1) == spec_decode_project(b2),
        spec_decode_project(b1) matches Ok(p) ==> spec_render_documents(b1, p, name1, images1)
            == spec_render_documents(b2, p, name2, images2),
{
}


/// The atlas stage pairs its file-name list with its documents one for
/// one, in order.
proof fn lemma_atlas_stage_names(
    docs: Seq<OutputDocV>,
    names: Seq<Seq<u8>>,
    p: SsProjectV,
    images: Seq<ImageParamsV>,
    m: int,
)
    requires
        docs.len() == names.len(),
        forall|i: int| 0 <= i < docs.len() ==> #[trigger] docs[i].file_name == names[i],
    ensures
        ({
            let r = spec_atlas_stage(docs, names, p, images, m);
            &&& r.0.len() == r.1.len()
            &&& forall|i: int| 0 <= i < r.0.len() ==> #[trigger] r.0[i].file_name == r.1[i]
        }),
    decreases m,
{
    if m > 0 {
        lemma_atlas_stage_names(docs, names, p, images, m - 1);
    }
}

/// The pack stage extends the document list and its own file-name list in
/// step, leaving the documents before it untouched.
proof fn lemma_anime_stage_names(
    b: Seq<u8>,
    docs: Seq<OutputDocV>,
    names: Seq<Seq<u8>>,
    p: SsProjectV,
    cell_names: Seq<Seq<u8>>,
    m: int,
)
    requires
        0 <= m,
        docs.len() >= 0,
        spec_anime_stage(b, docs, names, p, cell_names, m) is Ok,
    ensures
        ({
            let r = spec_anime_stage(b, docs, names, p, cell_names, m)->Ok_0;
            &&& r.0.len() - docs.len() == r.1.len() - names.len()
            &&& r.1.len() >= names.len()
            &&& forall|i: int| 0 <= i < docs.len() ==> #[trigger] r.0[i] == docs[i]
            &&& forall|i: int|
                0 <= i < r.1.len() - names.len() ==> #[trigger] r.0[docs.len() + i].file_name
                    == r.1[names.len() + i]
            &&& forall|i: int| 0 <= i < names.len() ==> #[trigger] r.1[i] == names[i]
        }),
    decreases m,
{
    if m > 0 {
        lemma_anime_stage_names(b, docs, names, p, cell_names, m - 1);
    }
}

/// The output's referential contract: every name list names exactly the
/// documents produced, in the same order.  The atlas file-name list names
/// the atlas documents, the pack list the pack documents after them, the
/// project document stands last holding both lists, and the effect list is
/// empty since no effect document is produced.
pub proof fn lemma_output_referential(
    b: Seq<u8>,
    p: SsProjectV,
    name: Seq<u8>,
    images: Seq<ImageParamsV>,
)
    requires
        spec_render_documents(b, p, name, images) is Ok,
    ensures
        ({
            let docs = spec_render_documents(b, p, name, images)->Ok_0;
            let at = spec_atlas_stage(
                Seq::<OutputDocV>::empty(),
                Seq::<Seq<u8>>::empty(),
                p,
                images,
                p.cells.len() as int,
            );
            let an = spec_anime_stage(
                b,
                at.0,
                Seq::<Seq<u8>>::empty(),
                p,
                at.1,
                p.animes.len() as int,
            )->Ok_0;
            &&& docs.len() == at.1.len() + an.1.len() + 1
            &&& forall|i: int| 0 <= i < at.1.len() ==> #[trigger] docs[i].file_name == at.1[i]
            &&& forall|i: int|
                0 <= i < an.1.len() ==> #[trigger] docs[at.1.len() + i].file_name == an.1[i]
            &&& docs.last().chunks == spec_project_doc(name, at.1, an.1, Seq::<Seq<u8>>::empty())
            &&& docs.last().file_name == name + ".sspj".spec_bytes()
        }),
{
    let at = spec_atlas_stage(
        Seq::<OutputDocV>::empty(),
        Seq::<Seq<u8>>::empty(),
        p,
        images,
        p.cells.len() as int,
    );
    lemma_atlas_stage_names(
        Seq::<OutputDocV>::empty(),
        Seq::<Seq<u8>>::empty(),
        p,
        images,
        p.cells.len() as int,
    );
    lemma_anime_stage_names(
        b,
        at.0,
        Seq::<Seq<u8>>::empty(),
        p,
        at.1,
        p.animes.len() as int,
    );
}

} // verus!

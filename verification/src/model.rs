use crate::byte_reader::be_u16_at;
use crate::byte_reader::be_u32_at;
use crate::byte_reader::be_i16_at;
use crate::byte_reader::read_i16_be;
use crate::byte_reader::read_u16_be;
use crate::byte_reader::read_u32_be;
use crate::byte_reader::read_u8;
use crate::byte_reader::read_word8;
use crate::display_list::spec_command_ok;
use crate::display_list::DisplayList;
use crate::display_list::DisplayListCommand;
use crate::errors::Error;
use crate::geo_type::spec_geo_type;
use crate::geo_type::GeoType;
use crate::render::dec_chars;
use crate::render::push_dec_u64;
use crate::texture::spec_abs_address;
use crate::texture::Texture;
use crate::texture_type::spec_texture_type;
use crate::texture_type::TextureType;
use crate::vertex_store::Vertex;
use crate::vertex_store::VertexStore;
use vstd::prelude::*;
use vstd::string::StringExecFns;

verus! {

/// The four-byte word every model buffer must start with.
pub const EXPECTED_MAGIC: u32 = 0x0000000B;

/// Bytes the fixed-layout header occupies: the last field read is the vertex
/// count at offset 42.
pub const HEADER_LEN: u64 = 44;

/// The geometry-setup offset stored in the header.
pub open spec fn spec_geometry_setup_offset(data: Seq<u8>) -> u32 {
    be_u32_at(data, 4)
}

/// The texture-section offset stored in the header.
pub open spec fn spec_texture_setup_offset(data: Seq<u8>) -> u16 {
    be_u16_at(data, 8)
}

/// The geo-type code stored in the header.
pub open spec fn spec_geo_type_code(data: Seq<u8>) -> u16 {
    be_u16_at(data, 10)
}

/// The display-list offset stored in the header.
pub open spec fn spec_display_list_offset(data: Seq<u8>) -> u32 {
    be_u32_at(data, 12)
}

/// The vertex-store offset stored in the header.
pub open spec fn spec_vertex_store_offset(data: Seq<u8>) -> u32 {
    be_u32_at(data, 16)
}

/// The triangle count stored in the header.
pub open spec fn spec_triangle_count(data: Seq<u8>) -> u16 {
    be_u16_at(data, 40)
}

/// The vertex count stored in the header.
pub open spec fn spec_vert_count(data: Seq<u8>) -> u16 {
    be_u16_at(data, 42)
}

/// Whether the buffer starts with the model magic.
pub open spec fn spec_magic_ok(data: Seq<u8>) -> bool {
    data.len() >= 4 && be_u32_at(data, 0) == EXPECTED_MAGIC
}

/// Whether the buffer is long enough for every fixed header field.
pub open spec fn spec_header_ok(data: Seq<u8>) -> bool {
    data.len() >= HEADER_LEN
}

/// The command count stored at the head of the display-list section.
pub open spec fn spec_dl_count(data: Seq<u8>, off: int) -> u32 {
    be_u32_at(data, off)
}

/// Whether the display-list section lies inside the buffer: its count word,
/// and one eight-byte word per command after the four reserved bytes.
pub open spec fn spec_dl_section_ok(data: Seq<u8>, off: int) -> bool {
    &&& off + 4 <= data.len()
    &&& (spec_dl_count(data, off) == 0 || off + 8 + 8 * spec_dl_count(data, off) <= data.len())
}

/// The texture count stored in the texture section's header.
pub open spec fn spec_tex_count(data: Seq<u8>, off: int) -> u8 {
    data[off + 4]
}

/// Whether the texture section lies inside the buffer: its eight-byte header
/// as far as it is read, and one sixteen-byte descriptor per texture.
pub open spec fn spec_tex_section_ok(data: Seq<u8>, off: int) -> bool {
    &&& off + 5 <= data.len()
    &&& (spec_tex_count(data, off) == 0 || off + 8 + 16 * spec_tex_count(data, off)
        <= data.len())
}

/// The raw vertex count stored in the vertex section, after the twenty bytes
/// of range fields.
pub open spec fn spec_vs_raw_count(data: Seq<u8>, off: int) -> u16 {
    be_u16_at(data, off + 20)
}

/// Whether the vertex section lies inside the buffer: its count word and one
/// sixteen-byte record per vertex, where the record count is the raw count
/// halved, rounding down.
pub open spec fn spec_vs_section_ok(data: Seq<u8>, off: int) -> bool {
    &&& off + 22 <= data.len()
    &&& (spec_vs_raw_count(data, off) / 2 == 0 || off + 22 + 16 * (spec_vs_raw_count(data, off)
        / 2) <= data.len())
}

/// Whether all three sections named by the header lie inside the buffer.
pub open spec fn spec_sections_ok(data: Seq<u8>) -> bool {
    &&& spec_dl_section_ok(data, spec_display_list_offset(data) as int)
    &&& spec_tex_section_ok(data, spec_texture_setup_offset(data) as int)
    &&& spec_vs_section_ok(data, spec_vertex_store_offset(data) as int)
}

/// Whether a buffer decodes to a model: right magic, full header, and every
/// section inside the buffer.
pub open spec fn spec_loadable(data: Seq<u8>) -> bool {
    spec_magic_ok(data) && spec_header_ok(data) && spec_sections_ok(data)
}

/// The texture record at table position `i` of the section at `tso`.
pub open spec fn spec_texture_at(data: Seq<u8>, tso: u16, count: u8, i: int) -> Texture {
    let base = tso + 8 + 16 * i;
    Texture {
        m_texture_index: i as u8,
        m_segment_address: be_u32_at(data, base),
        m_absolute_addres: spec_abs_address(tso, be_u32_at(data, base), count),
        m_texture_type: spec_texture_type(data[base + 4]),
        m_width: data[base + 8],
        m_height: data[base + 9],
    }
}

/// The whole texture table of the section at `tso`.
pub open spec fn spec_textures(data: Seq<u8>, tso: u16) -> Seq<Texture> {
    Seq::new(
        spec_tex_count(data, tso as int) as nat,
        |i: int| spec_texture_at(data, tso, spec_tex_count(data, tso as int), i),
    )
}

/// The trailing word of texture descriptor `i` of the table at `tso`; the
/// format expects zero there.
pub open spec fn spec_texture_wasted(data: Seq<u8>, tso: u16, i: int) -> u32 {
    be_u32_at(data, tso + 8 + 16 * i + 12)
}

/// The wasted-data warnings among the first `n` descriptors of the table at
/// `tso`: the table position and the offending word of every descriptor
/// whose trailing word is not zero, in table order.
pub open spec fn spec_texture_warnings_upto(data: Seq<u8>, tso: u16, n: int) -> Seq<(u8, u32)>
    decreases n,
{
    if n <= 0 {
        Seq::empty()
    } else if spec_texture_wasted(data, tso, n - 1) != 0 {
        spec_texture_warnings_upto(data, tso, n - 1).push(
            (((n - 1) as u8), spec_texture_wasted(data, tso, n - 1)),
        )
    } else {
        spec_texture_warnings_upto(data, tso, n - 1)
    }
}

/// All wasted-data warnings of the texture table at `tso`.
pub open spec fn spec_texture_warnings(data: Seq<u8>, tso: u16) -> Seq<(u8, u32)> {
    spec_texture_warnings_upto(data, tso, spec_tex_count(data, tso as int) as int)
}

/// The absolute-address formula, stated of a decoded texture table: record
/// `i` carries its own table position as index, the segment address of its
/// own descriptor, and an absolute address of section offset + segment
/// address + 8 + 16 times the table's count, reduced modulo the u32 range.
pub proof fn lemma_texture_absolute_address(ts: Seq<Texture>, data: Seq<u8>, tso: u16, i: int)
    requires
        ts == spec_textures(data, tso),
        0 <= i < ts.len(),
    ensures
        ts[i].m_texture_index == i as u8,
        ts[i].m_segment_address == be_u32_at(data, tso + 8 + 16 * i),
        ts[i].m_absolute_addres == ((tso + ts[i].m_segment_address + 8 + 16 * spec_tex_count(
            data,
            tso as int,
        )) % 0x100000000) as u32,
{
    assert(ts[i] == spec_texture_at(data, tso, spec_tex_count(data, tso as int), i));
}

/// Whether `cmds` is the decoded display list of the section at `off`: as
/// many commands as the count word says, each decoded from its own
/// eight-byte word.
pub open spec fn spec_display_list_matches(
    cmds: Seq<DisplayListCommand>,
    data: Seq<u8>,
    off: int,
) -> bool {
    &&& cmds.len() == spec_dl_count(data, off)
    &&& forall|i: int|
        0 <= i < cmds.len() ==> spec_command_ok(
            #[trigger] cmds[i],
            data.subrange(off + 8 + 8 * i, off + 8 + 8 * i + 8),
        )
}

/// Whether vertex `v` holds the fields of the sixteen-byte record `b`.
pub open spec fn spec_vertex_ok(v: Vertex, b: Seq<u8>) -> bool {
    &&& v.pos[0] == be_i16_at(b, 0)
    &&& v.pos[1] == be_i16_at(b, 2)
    &&& v.pos[2] == be_i16_at(b, 4)
    &&& v.flag == be_u16_at(b, 6)
    &&& v.uv[0] == be_i16_at(b, 8)
    &&& v.uv[1] == be_i16_at(b, 10)
    &&& v.rgb_or_norm[0] == b[12]
    &&& v.rgb_or_norm[1] == b[13]
    &&& v.rgb_or_norm[2] == b[14]
    &&& v.alpha == b[15]
}

/// Whether `vs` is the decoded vertex table of the section at `off`: half
/// the raw count many records, each from its own sixteen bytes, in file
/// order.
pub open spec fn spec_vertex_store_matches(vs: Seq<Vertex>, data: Seq<u8>, off: int) -> bool {
    &&& vs.len() == spec_vs_raw_count(data, off) / 2
    &&& forall|i: int|
        0 <= i < vs.len() ==> spec_vertex_ok(
            #[trigger] vs[i],
            data.subrange(off + 22 + 16 * i, off + 22 + 16 * i + 16),
        )
}

/// The shape of a decoded vertex store: exactly half the raw count many
/// records, rounding down — a raw count of ten gives five — and record `i`
/// takes its fields from the sixteen bytes at `off + 22 + 16 * i` of the
/// buffer, in file order.
pub proof fn lemma_vertex_record_fields(vs: Seq<Vertex>, data: Seq<u8>, off: int, i: int)
    requires
        0 <= off,
        spec_vs_section_ok(data, off),
        spec_vertex_store_matches(vs, data, off),
        0 <= i < vs.len(),
    ensures
        vs.len() == spec_vs_raw_count(data, off) / 2,
        vs[i].pos[0] == be_i16_at(data, off + 22 + 16 * i),
        vs[i].pos[1] == be_i16_at(data, off + 22 + 16 * i + 2),
        vs[i].pos[2] == be_i16_at(data, off + 22 + 16 * i + 4),
        vs[i].flag == be_u16_at(data, off + 22 + 16 * i + 6),
        vs[i].uv[0] == be_i16_at(data, off + 22 + 16 * i + 8),
        vs[i].uv[1] == be_i16_at(data, off + 22 + 16 * i + 10),
        vs[i].rgb_or_norm[0] == data[off + 22 + 16 * i + 12],
        vs[i].rgb_or_norm[1] == data[off + 22 + 16 * i + 13],
        vs[i].rgb_or_norm[2] == data[off + 22 + 16 * i + 14],
        vs[i].alpha == data[off + 22 + 16 * i + 15],
{
    let b = data.subrange(off + 22 + 16 * i, off + 22 + 16 * i + 16);
    assert(spec_vertex_ok(vs[i], b));
    assert(be_u16_at(b, 0) == be_u16_at(data, off + 22 + 16 * i));
    assert(be_u16_at(b, 2) == be_u16_at(data, off + 22 + 16 * i + 2));
    assert(be_u16_at(b, 4) == be_u16_at(data, off + 22 + 16 * i + 4));
    assert(be_u16_at(b, 6) == be_u16_at(data, off + 22 + 16 * i + 6));
    assert(be_u16_at(b, 8) == be_u16_at(data, off + 22 + 16 * i + 8));
    assert(be_u16_at(b, 10) == be_u16_at(data, off + 22 + 16 * i + 10));
}

/// The listing name of one texture sub-object.
pub open spec fn spec_texture_name(idx: u8) -> Seq<char> {
    "texture_"@ + dec_chars(idx as nat)
}

/// The entire decoded model: the header fields, the three decoded sections,
/// and the raw buffer they came from. Built once by `load`; read-only
/// afterwards.
pub struct Model {
    /// The offset within the model where the geometry section starts.
    pub m_internal_geometry_setup_offset: u32,
    /// The offset within the model where the texture section starts.
    pub m_internal_texture_setup_offset: u16,
    /// The geo type from the header.
    pub m_internal_geo_type: GeoType,
    /// The offset where the display list starts.
    pub m_internal_display_list_setup_offset: u32,
    /// The offset where the vertex store starts.
    pub m_internal_vertex_store_setup_offset: u32,
    /// The number of triangles, according to the header.
    pub m_internal_triangle_count: u32,
    /// The number of vertices, according to the header; the vertex section
    /// carries its own count, which is not cross-checked against this one.
    pub m_internal_vert_count: u32,
    /// Information about each texture.
    pub m_textures: Vec<Texture>,
    /// Table position and trailing word of every texture descriptor whose
    /// trailing word was not zero. The format expects zero there, so each
    /// entry is worth a report, though none is fatal.
    pub m_texture_warnings: Vec<(u8, u32)>,
    /// The display list that renders the model.
    pub m_display_list: DisplayList,
    /// The vertex store.
    pub m_vertex_store: VertexStore,
    /// The raw buffer, big-endian throughout.
    pub m_data: Vec<u8>,
}

impl Model {
    /// Every decoded part of the model agrees with the buffer it was read
    /// from.
    pub open spec fn spec_matches(self, data: Seq<u8>) -> bool {
        &&& self.m_data@ == data
        &&& self.m_internal_geometry_setup_offset == spec_geometry_setup_offset(data)
        &&& self.m_internal_texture_setup_offset == spec_texture_setup_offset(data)
        &&& self.m_internal_geo_type == spec_geo_type(spec_geo_type_code(data))
        &&& self.m_internal_display_list_setup_offset == spec_display_list_offset(data)
        &&& self.m_internal_vertex_store_setup_offset == spec_vertex_store_offset(data)
        &&& self.m_internal_triangle_count == spec_triangle_count(data) as u32
        &&& self.m_internal_vert_count == spec_vert_count(data) as u32
        &&& spec_display_list_matches(
            self.m_display_list.commands@,
            data,
            spec_display_list_offset(data) as int,
        )
        &&& self.m_textures@ == spec_textures(data, spec_texture_setup_offset(data))
        &&& self.m_texture_warnings@ == spec_texture_warnings(
            data,
            spec_texture_setup_offset(data),
        )
        &&& spec_vertex_store_matches(
            self.m_vertex_store.m_verticies@,
            data,
            spec_vertex_store_offset(data) as int,
        )
    }

    /// Decodes a model from a raw buffer. The magic is checked first; then
    /// the fixed header; then the display-list, texture and vertex sections,
    /// in that order. Any failure aborts the whole load: no partial model is
    /// ever returned.
    pub fn load(data: Vec<u8>) -> (r: Result<Model, Error>)
        ensures
            match r {
                Ok(m) => spec_loadable(data@) && m.spec_matches(data@),
                Err(Error::InvalidMagic { expected, got }) => {
                    &&& data@.len() >= 4
                    &&& expected == EXPECTED_MAGIC
                    &&& got == be_u32_at(data@, 0)
                    &&& got != EXPECTED_MAGIC
                },
                Err(Error::BoundsError) => data@.len() < 4 || (spec_magic_ok(data@) && !(
                spec_header_ok(data@) && spec_sections_ok(data@))),
                Err(Error::Unknown) => false,
            },
    {
        let magic = match read_u32_be(&data, 0) {
            Ok(v) => v,
            Err(e) => return Err(e),
        };
        if magic != EXPECTED_MAGIC {
            return Err(Error::InvalidMagic { expected: EXPECTED_MAGIC, got: magic });
        }
        let geometry_setup_offset = match read_u32_be(&data, 4) {
            Ok(v) => v,
            Err(e) => return Err(e),
        };
        let texture_setup_offset = match read_u16_be(&data, 8) {
            Ok(v) => v,
            Err(e) => return Err(e),
        };
        let geo_type_u16 = match read_u16_be(&data, 10) {
            Ok(v) => v,
            Err(e) => return Err(e),
        };
        let geo_type = GeoType::from_u16(geo_type_u16);
        let display_list_setup_offset = match read_u32_be(&data, 12) {
            Ok(v) => v,
            Err(e) => return Err(e),
        };
        let vertex_store_setup_offset = match read_u32_be(&data, 16) {
            Ok(v) => v,
            Err(e) => return Err(e),
        };
        // twenty reserved bytes (animation, collision and effects setup)
        // separate the offsets from the two counts
        let tri_count = match read_u16_be(&data, 40) {
            Ok(v) => v,
            Err(e) => return Err(e),
        };
        let vert_count = match read_u16_be(&data, 42) {
            Ok(v) => v,
            Err(e) => return Err(e),
        };
        let display_list = match Self::p_parse_displaylist(&data, display_list_setup_offset) {
            Ok(v) => v,
            Err(e) => return Err(e),
        };
        let (textures, texture_warnings) = match Self::p_parse_textures(
            &data,
            texture_setup_offset,
        ) {
            Ok(v) => v,
            Err(e) => return Err(e),
        };
        let vertex_store = match Self::p_parse_vertexstore(&data, vertex_store_setup_offset) {
            Ok(v) => v,
            Err(e) => return Err(e),
        };
        Ok(
            Model {
                m_internal_geometry_setup_offset: geometry_setup_offset,
                m_internal_texture_setup_offset: texture_setup_offset,
                m_internal_geo_type: geo_type,
                m_internal_display_list_setup_offset: display_list_setup_offset,
                m_internal_vertex_store_setup_offset: vertex_store_setup_offset,
                m_internal_triangle_count: tri_count as u32,
                m_internal_vert_count: vert_count as u32,
                m_textures: textures,
                m_texture_warnings: texture_warnings,
                m_display_list: display_list,
                m_vertex_store: vertex_store,
                m_data: data,
            },
        )
    }

    /// Reads the display-list section: a u32 command count, four reserved
    /// bytes, then that many eight-byte words, each decoded in order.
    fn p_parse_displaylist(data: &Vec<u8>, off: u32) -> (r: Result<DisplayList, Error>)
        ensures
            match r {
                Ok(dl) => spec_dl_section_ok(data@, off as int) && spec_display_list_matches(
                    dl.commands@,
                    data@,
                    off as int,
                ),
                Err(e) => e == Error::BoundsError && !spec_dl_section_ok(data@, off as int),
            },
    {
        let base = off as u64;
        let command_count = match read_u32_be(data, base) {
            Ok(v) => v,
            Err(e) => return Err(e),
        };
        // four blank bytes follow the count
        let mut dl = DisplayList::new();
        let mut i: u32 = 0;
        while i < command_count
            invariant
                base == off,
                base + 4 <= data@.len(),
                command_count == spec_dl_count(data@, base as int),
                i <= command_count,
                i > 0 ==> base + 8 + 8 * i <= data@.len(),
                dl.commands@.len() == i,
                forall|j: int|
                    0 <= j < i ==> spec_command_ok(
                        #[trigger] dl.commands@[j],
                        data@.subrange(base + 8 + 8 * j, base + 8 + 8 * j + 8),
                    ),
            decreases command_count - i,
        {
            let word = match read_word8(data, base + 8 + 8 * (i as u64)) {
                Ok(w) => w,
                Err(e) => return Err(e),
            };
            let command = match DisplayListCommand::parse(word) {
                Ok(c) => c,
                Err(e) => return Err(e),
            };
            dl.add_command(command);
            i = i + 1;
        }
        Ok(dl)
    }

    /// Reads the texture section: a u32 the format wastes, a one-byte
    /// texture count, then one sixteen-byte descriptor per texture. The
    /// trailing word of a descriptor is tolerated whatever it holds — the
    /// format expects zero there without enforcing it — but a non-zero one
    /// is gathered as a warning, for the caller to report.
    fn p_parse_textures(data: &Vec<u8>, tso: u16) -> (r: Result<
        (Vec<Texture>, Vec<(u8, u32)>),
        Error,
    >)
        ensures
            match r {
                Ok(tw) => {
                    &&& spec_tex_section_ok(data@, tso as int)
                    &&& tw.0@ == spec_textures(data@, tso)
                    &&& tw.1@ == spec_texture_warnings(data@, tso)
                },
                Err(e) => e == Error::BoundsError && !spec_tex_section_ok(data@, tso as int),
            },
    {
        let base = tso as u64;
        let _load_bytes = match read_u32_be(data, base) {
            Ok(v) => v,
            Err(e) => return Err(e),
        };
        let tex_count = match read_u8(data, base + 4) {
            Ok(v) => v,
            Err(e) => return Err(e),
        };
        let mut ts: Vec<Texture> = Vec::new();
        let mut warnings: Vec<(u8, u32)> = Vec::new();
        let mut i: u8 = 0;
        while i < tex_count
            invariant
                base == tso,
                base + 5 <= data@.len(),
                tex_count == spec_tex_count(data@, base as int),
                i <= tex_count,
                i > 0 ==> base + 8 + 16 * i <= data@.len(),
                ts@.len() == i,
                forall|j: int|
                    0 <= j < i ==> ts@[j] == spec_texture_at(data@, tso, tex_count, j),
                warnings@ == spec_texture_warnings_upto(data@, tso, i as int),
            decreases tex_count - i,
        {
            let rec = base + 8 + 16 * (i as u64);
            let segment_address = match read_u32_be(data, rec) {
                Ok(v) => v,
                Err(e) => return Err(e),
            };
            let texture_type_u8 = match read_u8(data, rec + 4) {
                Ok(v) => v,
                Err(e) => return Err(e),
            };
            let width = match read_u8(data, rec + 8) {
                Ok(v) => v,
                Err(e) => return Err(e),
            };
            let height = match read_u8(data, rec + 9) {
                Ok(v) => v,
                Err(e) => return Err(e),
            };
            let wasted_data = match read_u32_be(data, rec + 12) {
                Ok(v) => v,
                Err(e) => return Err(e),
            };
            if wasted_data != 0 {
                warnings.push((i, wasted_data));
            }
            let texture_type = TextureType::from_u8(texture_type_u8);
            let abs_address = (((tso as u64) + (segment_address as u64) + 8 + 16 * (
            tex_count as u64)) % 0x100000000) as u32;
            let texture = Texture::new(
                i,
                segment_address,
                abs_address,
                texture_type,
                width,
                height,
            );
            ts.push(texture);
            i = i + 1;
        }
        proof {
            assert(ts@ =~= spec_textures(data@, tso));
        }
        Ok((ts, warnings))
    }

    /// Reads the vertex section: twenty bytes of draw-distance and
    /// collision-range fields are skipped, a u16 raw count follows, and half
    /// that many sixteen-byte vertex records are read in file order.
    fn p_parse_vertexstore(data: &Vec<u8>, off: u32) -> (r: Result<VertexStore, Error>)
        ensures
            match r {
                Ok(vs) => spec_vs_section_ok(data@, off as int) && spec_vertex_store_matches(
                    vs.m_verticies@,
                    data@,
                    off as int,
                ),
                Err(e) => e == Error::BoundsError && !spec_vs_section_ok(data@, off as int),
            },
    {
        let base = off as u64;
        let raw_count = match read_u16_be(data, base + 20) {
            Ok(v) => v,
            Err(e) => return Err(e),
        };
        let n = raw_count / 2;
        let mut store = VertexStore::new();
        let mut i: u16 = 0;
        while i < n
            invariant
                base == off,
                base + 22 <= data@.len(),
                raw_count == spec_vs_raw_count(data@, base as int),
                n == raw_count / 2,
                i <= n,
                i > 0 ==> base + 22 + 16 * i <= data@.len(),
                store.m_verticies@.len() == i,
                forall|j: int|
                    0 <= j < i ==> spec_vertex_ok(
                        #[trigger] store.m_verticies@[j],
                        data@.subrange(base + 22 + 16 * j, base + 22 + 16 * j + 16),
                    ),
            decreases n - i,
        {
            let rec = base + 22 + 16 * (i as u64);
            let x = match read_i16_be(data, rec) {
                Ok(v) => v,
                Err(e) => return Err(e),
            };
            let y = match read_i16_be(data, rec + 2) {
                Ok(v) => v,
                Err(e) => return Err(e),
            };
            let z = match read_i16_be(data, rec + 4) {
                Ok(v) => v,
                Err(e) => return Err(e),
            };
            let flag = match read_u16_be(data, rec + 6) {
                Ok(v) => v,
                Err(e) => return Err(e),
            };
            let u = match read_i16_be(data, rec + 8) {
                Ok(v) => v,
                Err(e) => return Err(e),
            };
            let v = match read_i16_be(data, rec + 10) {
                Ok(v) => v,
                Err(e) => return Err(e),
            };
            let cr = match read_u8(data, rec + 12) {
                Ok(v) => v,
                Err(e) => return Err(e),
            };
            let cg = match read_u8(data, rec + 13) {
                Ok(v) => v,
                Err(e) => return Err(e),
            };
            let cb = match read_u8(data, rec + 14) {
                Ok(v) => v,
                Err(e) => return Err(e),
            };
            let ca = match read_u8(data, rec + 15) {
                Ok(v) => v,
                Err(e) => return Err(e),
            };
            let vert = Vertex {
                pos: [x, y, z],
                flag: flag,
                uv: [u, v],
                rgb_or_norm: [cr, cg, cb],
                alpha: ca,
            };
            store.add(vert);
            i = i + 1;
        }
        Ok(store)
    }

    /// The names of the model's sub-objects: `displaylist` when the
    /// display-list offset is non-zero, then one `texture_{index}` entry per
    /// texture, in table order.
    pub open spec fn spec_sub_object_names(self) -> Seq<Seq<char>> {
        let tex = Seq::new(
            self.m_textures@.len(),
            |i: int| spec_texture_name(self.m_textures@[i].m_texture_index),
        );
        if self.m_internal_display_list_setup_offset != 0 {
            seq!["displaylist"@] + tex
        } else {
            tex
        }
    }

    /// Lists the model's sub-object names.
    pub fn sub_object_names(&self) -> (r: Vec<String>)
        ensures
            r@.len() == self.spec_sub_object_names().len(),
            forall|i: int| 0 <= i < r@.len() ==> r@[i]@ == self.spec_sub_object_names()[i],
    {
        let mut v: Vec<String> = Vec::new();
        if self.m_internal_display_list_setup_offset != 0 {
            v.push(String::from_str("displaylist"));
        }
        let ghost head: int = v@.len() as int;
        let mut i: usize = 0;
        while i < self.m_textures.len()
            invariant
                i <= self.m_textures@.len(),
                v@.len() == head + i,
                head == if self.m_internal_display_list_setup_offset != 0 {
                    1int
                } else {
                    0int
                },
                self.m_internal_display_list_setup_offset != 0 ==> v@[0]@ == "displaylist"@,
                forall|j: int|
                    0 <= j < i ==> v@[head + j]@ == spec_texture_name(
                        self.m_textures@[j].m_texture_index,
                    ),
            decreases self.m_textures@.len() - i,
        {
            let mut name = String::from_str("texture_");
            push_dec_u64(&mut name, self.m_textures[i].index() as u64);
            v.push(name);
            i = i + 1;
        }
        v
    }

    /// The list of textures inside the model.
    pub fn textures(&self) -> (r: &Vec<Texture>)
        ensures
            r@ == self.m_textures@,
    {
        &self.m_textures
    }

    /// The wasted-data warnings gathered while parsing the texture table:
    /// the table position and trailing word of each descriptor where that
    /// word was not zero.
    pub fn texture_warnings(&self) -> (r: &Vec<(u8, u32)>)
        ensures
            r@ == self.m_texture_warnings@,
    {
        &self.m_texture_warnings
    }

    /// The display list.
    pub fn display_list(&self) -> (r: &DisplayList)
        ensures
            r == &self.m_display_list,
    {
        &self.m_display_list
    }

    /// The vertex store.
    pub fn vertex_store(&self) -> (r: &VertexStore)
        ensures
            r == &self.m_vertex_store,
    {
        &self.m_vertex_store
    }

    /// The offset within the model where the geometry section starts.
    pub fn internal_geometry_setup_offset(&self) -> (r: u32)
        ensures
            r == self.m_internal_geometry_setup_offset,
    {
        self.m_internal_geometry_setup_offset
    }

    /// The texture setup offset.
    pub fn internal_texture_setup_offset(&self) -> (r: u16)
        ensures
            r == self.m_internal_texture_setup_offset,
    {
        self.m_internal_texture_setup_offset
    }

    /// The geo type.
    pub fn internal_geo_type(&self) -> (r: GeoType)
        ensures
            r == self.m_internal_geo_type,
    {
        self.m_internal_geo_type
    }

    /// The display-list offset in the file.
    pub fn internal_display_list_setup_offset(&self) -> (r: u32)
        ensures
            r == self.m_internal_display_list_setup_offset,
    {
        self.m_internal_display_list_setup_offset
    }

    /// The vertex-store offset in the file.
    pub fn internal_vertex_store_setup_offset(&self) -> (r: u32)
        ensures
            r == self.m_internal_vertex_store_setup_offset,
    {
        self.m_internal_vertex_store_setup_offset
    }

    /// The triangle count from the header.
    pub fn internal_triangle_count(&self) -> (r: u32)
        ensures
            r == self.m_internal_triangle_count,
    {
        self.m_internal_triangle_count
    }

    /// The vertex count from the header.
    pub fn internal_vert_count(&self) -> (r: u32)
        ensures
            r == self.m_internal_vert_count,
    {
        self.m_internal_vert_count
    }
}

} // verus!

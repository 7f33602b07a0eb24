use n64model::errors::Error;
use n64model::geo_type::GeoType;
use n64model::model::Model;
use n64model::texture_type::TextureType;

fn set_u16(buf: &mut Vec<u8>, off: usize, v: u16) {
    let b = v.to_be_bytes();
    buf[off] = b[0];
    buf[off + 1] = b[1];
}

fn set_u32(buf: &mut Vec<u8>, off: usize, v: u32) {
    let b = v.to_be_bytes();
    for k in 0..4 {
        buf[off + k] = b[k];
    }
}

/// A zeroed buffer with a valid magic and the three section offsets set; the
/// sections hold zero counts unless a test fills them.
fn base_buffer(len: usize, tex_off: u16, dl_off: u32, vs_off: u32) -> Vec<u8> {
    let mut buf = vec![0u8; len];
    set_u32(&mut buf, 0, 0x0000000B);
    set_u32(&mut buf, 4, 0x77); // geometry setup offset, unused by the parse
    set_u16(&mut buf, 8, tex_off);
    set_u32(&mut buf, 12, dl_off);
    set_u32(&mut buf, 16, vs_off);
    buf
}

#[test]
fn load_rejects_wrong_magic() {
    let mut buf = vec![0u8; 128];
    set_u32(&mut buf, 0, 0x00000005);
    match Model::load(buf) {
        Err(e) => assert_eq!(
            e,
            Error::InvalidMagic {
                expected: 0x0000000B,
                got: 0x00000005
            }
        ),
        Ok(_) => panic!("load accepted a wrong magic"),
    }
}

#[test]
fn load_rejects_empty_buffer_with_bounds_error() {
    match Model::load(Vec::new()) {
        Err(e) => assert_eq!(e, Error::BoundsError),
        Ok(_) => panic!("load accepted an empty buffer"),
    }
}

#[test]
fn load_rejects_buffer_shorter_than_header() {
    let mut buf = vec![0u8; 20];
    set_u32(&mut buf, 0, 0x0000000B);
    match Model::load(buf) {
        Err(e) => assert_eq!(e, Error::BoundsError),
        Ok(_) => panic!("load accepted a truncated header"),
    }
}

#[test]
fn load_rejects_display_list_offset_past_end() {
    let buf = base_buffer(128, 64, 4096, 80);
    match Model::load(buf) {
        Err(e) => assert_eq!(e, Error::BoundsError),
        Ok(_) => panic!("load accepted a display-list offset past the end"),
    }
}

#[test]
fn load_rejects_texture_offset_past_end() {
    let buf = base_buffer(128, 4096, 48, 80);
    match Model::load(buf) {
        Err(e) => assert_eq!(e, Error::BoundsError),
        Ok(_) => panic!("load accepted a texture offset past the end"),
    }
}

#[test]
fn load_rejects_vertex_offset_past_end() {
    let buf = base_buffer(128, 64, 48, 4096);
    match Model::load(buf) {
        Err(e) => assert_eq!(e, Error::BoundsError),
        Ok(_) => panic!("load accepted a vertex offset past the end"),
    }
}

#[test]
fn load_rejects_truncated_command_words() {
    // the display list claims ten commands but the buffer ends after six
    let mut buf = base_buffer(108, 64, 48, 80);
    set_u32(&mut buf, 48, 10);
    match Model::load(buf) {
        Err(e) => assert_eq!(e, Error::BoundsError),
        Ok(_) => panic!("load accepted a truncated display list"),
    }
}

#[test]
fn minimal_buffer_end_to_end() {
    // display list at 44: one command, an end-of-list word; textures at 60:
    // count 0; vertices at 68: raw count 0 at offset 88
    let mut buf = base_buffer(90, 60, 44, 68);
    set_u32(&mut buf, 44, 1);
    buf[52] = 0xB8;
    let model = Model::load(buf).expect("minimal buffer must load");
    assert_eq!(model.display_list().command_count(), 1);
    assert_eq!(model.display_list().commands()[0].psuedo_code(), "G_ENDDL");
    assert!(model.textures().is_empty());
    assert!(model.vertex_store().verticies().is_empty());
}

#[test]
fn header_fields_are_read_from_their_offsets() {
    let mut buf = base_buffer(256, 128, 48, 80);
    set_u16(&mut buf, 10, 0x0002);
    set_u16(&mut buf, 40, 321);
    set_u16(&mut buf, 42, 654);
    let model = Model::load(buf).expect("buffer must load");
    assert_eq!(model.internal_geometry_setup_offset(), 0x77);
    assert_eq!(model.internal_texture_setup_offset(), 128);
    assert_eq!(model.internal_geo_type(), GeoType::TrilinearMipMapping);
    assert_eq!(model.internal_display_list_setup_offset(), 48);
    assert_eq!(model.internal_vertex_store_setup_offset(), 80);
    assert_eq!(model.internal_triangle_count(), 321);
    assert_eq!(model.internal_vert_count(), 654);
}

#[test]
fn texture_absolute_address_formula() {
    // texture section at 0x100 with three textures; the first one's segment
    // address is 0x20, so its absolute address is 0x100 + 0x20 + 8 + 48
    let mut buf = base_buffer(0x200, 0x100, 48, 80);
    buf[0x104] = 3;
    set_u32(&mut buf, 0x108, 0x20);
    buf[0x108 + 4] = 0x04; // RGBA16
    buf[0x108 + 8] = 32; // width
    buf[0x108 + 9] = 64; // height
    let model = Model::load(buf).expect("buffer must load");
    let textures = model.textures();
    assert_eq!(textures.len(), 3);
    assert_eq!(textures[0].index(), 0);
    assert_eq!(textures[0].segment_address(), 0x20);
    assert_eq!(textures[0].absolute_address(), 0x158);
    assert_eq!(textures[0].texture_type(), TextureType::RGBA16);
    assert_eq!(textures[0].width(), 32);
    assert_eq!(textures[0].height(), 64);
    assert_eq!(textures[1].index(), 1);
    assert_eq!(textures[2].index(), 2);
}

#[test]
fn vertex_store_consumes_half_the_raw_count() {
    // vertex section at 80: raw count 10 at offset 100, so five records of
    // sixteen bytes each, starting at 102
    let mut buf = base_buffer(256, 60, 48, 80);
    set_u16(&mut buf, 100, 10);
    for i in 0..5u16 {
        let rec = 102 + 16 * i as usize;
        set_u16(&mut buf, rec, (100 + i) as u16); // x
        set_u16(&mut buf, rec + 2, 0xFF38); // y = -200
        set_u16(&mut buf, rec + 4, 7); // z
        set_u16(&mut buf, rec + 6, 0xABCD); // flag
        set_u16(&mut buf, rec + 8, 0x8000); // u = -32768
        set_u16(&mut buf, rec + 10, 0x7FFF); // v = 32767
        buf[rec + 12] = 10 + i as u8;
        buf[rec + 13] = 20;
        buf[rec + 14] = 30;
        buf[rec + 15] = 40;
    }
    let model = Model::load(buf).expect("buffer must load");
    let verts = model.vertex_store().verticies();
    assert_eq!(verts.len(), 5);
    for i in 0..5usize {
        let v = &verts[i];
        assert_eq!(v.pos[0], 100 + i as i16);
        assert_eq!(v.pos[1], -200);
        assert_eq!(v.pos[2], 7);
        assert_eq!(v.flag, 0xABCD);
        assert_eq!(v.uv[0], -32768);
        assert_eq!(v.uv[1], 32767);
        assert_eq!(v.rgb_or_norm[0], 10 + i as u8);
        assert_eq!(v.rgb_or_norm[1], 20);
        assert_eq!(v.rgb_or_norm[2], 30);
        assert_eq!(v.alpha, 40);
    }
}

#[test]
fn odd_raw_count_rounds_down() {
    let mut buf = base_buffer(256, 60, 48, 80);
    set_u16(&mut buf, 100, 7);
    let model = Model::load(buf).expect("buffer must load");
    assert_eq!(model.vertex_store().verticies().len(), 3);
}

#[test]
fn sub_object_names_lists_displaylist_and_textures() {
    let mut buf = base_buffer(256, 128, 48, 80);
    buf[128 + 4] = 2; // two textures, both zeroed descriptors
    let model = Model::load(buf).expect("buffer must load");
    let names = model.sub_object_names();
    assert_eq!(names, vec!["displaylist", "texture_0", "texture_1"]);
}

#[test]
fn sub_object_names_without_display_list() {
    let buf = base_buffer(256, 128, 0, 80);
    // a display-list offset of zero means no display list; offset 0 holds
    // the magic, which reads as a command count of 11 zero words
    let model = Model::load(buf).expect("buffer must load");
    let names = model.sub_object_names();
    assert_eq!(names, Vec::<String>::new());
}

#[test]
fn geo_type_codes() {
    assert_eq!(GeoType::from_u16(0), GeoType::Normal);
    assert_eq!(GeoType::from_u16(2), GeoType::TrilinearMipMapping);
    assert_eq!(GeoType::from_u16(4), GeoType::EnvMapping);
    assert_eq!(GeoType::from_u16(1), GeoType::Unknown);
    assert_eq!(GeoType::from_u16(3), GeoType::Unknown);
    assert_eq!(GeoType::from_u16(0xFFFF), GeoType::Unknown);
}

#[test]
fn texture_type_codes() {
    assert_eq!(TextureType::from_u8(0x01), TextureType::CI4);
    assert_eq!(TextureType::from_u8(0x02), TextureType::CI8);
    assert_eq!(TextureType::from_u8(0x04), TextureType::RGBA16);
    assert_eq!(TextureType::from_u8(0x08), TextureType::RGBA32);
    assert_eq!(TextureType::from_u8(0x10), TextureType::IA8);
    assert_eq!(TextureType::from_u8(0x00), TextureType::Unknown);
    assert_eq!(TextureType::from_u8(0x20), TextureType::Unknown);
}

#[test]
fn wasted_descriptor_word_is_tolerated_and_reported() {
    // a non-zero trailing word in a texture descriptor is not a failure,
    // but it is gathered as a warning with its table position and value
    let mut buf = base_buffer(256, 128, 48, 80);
    buf[128 + 4] = 3;
    set_u32(&mut buf, 128 + 8 + 16 * 2 + 12, 0xFFFFFFFF);
    let model = Model::load(buf).expect("buffer must load");
    assert_eq!(model.textures().len(), 3);
    assert_eq!(model.texture_warnings(), &vec![(2u8, 0xFFFFFFFFu32)]);
}

#[test]
fn zero_wasted_words_give_no_warnings() {
    let mut buf = base_buffer(256, 128, 48, 80);
    buf[128 + 4] = 2;
    let model = Model::load(buf).expect("buffer must load");
    assert!(model.texture_warnings().is_empty());
}

use n64model::display_list::DisplayListCommand;
use n64model::dlcommands::g_settimg::G_SETTIMG;
use n64model::dlcommands::g_texture::G_TEXTURE;

fn word(op: u8) -> [u8; 8] {
    [op, 1, 2, 3, 4, 5, 6, 7]
}

#[test]
fn every_table_opcode_decodes_to_its_variant() {
    assert!(matches!(
        DisplayListCommand::parse(word(0x00)).unwrap(),
        DisplayListCommand::G_SPNOOP(_)
    ));
    assert!(matches!(
        DisplayListCommand::parse(word(0x04)).unwrap(),
        DisplayListCommand::G_VTX(_)
    ));
    assert!(matches!(
        DisplayListCommand::parse(word(0x06)).unwrap(),
        DisplayListCommand::G_DL(_)
    ));
    assert!(matches!(
        DisplayListCommand::parse(word(0xB1)).unwrap(),
        DisplayListCommand::G_TRI2(_)
    ));
    assert!(matches!(
        DisplayListCommand::parse(word(0xB6)).unwrap(),
        DisplayListCommand::G_CLEARGEOMETRYMODE(_)
    ));
    assert!(matches!(
        DisplayListCommand::parse(word(0xB7)).unwrap(),
        DisplayListCommand::G_SETGEOMETRYMODE(_)
    ));
    assert!(matches!(
        DisplayListCommand::parse(word(0xB8)).unwrap(),
        DisplayListCommand::G_ENDDL(_)
    ));
    assert!(matches!(
        DisplayListCommand::parse(word(0xB9)).unwrap(),
        DisplayListCommand::G_SetOtherMode_L(_)
    ));
    assert!(matches!(
        DisplayListCommand::parse(word(0xBA)).unwrap(),
        DisplayListCommand::G_SetOtherMode_H(_)
    ));
    assert!(matches!(
        DisplayListCommand::parse(word(0xBB)).unwrap(),
        DisplayListCommand::G_TEXTURE(_)
    ));
    assert!(matches!(
        DisplayListCommand::parse(word(0xBD)).unwrap(),
        DisplayListCommand::G_POPMTX(_)
    ));
    assert!(matches!(
        DisplayListCommand::parse(word(0xE7)).unwrap(),
        DisplayListCommand::G_RDPPIPESYNC(_)
    ));
    assert!(matches!(
        DisplayListCommand::parse(word(0xFC)).unwrap(),
        DisplayListCommand::G_SETCOMBINE(_)
    ));
    assert!(matches!(
        DisplayListCommand::parse(word(0xFD)).unwrap(),
        DisplayListCommand::G_SETTIMG(_)
    ));
}

#[test]
fn every_other_opcode_decodes_to_unknown_keeping_the_word() {
    let table = [
        0x00u8, 0x04, 0x06, 0xB1, 0xB6, 0xB7, 0xB8, 0xB9, 0xBA, 0xBB, 0xBD, 0xE7, 0xFC, 0xFD,
    ];
    for op in 0..=255u8 {
        if table.contains(&op) {
            continue;
        }
        let w = [op, 11, 22, 33, 44, 55, 66, 77];
        match DisplayListCommand::parse(w).unwrap() {
            DisplayListCommand::Unknown(u) => assert_eq!(u.cmd, w),
            _ => panic!("opcode {} did not decode to Unknown", op),
        }
    }
}

#[test]
fn call_display_list_byte1_zero_stores_return_address() {
    let w = [0x06, 0x00, 0, 0, 0xDE, 0xAD, 0xBE, 0xEF];
    match DisplayListCommand::parse(w).unwrap() {
        DisplayListCommand::G_DL(d) => {
            assert!(d.m_store_return_address);
            assert_eq!(d.m_branch_segmented_address, 0xDEADBEEF);
        }
        _ => panic!("expected G_DL"),
    }
}

#[test]
fn call_display_list_byte1_one_does_not_store_return_address() {
    let w = [0x06, 0x01, 0, 0, 0x00, 0x00, 0x00, 0x1F];
    match DisplayListCommand::parse(w).unwrap() {
        DisplayListCommand::G_DL(d) => {
            assert!(!d.m_store_return_address);
            assert_eq!(d.m_branch_segmented_address, 0x1F);
        }
        _ => panic!("expected G_DL"),
    }
}

fn settimg_with_byte1(b1: u8) -> G_SETTIMG {
    let w = [0xFD, b1, 0, 0, 0, 0, 0, 0];
    match DisplayListCommand::parse(w).unwrap() {
        DisplayListCommand::G_SETTIMG(t) => t,
        _ => panic!("expected G_SETTIMG"),
    }
}

#[test]
fn settimg_format_and_bitsize_cross_table() {
    let names = ["RGBA", "YUV", "CI", "IA", "I", "UNK", "UNK", "UNK"];
    let sizes = [4u8, 8, 16, 32];
    for f in 0..8u8 {
        for b in 0..4u8 {
            let byte1 = (f << 5) | (b << 3);
            let t = settimg_with_byte1(byte1);
            assert_eq!(t.p_textureFormatName(), names[f as usize]);
            assert_eq!(t.p_textureBitSize(), sizes[b as usize]);
        }
    }
}

#[test]
fn settimg_byte1_0x04_is_rgba_4() {
    let t = settimg_with_byte1(0x04);
    assert_eq!(t.p_textureFormatName(), "RGBA");
    assert_eq!(t.p_textureBitSize(), 4);
}

#[test]
fn settimg_byte1_0x08_is_rgba_8() {
    let t = settimg_with_byte1(0x08);
    assert_eq!(t.p_textureFormatName(), "RGBA");
    assert_eq!(t.p_textureBitSize(), 8);
}

#[test]
fn settimg_rendering() {
    let w = [0xFD, 0x04, 0, 0, 0x00, 0x00, 0x10, 0x00];
    let c = DisplayListCommand::parse(w).unwrap();
    assert_eq!(c.psuedo_code(), "G_SETTIMG format:RGBA_4 segAddrOfTex:0x1000");
}

#[test]
fn dl_rendering() {
    let w = [0x06, 0x00, 0, 0, 0x00, 0x00, 0x00, 0x1F];
    let c = DisplayListCommand::parse(w).unwrap();
    assert_eq!(c.psuedo_code(), "G_DL storeReturnAddr:true branchAddr:0x1F");
    let w2 = [0x06, 0x01, 0, 0, 0xDE, 0xAD, 0xBE, 0xEF];
    let c2 = DisplayListCommand::parse(w2).unwrap();
    assert_eq!(c2.psuedo_code(), "G_DL storeReturnAddr:false branchAddr:0xDEADBEEF");
}

#[test]
fn vtx_fields_and_rendering() {
    let w = [0x04, 6, 0xFF, 0xFF, 0x12, 0x34, 0x56, 0x78];
    match DisplayListCommand::parse(w).unwrap() {
        DisplayListCommand::G_VTX(v) => {
            assert_eq!(v.m_vertex_start, 6);
            assert_eq!(v.m_count, 0xFC);
            // byte 3's low bits or-ed with byte 4 without a shift, exactly as
            // the format is understood today
            assert_eq!(v.m_data_length, 0x13);
            assert_eq!(v.m_segmented_address, 0x12345678);
        }
        _ => panic!("expected G_VTX"),
    }
    let c = DisplayListCommand::parse(w).unwrap();
    assert_eq!(
        c.psuedo_code(),
        "G_VTX start:3 count:252 dataLen:0x13 segAddr:0x12345678"
    );
}

#[test]
fn tri2_rendering_halves_indices() {
    let w = [0xB1, 2, 4, 6, 0, 8, 10, 12];
    let c = DisplayListCommand::parse(w).unwrap();
    assert_eq!(c.psuedo_code(), "G_TRI2 [v1:1,v2:2,v3:3] [v4:4,v5:5,v6:6]");
}

#[test]
fn popmtx_rendering() {
    let w = [0xBD, 0x39, 0x00, 0x02, 0, 0, 0, 5];
    let c = DisplayListCommand::parse(w).unwrap();
    assert_eq!(c.psuedo_code(), "G_POPMTX count:5");
}

fn texture_cmd(w: [u8; 8]) -> G_TEXTURE {
    match DisplayListCommand::parse(w).unwrap() {
        DisplayListCommand::G_TEXTURE(t) => t,
        _ => panic!("expected G_TEXTURE"),
    }
}

#[test]
fn texture_fields_and_rendering() {
    let w = [0xBB, 0, 0x2B, 1, 0x00, 0x40, 0x00, 0x20];
    let t = texture_cmd(w);
    assert!(t.m_enable_or_disable_tile_descriptor);
    assert_eq!(t.m_tile_descriptor_to_enable_disable, 3);
    assert_eq!(t.m_max_mipmap_levels_other_than_first, 5);
    assert_eq!(t.m_scaling_factor_s, 64);
    assert_eq!(t.m_scaling_factor_t, 32);
    let c = DisplayListCommand::parse(w).unwrap();
    assert_eq!(
        c.psuedo_code(),
        "G_TEXTURE enableTileDescriptor:3 scaleS:64 scaleT:32 mipmapLevels:6"
    );
}

#[test]
fn texture_rendering_disabled_tile() {
    let w = [0xBB, 0, 0x01, 0, 0x00, 0x01, 0x00, 0x02];
    let c = DisplayListCommand::parse(w).unwrap();
    assert_eq!(
        c.psuedo_code(),
        "G_TEXTURE disableTileDescriptor:1 scaleS:1 scaleT:2 mipmapLevels:1"
    );
}

#[test]
fn plain_command_renderings() {
    let cases: [(u8, &str); 9] = [
        (0x00, "G_SPNOOP"),
        (0xB6, "G_CLEARGEOMETRYMODE [TODO: flags]"),
        (0xB7, "G_SETGEOMETRYMODE [TODO: flags]"),
        (0xB8, "G_ENDDL"),
        (0xB9, "G_SetOtherMode_L [TODO:flags]"),
        (0xBA, "G_SetOtherMode_H [TODO:flags]"),
        (0xE7, "G_RDPPIPESYNC"),
        (0xFC, "G_SETCOMBINE [TODO: flags]"),
        (0xFE, "UNKNOWN [254, 0, 0, 0, 0, 0, 0, 0]"),
    ];
    for (op, expected) in cases.iter() {
        let c = DisplayListCommand::parse([*op, 0, 0, 0, 0, 0, 0, 0]).unwrap();
        assert_eq!(c.psuedo_code(), *expected);
    }
}

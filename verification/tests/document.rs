use potato_stamps::scene::document::{
    decode_scene_document, is_finite_bits, parse_decimal, parse_hex_bits, PositionBits,
    SceneError, Tokens,
};
use potato_stamps::scene::{decode_palette_rgba, COLOR_TEXTURE_BYTES};

/// Four copies of one counter-clockwise stamp, written the way the authored
/// document writes them.
fn stamp_positions() -> Vec<[f32; 5]> {
    let mut positions = Vec::new();
    for stamp in 0..4 {
        let offset = stamp as f32 * 0.25 - 0.5;
        positions.push([offset, offset, 0.0, stamp as f32, 0.0]);
        positions.push([offset + 0.2, offset, 0.0, stamp as f32, 0.0]);
        positions.push([offset, offset + 0.2, 0.0, stamp as f32, 0.0]);
    }
    positions
}

fn document_text(positions: &[[f32; 5]], indices: &[&str], trailer: &str) -> String {
    let mut text = String::from("POTATO-STAMPS/2\n12\n");
    for position in positions {
        for component in position {
            text.push_str(&format!("{:08X} ", component.to_bits()));
        }
        text.push('\n');
    }
    text.push_str("TRIANGLES\n");
    for index in indices {
        text.push_str(index);
        text.push(' ');
    }
    text.push_str(trailer);
    text
}

const INDICES: [&str; 12] = ["0", "1", "2", "3", "4", "5", "6", "7", "8", "9", "10", "11"];

#[test]
fn well_formed_document_decodes_to_its_bits_and_indices() {
    let positions = stamp_positions();
    let text = document_text(&positions, &INDICES, "\n");
    let document = decode_scene_document(text.as_bytes()).unwrap();
    assert_eq!(document.positions.len(), 12);
    assert_eq!(
        document.positions[1],
        PositionBits {
            x: positions[1][0].to_bits(),
            y: positions[1][1].to_bits(),
            z: 0.0f32.to_bits(),
            texture_u: 0.0f32.to_bits(),
            texture_v: 0.0f32.to_bits(),
        }
    );
    assert_eq!(f32::from_bits(document.positions[4].texture_u), 1.0);
    assert_eq!(document.indices, (0..12).collect::<Vec<u32>>());
}

#[test]
fn header_must_come_first() {
    assert_eq!(decode_scene_document(b""), Err(SceneError::Header));
    assert_eq!(decode_scene_document(b"   \n\t"), Err(SceneError::Header));
    assert_eq!(decode_scene_document(b"POTATO-STAMPS/1 12"), Err(SceneError::Header));
    let text = document_text(&stamp_positions(), &INDICES, "");
    let lower = text.replacen("POTATO-STAMPS/2", "potato-stamps/2", 1);
    assert_eq!(decode_scene_document(lower.as_bytes()), Err(SceneError::Header));
}

#[test]
fn vertex_count_must_be_twelve() {
    assert_eq!(decode_scene_document(b"POTATO-STAMPS/2"), Err(SceneError::VertexCount));
    assert_eq!(decode_scene_document(b"POTATO-STAMPS/2 11"), Err(SceneError::VertexCount));
    assert_eq!(decode_scene_document(b"POTATO-STAMPS/2 1x"), Err(SceneError::VertexCount));
    assert_eq!(
        decode_scene_document(b"POTATO-STAMPS/2 99999999999"),
        Err(SceneError::VertexCount)
    );
}

#[test]
fn positions_must_be_finite_eight_digit_hex() {
    assert_eq!(decode_scene_document(b"POTATO-STAMPS/2 12"), Err(SceneError::Position));
    let good = document_text(&stamp_positions(), &INDICES, "");
    let first_token = format!("{:08X}", stamp_positions()[0][0].to_bits());
    for replacement in ["7F800000", "FF800000", "7FC00000", "3F80000", "3F8000000", "3F80000G"] {
        let text = good.replacen(&first_token, replacement, 1);
        assert_eq!(decode_scene_document(text.as_bytes()), Err(SceneError::Position));
    }
    let lower = good.replacen(&first_token, &first_token.to_lowercase(), 1);
    assert!(decode_scene_document(lower.as_bytes()).is_ok());
}

#[test]
fn triangle_indices_follow_the_marker_and_stay_below_twelve() {
    let positions = stamp_positions();
    let no_marker = document_text(&positions, &INDICES, "").replacen("TRIANGLES", "TRIANGLE", 1);
    assert_eq!(decode_scene_document(no_marker.as_bytes()), Err(SceneError::Indices));
    let mut large = INDICES;
    large[5] = "12";
    let text = document_text(&positions, &large, "");
    assert_eq!(decode_scene_document(text.as_bytes()), Err(SceneError::Indices));
    let text = document_text(&positions, &INDICES[..11], "");
    assert_eq!(decode_scene_document(text.as_bytes()), Err(SceneError::Indices));
    let mut signed = INDICES;
    signed[0] = "-0";
    let text = document_text(&positions, &signed, "");
    assert_eq!(decode_scene_document(text.as_bytes()), Err(SceneError::Indices));
}

#[test]
fn nothing_may_follow_the_last_index() {
    let text = document_text(&stamp_positions(), &INDICES, "0");
    assert_eq!(decode_scene_document(text.as_bytes()), Err(SceneError::TrailingData));
    let text = document_text(&stamp_positions(), &INDICES, " \r\n\t ");
    assert!(decode_scene_document(text.as_bytes()).is_ok());
}

#[test]
fn scene_errors_have_messages() {
    assert_eq!(SceneError::Header.message(), "invalid Potato Stamps scene header");
    assert_eq!(SceneError::VertexCount.message(), "invalid Potato Stamps vertex count");
    assert_eq!(
        SceneError::Position.message(),
        "invalid Potato Stamps position or texture selector"
    );
    assert_eq!(SceneError::Indices.message(), "invalid Potato Stamps triangle indices");
    assert_eq!(SceneError::TrailingData.message(), "unexpected Potato Stamps scene data");
}

#[test]
fn tokens_split_on_ascii_whitespace() {
    let mut tokens = Tokens::new(b" \tab\x0cc\r\n  d ");
    assert_eq!(tokens.next(), Some(&b"ab"[..]));
    assert_eq!(tokens.next(), Some(&b"c"[..]));
    assert_eq!(tokens.next(), Some(&b"d"[..]));
    assert_eq!(tokens.next(), None);
    assert_eq!(tokens.next(), None);
    let mut empty = Tokens::new(b"");
    assert_eq!(empty.next(), None);
    let mut vertical_tab = Tokens::new(b"a\x0bb c");
    assert_eq!(vertical_tab.next(), Some(&b"a\x0bb"[..]));
    assert_eq!(vertical_tab.next(), Some(&b"c"[..]));
    for byte in 0..=255u8 {
        let bytes = [b'x', byte, b'y'];
        let mut tokens = Tokens::new(&bytes);
        let first = tokens.next().unwrap();
        assert_eq!(first.len() == 1, byte.is_ascii_whitespace());
    }
}

#[test]
fn decimal_tokens_fit_u32() {
    assert_eq!(parse_decimal(Some(b"0")), Some(0));
    assert_eq!(parse_decimal(Some(b"0012")), Some(12));
    assert_eq!(parse_decimal(Some(b"4294967295")), Some(u32::MAX));
    assert_eq!(parse_decimal(Some(b"4294967296")), None);
    assert_eq!(parse_decimal(Some(b"42949672950")), None);
    assert_eq!(parse_decimal(Some(b"99999999999x")), None);
    assert_eq!(parse_decimal(Some(b"12a")), None);
    assert_eq!(parse_decimal(Some(b"+1")), None);
    assert_eq!(parse_decimal(Some(b"")), None);
    assert_eq!(parse_decimal(None), None);
}

#[test]
fn hex_tokens_are_eight_digits_of_either_case() {
    assert_eq!(parse_hex_bits(Some(b"3F800000")), Some(0x3F80_0000));
    assert_eq!(parse_hex_bits(Some(b"deadBEEF")), Some(0xDEAD_BEEF));
    assert_eq!(parse_hex_bits(Some(b"FFFFFFFF")), Some(u32::MAX));
    assert_eq!(parse_hex_bits(Some(b"0000000")), None);
    assert_eq!(parse_hex_bits(Some(b"000000000")), None);
    assert_eq!(parse_hex_bits(Some(b"0000000g")), None);
    assert_eq!(parse_hex_bits(None), None);
    assert_eq!(f32::from_bits(parse_hex_bits(Some(b"BF000000")).unwrap()), -0.5);
}

#[test]
fn finite_bits_agree_with_f32() {
    let samples = [
        0u32, 1, 0x3F80_0000, 0x7F7F_FFFF, 0x7F80_0000, 0xFF80_0000, 0x7FC0_0000, 0x7F80_0001,
        0xFFFF_FFFF, 0x8000_0000, 0x0080_0000, 0xFF7F_FFFF,
    ];
    for bits in samples {
        assert_eq!(is_finite_bits(bits), f32::from_bits(bits).is_finite());
    }
    for step in 0..=0xFFFFu32 {
        let bits = step.wrapping_mul(0x0001_0001);
        assert_eq!(is_finite_bits(bits), f32::from_bits(bits).is_finite());
    }
}

#[test]
fn authored_palette_is_red_green_blue_yellow() {
    let palette = decode_palette_rgba(&COLOR_TEXTURE_BYTES).unwrap();
    assert_eq!(
        palette,
        [
            u32::from_le_bytes([255, 0, 0, 255]),
            u32::from_le_bytes([0, 255, 0, 255]),
            u32::from_le_bytes([0, 0, 255, 255]),
            u32::from_le_bytes([255, 255, 0, 255]),
        ]
    );
    assert_eq!(palette[0], 0xFF00_00FF);
}

#[test]
fn palette_rejects_other_bitmaps() {
    assert_eq!(decode_palette_rgba(&COLOR_TEXTURE_BYTES[..69]), None);
    let mut longer = COLOR_TEXTURE_BYTES.to_vec();
    longer.push(0);
    assert_eq!(decode_palette_rgba(&longer), None);
    let mut signature = COLOR_TEXTURE_BYTES;
    signature[1] = b'N';
    assert_eq!(decode_palette_rgba(&signature), None);
    let mut width = COLOR_TEXTURE_BYTES;
    width[18] = 5;
    assert_eq!(decode_palette_rgba(&width), None);
    let mut height = COLOR_TEXTURE_BYTES;
    height[22] = 2;
    assert_eq!(decode_palette_rgba(&height), None);
    let mut pixels = COLOR_TEXTURE_BYTES;
    pixels[54] = 7;
    assert_eq!(decode_palette_rgba(&pixels).unwrap()[0], 0xFF07_00FF);
}

#[test]
fn tokens_hand_out_each_run_then_none() {
    let mut tokens = Tokens::new(b"  ab \n\tc ");
    assert_eq!(tokens.next(), Some(&b"ab"[..]));
    assert_eq!(tokens.next(), Some(&b"c"[..]));
    assert_eq!(tokens.next(), None);
    assert_eq!(tokens.next(), None);
}

/// The document printed with single spaces: header, count, `{:08X}` of every
/// component's bits, the marker, then every index in decimal.
fn printed_document(positions: &[[f32; 5]], indices: &[u32]) -> String {
    let mut words = vec![String::from("POTATO-STAMPS/2"), String::from("12")];
    for position in positions {
        for component in position {
            words.push(format!("{:08X}", component.to_bits()));
        }
    }
    words.push(String::from("TRIANGLES"));
    for index in indices {
        words.push(format!("{}", index));
    }
    words.join(" ")
}

#[test]
fn printed_document_decodes_to_the_same_bits_and_indices() {
    let positions = stamp_positions();
    let indices: Vec<u32> = vec![2, 0, 1, 3, 4, 5, 8, 6, 7, 11, 10, 9];
    let text = printed_document(&positions, &indices);
    let document = decode_scene_document(text.as_bytes()).unwrap();
    for (vertex, position) in positions.iter().enumerate() {
        let decoded = document.positions[vertex];
        assert_eq!(decoded.x, position[0].to_bits());
        assert_eq!(decoded.y, position[1].to_bits());
        assert_eq!(decoded.z, position[2].to_bits());
        assert_eq!(decoded.texture_u, position[3].to_bits());
        assert_eq!(decoded.texture_v, position[4].to_bits());
    }
    assert_eq!(document.indices, indices);
}

#[test]
fn negative_and_small_components_round_trip_through_hex() {
    let mut positions = stamp_positions();
    positions[0] = [-0.0, f32::MIN_POSITIVE, -1.5e-30, 3.0e38, -7.25];
    let text = printed_document(&positions, &(0..12).collect::<Vec<u32>>());
    let document = decode_scene_document(text.as_bytes()).unwrap();
    assert_eq!(document.positions[0].x, 0x8000_0000);
    assert_eq!(document.positions[0].y, f32::MIN_POSITIVE.to_bits());
    assert_eq!(document.positions[0].z, (-1.5e-30f32).to_bits());
    assert_eq!(document.positions[0].texture_u, 3.0e38f32.to_bits());
    assert_eq!(document.positions[0].texture_v, (-7.25f32).to_bits());
}

#[test]
fn whitespace_layout_does_not_change_the_decoded_document() {
    let positions = stamp_positions();
    let indices: Vec<u32> = (0..12).rev().collect();
    let single = printed_document(&positions, &indices);
    let expected = decode_scene_document(single.as_bytes());
    assert!(expected.is_ok());
    let runs = [" ", "\t", "\n", "\r\n", "\x0c", "  \t\n "];
    let mut relaid = String::from("\n\t ");
    for (position, word) in single.split(' ').enumerate() {
        if position > 0 {
            relaid.push_str(runs[position % runs.len()]);
        }
        relaid.push_str(word);
    }
    relaid.push_str(" \r\n");
    assert_eq!(decode_scene_document(relaid.as_bytes()), expected);
    let first = decode_scene_document(document_text(&positions, &INDICES, "").as_bytes());
    let second = decode_scene_document(document_text(&positions, &INDICES, "\n\n\t").as_bytes());
    assert_eq!(first, second);
}

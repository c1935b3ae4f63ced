use catalog_lookup::mbid::Mbid;
use uuid::Uuid;

const QUEEN: &str = "0383dadf-2a4e-4d10-a46a-e9e041da8eb3";
const BOHEMIAN_RHAPSODY: &str = "b1a9c0e9-d987-4042-ae91-78d6a3267d69";

const SAMPLES: [u128; 6] = [
    0,
    1,
    u128::MAX,
    0x0383dadf_2a4e_4d10_a46a_e9e041da8eb3,
    0xa1a2a3a4_b1b2_c1c2_d1d2_d3d4d5d6d7d8,
    0x0123456789abcdef_fedcba9876543210,
];

fn is_canonical(text: &str) -> bool {
    let bytes = text.as_bytes();
    bytes.len() == 36
        && bytes.iter().enumerate().all(|(i, b)| match i {
            8 | 13 | 18 | 23 => *b == b'-',
            _ => b.is_ascii_digit() || (b'a'..=b'f').contains(b),
        })
}

#[test]
fn it_works() {
    let result = 2 + 2;
    assert_eq!(result, 4);
}

#[test]
fn lib_it_works() {
    assert_eq!(2 + 2, 4);
}

#[test]
fn to_and_from_uuid() {
    for raw in SAMPLES {
        let uuid = Uuid::from_u128(raw);
        let mbid = Mbid::from(uuid);
        assert_eq!(mbid.as_uuid(), uuid);
        assert_eq!(mbid.as_u128(), raw);
        assert_eq!(mbid, Mbid::from_u128(raw));
    }
}

#[test]
fn from_string() {
    for text in [QUEEN, BOHEMIAN_RHAPSODY, "00000000-0000-0000-0000-000000000000"] {
        assert!(Mbid::try_from(text).is_ok());
        assert!(Mbid::from_str(text).is_ok());
    }
}

#[test]
fn to_string() {
    for raw in SAMPLES {
        let text = Mbid::from_u128(raw).to_string();
        assert!(is_canonical(&text), "{}", text);
    }
}

#[test]
fn to_and_from_string() {
    for raw in SAMPLES {
        let mbid = Mbid::from_u128(raw);
        let text = mbid.to_string();
        let new = Mbid::try_from(&text).unwrap();
        assert_eq!(mbid, new);
    }
}

#[test]
fn example_identifier_renders_to_itself() {
    let mbid = Mbid::try_from(QUEEN).unwrap();
    assert_eq!(mbid.to_string(), QUEEN);
    assert_eq!(mbid.as_u128(), 0x0383dadf_2a4e_4d10_a46a_e9e041da8eb3);
    let other = Mbid::try_from(BOHEMIAN_RHAPSODY).unwrap();
    assert_eq!(other.to_string(), BOHEMIAN_RHAPSODY);
    assert_ne!(mbid, other);
}

#[test]
fn renders_exact_texts() {
    assert_eq!(Mbid::from_u128(0).to_string(), "00000000-0000-0000-0000-000000000000");
    assert_eq!(Mbid::from_u128(1).to_string(), "00000000-0000-0000-0000-000000000001");
    assert_eq!(Mbid::from_u128(u128::MAX).to_string(), "ffffffff-ffff-ffff-ffff-ffffffffffff");
    assert_eq!(
        Mbid::from_u128(0xa1a2a3a4_b1b2_c1c2_d1d2_d3d4d5d6d7d8).to_string(),
        "a1a2a3a4-b1b2-c1c2-d1d2-d3d4d5d6d7d8"
    );
    assert_eq!(
        Mbid::from_u128(0x0123456789abcdef_fedcba9876543210).to_string(),
        "01234567-89ab-cdef-fedc-ba9876543210"
    );
}

#[test]
fn parses_exact_values() {
    let value = 0xa1a2a3a4_b1b2_c1c2_d1d2_d3d4d5d6d7d8u128;
    for text in [
        "a1a2a3a4-b1b2-c1c2-d1d2-d3d4d5d6d7d8",
        "A1A2A3A4-B1B2-C1C2-D1D2-D3D4D5D6D7D8",
        "a1a2A3a4-b1B2-c1c2-D1d2-d3d4d5d6D7d8",
        "a1a2a3a4b1b2c1c2d1d2d3d4d5d6d7d8",
        "A1A2A3A4B1B2C1C2D1D2D3D4D5D6D7D8",
        "{a1a2a3a4-b1b2-c1c2-d1d2-d3d4d5d6d7d8}",
        "urn:uuid:a1a2a3a4-b1b2-c1c2-d1d2-d3d4d5d6d7d8",
        "URN:UUID:a1a2a3a4-b1b2-c1c2-d1d2-d3d4d5d6d7d8",
        "Urn:uuId:A1a2a3a4-b1b2-c1c2-d1d2-d3d4d5d6d7d8",
    ] {
        let mbid = Mbid::try_from(text).unwrap();
        assert_eq!(mbid.as_u128(), value, "{}", text);
        assert_eq!(mbid.to_string(), "a1a2a3a4-b1b2-c1c2-d1d2-d3d4d5d6d7d8");
    }
}

#[test]
fn rejects_what_is_no_identifier() {
    for text in [
        "",
        "0383dadf",
        "0383dadf-2a4e-4d10-a46a-e9e041da8eb",
        "0383dadf-2a4e-4d10-a46a-e9e041da8eb3a",
        "0383dadf-2a4e-4d10-a46a-e9e041da8ebg",
        "0383dadf2-a4e-4d10-a46a-e9e041da8eb3",
        "0383dadf_2a4e_4d10_a46a_e9e041da8eb3",
        "0383dadf-2a4e-4d10-a46a-e9e041da8eb3-",
        "0383dadf2a4e4d10a46ae9e041da8eb",
        "0383dadf2a4e4d10a46ae9e041da8ebz",
        "0383dadf-2a4e4d10a46ae9e041da8eb3",
        "{0383dadf-2a4e-4d10-a46a-e9e041da8eb3",
        "{0383dadf-2a4e-4d10-a46a-e9e041da8eb3]",
        "(0383dadf-2a4e-4d10-a46a-e9e041da8eb3)",
        "{0383dadf2a4e4d10a46ae9e041da8eb3}",
        "urn:uuid-0383dadf-2a4e-4d10-a46a-e9e041da8eb3",
        "urn:guid:0383dadf-2a4e-4d10-a46a-e9e041da8eb3",
        "urn:uuid:0383dadf2a4e4d10a46ae9e041da8eb3",
        "0383dadf-2a4e-4d10-a46a-e9e041da8e\u{e9}3",
        "\u{e9}383dadf2a4e4d10a46ae9e041da8eb",
        "\u{ff10}383dadf-2a4e-4d10-a46a-e9e041da8eb3",
        " 0383dadf-2a4e-4d10-a46a-e9e041da8eb3",
    ] {
        assert!(Mbid::try_from(text).is_err(), "{:?}", text);
        assert!(Mbid::from_str(text).is_err(), "{:?}", text);
    }
}

#[test]
fn parse_render_parse_is_stable() {
    for text in [
        QUEEN,
        "0383DADF-2A4E-4D10-A46A-E9E041DA8EB3",
        "0383dadf2a4e4d10a46ae9e041da8eb3",
        "{0383dadf-2a4e-4d10-a46a-e9e041da8eb3}",
        "urn:uuid:0383dadf-2a4e-4d10-a46a-e9e041da8eb3",
    ] {
        let first = Mbid::try_from(text).unwrap();
        let again = Mbid::try_from(first.to_string().as_str()).unwrap();
        assert_eq!(first, again);
        assert_eq!(again.to_string(), QUEEN);
    }
}

#[test]
fn the_error_keeps_its_source() {
    let error = Mbid::try_from("not an identifier").unwrap_err();
    assert_eq!(error.source, Uuid::parse_str("not an identifier").unwrap_err());
}

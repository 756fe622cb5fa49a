use cw20_taxed::error::ContractError;
use cw20_taxed::logo::{
    verify_logo, verify_png_logo, verify_xml_logo, verify_xml_preamble, EmbeddedLogo, Logo,
    LOGO_SIZE_CAP,
};

const PNG_HEADER: [u8; 8] = [0x89, b'P', b'N', b'G', 0x0d, 0x0a, 0x1a, 0x0a];

#[test]
fn xml_preamble_accepts_a_declaration() {
    assert_eq!(verify_xml_preamble(b"<?xml version=\"1.0\"?><svg></svg>"), Ok(()));
    assert_eq!(verify_xml_preamble(b"<?xml ?>"), Ok(()));
}

#[test]
fn xml_preamble_rejects_what_is_not_one() {
    let bad: [&[u8]; 6] = [b"", b"<svg></svg>", b"<?xml>", b"<?xml version=\"1.0\">", b"<?xml ", b"?>"];
    for d in bad {
        assert_eq!(verify_xml_preamble(d), Err(ContractError::InvalidXmlPreamble));
    }
}

#[test]
fn xml_preamble_looks_only_at_the_first_piece() {
    // the first '>' closes the preamble
    assert_eq!(
        verify_xml_preamble(b"<?xml a>b?>"),
        Err(ContractError::InvalidXmlPreamble)
    );
    // without any '>' the whole text is the preamble
    assert_eq!(verify_xml_preamble(b"<?xml a"), Err(ContractError::InvalidXmlPreamble));
}

#[test]
fn xml_logo_checks_preamble_then_size() {
    let mut big = b"<?xml version=\"1.0\"?>".to_vec();
    big.resize(LOGO_SIZE_CAP + 1, b'x');
    assert_eq!(verify_xml_logo(&big), Err(ContractError::LogoTooBig));
    big.truncate(LOGO_SIZE_CAP);
    assert_eq!(verify_xml_logo(&big), Ok(()));
    let mut bad = vec![b'x'; LOGO_SIZE_CAP + 1];
    bad[0] = b'<';
    assert_eq!(verify_xml_logo(&bad), Err(ContractError::InvalidXmlPreamble));
}

#[test]
fn png_logo_checks_size_then_header() {
    assert_eq!(verify_png_logo(&PNG_HEADER), Ok(()));
    assert_eq!(verify_png_logo(&PNG_HEADER[..7]), Err(ContractError::InvalidPngHeader));
    let mut big = PNG_HEADER.to_vec();
    big.resize(LOGO_SIZE_CAP + 1, 0);
    assert_eq!(verify_png_logo(&big), Err(ContractError::LogoTooBig));
    big.truncate(LOGO_SIZE_CAP);
    assert_eq!(verify_png_logo(&big), Ok(()));
    let junk = vec![0u8; LOGO_SIZE_CAP + 1];
    assert_eq!(verify_png_logo(&junk), Err(ContractError::LogoTooBig));
}

#[test]
fn links_are_accepted() {
    assert_eq!(verify_logo(&Logo::Url("anything".to_string())), Ok(()));
    assert_eq!(
        verify_logo(&Logo::Embedded(EmbeddedLogo::Svg(b"<svg/>".to_vec()))),
        Err(ContractError::InvalidXmlPreamble)
    );
    assert_eq!(verify_logo(&Logo::Embedded(EmbeddedLogo::Png(PNG_HEADER.to_vec()))), Ok(()));
}

//! Checks on a token's logo: an SVG must open with an XML preamble, a PNG
//! with the PNG signature, and an embedded logo must stay under a size cap.
use vstd::prelude::*;
use crate::error::ContractError;

verus! {

/// The largest embedded logo, in bytes.
pub const LOGO_SIZE_CAP: usize = 5 * 1024;

/// A logo: a link, or an image held by the contract.
#[derive(Debug, Clone, PartialEq, Eq)]
pub enum Logo {
    Url(String),
    Embedded(EmbeddedLogo),
}

/// An embedded image.
#[derive(Debug, Clone, PartialEq, Eq)]
pub enum EmbeddedLogo {
    Svg(Vec<u8>),
    Png(Vec<u8>),
}

/// `<?xml ` (with its trailing space), as bytes.
pub open spec fn xml_prefix() -> Seq<u8> {
    seq![0x3cu8, 0x3fu8, 0x78u8, 0x6du8, 0x6cu8, 0x20u8]
}

/// `?>`, as bytes.
pub open spec fn xml_postfix() -> Seq<u8> {
    seq![0x3fu8, 0x3eu8]
}

/// The eight-byte PNG signature: `0x89`, `PNG`, CR, LF, `0x1a`, LF.
pub open spec fn png_header() -> Seq<u8> {
    seq![0x89u8, 0x50u8, 0x4eu8, 0x47u8, 0x0du8, 0x0au8, 0x1au8, 0x0au8]
}

/// The length of the data up to and including its first `>` (`0x3e`); all of it
/// when there is none.
pub open spec fn preamble_len(d: Seq<u8>) -> nat
    decreases d.len(),
{
    if d.len() == 0 {
        0
    } else if d[0] == 0x3eu8 {
        1
    } else {
        1 + preamble_len(d.subrange(1, d.len() as int))
    }
}

/// `d` opens with `p`.
pub open spec fn starts_with(d: Seq<u8>, p: Seq<u8>) -> bool {
    p.len() <= d.len() && d.subrange(0, p.len() as int) == p
}

/// `d` closes with `p`.
pub open spec fn ends_with(d: Seq<u8>, p: Seq<u8>) -> bool {
    p.len() <= d.len() && d.subrange(d.len() - p.len(), d.len() as int) == p
}

/// The data is not empty, and its first `>`-terminated piece opens with
/// `<?xml ` and closes with `?>`.
pub open spec fn has_xml_preamble(d: Seq<u8>) -> bool {
    let p = d.subrange(0, preamble_len(d) as int);
    d.len() > 0 && starts_with(p, xml_prefix()) && ends_with(p, xml_postfix())
}

/// The result of checking an SVG logo: its preamble first, then its size.
pub open spec fn svg_outcome(d: Seq<u8>) -> Result<(), ContractError> {
    if !has_xml_preamble(d) {
        Err(ContractError::InvalidXmlPreamble)
    } else if d.len() > LOGO_SIZE_CAP {
        Err(ContractError::LogoTooBig)
    } else {
        Ok(())
    }
}

/// The result of checking a PNG logo: its size first, then its signature.
pub open spec fn png_outcome(d: Seq<u8>) -> Result<(), ContractError> {
    if d.len() > LOGO_SIZE_CAP {
        Err(ContractError::LogoTooBig)
    } else if !starts_with(d, png_header()) {
        Err(ContractError::InvalidPngHeader)
    } else {
        Ok(())
    }
}

/// The result of checking a logo; a link is accepted as it is.
pub open spec fn logo_outcome(logo: Logo) -> Result<(), ContractError> {
    match logo {
        Logo::Url(_) => Ok(()),
        Logo::Embedded(EmbeddedLogo::Svg(d)) => svg_outcome(d@),
        Logo::Embedded(EmbeddedLogo::Png(d)) => png_outcome(d@),
    }
}

proof fn lemma_preamble_len(d: Seq<u8>, i: int)
    requires
        0 <= i <= d.len(),
        forall|j: int| 0 <= j < i ==> d[j] != 0x3eu8,
        i == d.len() || d[i] == 0x3eu8,
    ensures
        preamble_len(d) == if i == d.len() {
            i
        } else {
            i + 1
        },
    decreases i,
{
    if i > 0 {
        let t = d.subrange(1, d.len() as int);
        assert forall|j: int| 0 <= j < i - 1 implies t[j] != 0x3eu8 by {
            assert(t[j] == d[j + 1]);
        }
        lemma_preamble_len(t, i - 1);
    }
}

/// Whether `d[start..start + p.len()]` is `p`.
fn matches_at(d: &[u8], start: usize, p: &[u8]) -> (r: bool)
    requires
        start + p@.len() <= d@.len(),
    ensures
        r == (d@.subrange(start as int, start + p@.len()) == p@),
{
    let n = d.len();
    let mut i: usize = 0;
    while i < p.len()
        invariant
            n == d@.len(),
            start + p@.len() <= d@.len(),
            i <= p@.len(),
            forall|j: int| 0 <= j < i ==> d@[start + j] == p@[j],
        decreases p@.len() - i,
    {
        if d[start + i] != p[i] {
            assert(d@.subrange(start as int, start + p@.len())[i as int] != p@[i as int]);
            return false;
        }
        i = i + 1;
    }
    assert(d@.subrange(start as int, start + p@.len()) =~= p@);
    true
}

/// Checks that the data opens with an XML preamble.
pub fn verify_xml_preamble(data: &[u8]) -> (r: Result<(), ContractError>)
    ensures
        r == if has_xml_preamble(data@) {
            Ok(())
        } else {
            Err(ContractError::InvalidXmlPreamble)
        },
{
    if data.len() == 0 {
        return Err(ContractError::InvalidXmlPreamble);
    }
    let mut end: usize = 0;
    while end < data.len() && data[end] != 0x3eu8
        invariant
            end <= data@.len(),
            forall|j: int| 0 <= j < end ==> data@[j] != 0x3eu8,
        decreases data@.len() - end,
    {
        end = end + 1;
    }
    proof {
        lemma_preamble_len(data@, end as int);
    }
    let len: usize = if end < data.len() {
        end + 1
    } else {
        end
    };
    let ghost p = data@.subrange(0, len as int);
    let prefix: Vec<u8> = vec![0x3cu8, 0x3fu8, 0x78u8, 0x6du8, 0x6cu8, 0x20u8];
    let postfix: Vec<u8> = vec![0x3fu8, 0x3eu8];
    assert(prefix@ =~= xml_prefix());
    assert(postfix@ =~= xml_postfix());
    if len < prefix.len() || len < postfix.len() {
        return Err(ContractError::InvalidXmlPreamble);
    }
    let starts = matches_at(data, 0, prefix.as_slice());
    let ends = matches_at(data, len - postfix.len(), postfix.as_slice());
    assert(p.subrange(0, 6) =~= data@.subrange(0, 6));
    assert(p.subrange(len - 2, len as int) =~= data@.subrange(len - 2, len as int));
    if starts && ends {
        Ok(())
    } else {
        Err(ContractError::InvalidXmlPreamble)
    }
}

/// Checks an SVG logo: its preamble first, then its size.
pub fn verify_xml_logo(logo: &[u8]) -> (r: Result<(), ContractError>)
    ensures
        r == svg_outcome(logo@),
{
    verify_xml_preamble(logo)?;
    if logo.len() > LOGO_SIZE_CAP {
        Err(ContractError::LogoTooBig)
    } else {
        Ok(())
    }
}

/// Checks a PNG logo: its size first, then its signature.
pub fn verify_png_logo(logo: &[u8]) -> (r: Result<(), ContractError>)
    ensures
        r == png_outcome(logo@),
{
    if logo.len() > LOGO_SIZE_CAP {
        return Err(ContractError::LogoTooBig);
    }
    let header: Vec<u8> = vec![0x89u8, 0x50u8, 0x4eu8, 0x47u8, 0x0du8, 0x0au8, 0x1au8, 0x0au8];
    assert(header@ =~= png_header());
    if logo.len() < header.len() || !matches_at(logo, 0, header.as_slice()) {
        Err(ContractError::InvalidPngHeader)
    } else {
        Ok(())
    }
}

/// Checks a logo; a link is accepted as it is.
pub fn verify_logo(logo: &Logo) -> (r: Result<(), ContractError>)
    ensures
        r == logo_outcome(*logo),
{
    match logo {
        Logo::Embedded(EmbeddedLogo::Svg(d)) => verify_xml_logo(d.as_slice()),
        Logo::Embedded(EmbeddedLogo::Png(d)) => verify_png_logo(d.as_slice()),
        Logo::Url(_) => Ok(()),
    }
}

} // verus!

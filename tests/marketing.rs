use cw20_taxed::contract::{instantiate, InstantiateMsg, State};
use cw20_taxed::error::ContractError;
use cw20_taxed::logo::{EmbeddedLogo, Logo};
use cw20_taxed::marketing::{
    execute_update_marketing, execute_upload_logo, query_download_logo, query_marketing_info,
    DownloadLogoResponse, InstantiateMarketingInfo, LogoInfo, MarketingInfoResponse,
};

const PNG_HEADER: [u8; 8] = [0x89, b'P', b'N', b'G', 0x0d, 0x0a, 0x1a, 0x0a];

fn s(x: &str) -> String {
    x.to_string()
}

fn cash_token(marketing: &str) -> State {
    instantiate(InstantiateMsg {
        name: s("Cash Token"),
        symbol: s("CASH"),
        decimals: 9,
        initial_balances: vec![],
        mint: None,
        marketing: Some(InstantiateMarketingInfo {
            project: Some(s("Project")),
            description: Some(s("Description")),
            marketing: Some(s(marketing)),
            logo: Some(Logo::Url(s("url"))),
        }),
        tax_map: None,
    })
    .unwrap()
}

fn info(
    project: Option<&str>,
    description: Option<&str>,
    marketing: Option<&str>,
    logo: Option<LogoInfo>,
) -> MarketingInfoResponse {
    MarketingInfoResponse {
        project: project.map(s),
        description: description.map(s),
        marketing: marketing.map(s),
        logo,
    }
}

fn url(u: &str) -> Option<LogoInfo> {
    Some(LogoInfo::Url(s(u)))
}

#[test]
fn marketing_basic() {
    let state = cash_token("marketing");
    assert_eq!(
        query_marketing_info(&state),
        info(Some("Project"), Some("Description"), Some("marketing"), url("url"))
    );
    assert_eq!(query_download_logo(&state), Err(ContractError::NotFound));
}

#[test]
fn update_unauthorised() {
    let mut state = cash_token("marketing");
    let err = execute_update_marketing(
        &mut state,
        &s("creator"),
        Some(s("New project")),
        Some(s("Better description")),
        Some(s("creator")),
    )
    .unwrap_err();
    assert_eq!(err, ContractError::Unauthorized);
    assert_eq!(
        query_marketing_info(&state),
        info(Some("Project"), Some("Description"), Some("marketing"), url("url"))
    );
    assert_eq!(query_download_logo(&state), Err(ContractError::NotFound));
}

#[test]
fn update_project() {
    let mut state = cash_token("creator");
    let res =
        execute_update_marketing(&mut state, &s("creator"), Some(s("New project")), None, None)
            .unwrap();
    assert_eq!(res.messages, vec![]);
    assert_eq!(
        query_marketing_info(&state),
        info(Some("New project"), Some("Description"), Some("creator"), url("url"))
    );
    assert_eq!(query_download_logo(&state), Err(ContractError::NotFound));
}

#[test]
fn clear_project() {
    let mut state = cash_token("creator");
    let res = execute_update_marketing(&mut state, &s("creator"), Some(s("")), None, None).unwrap();
    assert_eq!(res.messages, vec![]);
    assert_eq!(
        query_marketing_info(&state),
        info(None, Some("Description"), Some("creator"), url("url"))
    );
    assert_eq!(query_download_logo(&state), Err(ContractError::NotFound));
}

#[test]
fn update_description() {
    let mut state = cash_token("creator");
    let res = execute_update_marketing(
        &mut state,
        &s("creator"),
        None,
        Some(s("Better description")),
        None,
    )
    .unwrap();
    assert_eq!(res.messages, vec![]);
    assert_eq!(
        query_marketing_info(&state),
        info(Some("Project"), Some("Better description"), Some("creator"), url("url"))
    );
    assert_eq!(query_download_logo(&state), Err(ContractError::NotFound));
}

#[test]
fn clear_description() {
    let mut state = cash_token("creator");
    let res = execute_update_marketing(&mut state, &s("creator"), None, Some(s("")), None).unwrap();
    assert_eq!(res.messages, vec![]);
    assert_eq!(
        query_marketing_info(&state),
        info(Some("Project"), None, Some("creator"), url("url"))
    );
    assert_eq!(query_download_logo(&state), Err(ContractError::NotFound));
}

#[test]
fn update_marketing() {
    let mut state = cash_token("creator");
    let res =
        execute_update_marketing(&mut state, &s("creator"), None, None, Some(s("marketing")))
            .unwrap();
    assert_eq!(res.messages, vec![]);
    assert_eq!(
        query_marketing_info(&state),
        info(Some("Project"), Some("Description"), Some("marketing"), url("url"))
    );
    assert_eq!(query_download_logo(&state), Err(ContractError::NotFound));
}

#[test]
fn clear_marketing() {
    let mut state = cash_token("creator");
    let res = execute_update_marketing(&mut state, &s("creator"), None, None, Some(s(""))).unwrap();
    assert_eq!(res.messages, vec![]);
    assert_eq!(
        query_marketing_info(&state),
        info(Some("Project"), Some("Description"), None, url("url"))
    );
    assert_eq!(query_download_logo(&state), Err(ContractError::NotFound));
}

#[test]
fn whitespace_clears_a_field() {
    let mut state = cash_token("creator");
    execute_update_marketing(&mut state, &s("creator"), Some(s(" \t\n ")), None, None).unwrap();
    assert_eq!(query_marketing_info(&state).project, None);
    execute_update_marketing(&mut state, &s("creator"), Some(s(" x ")), None, None).unwrap();
    assert_eq!(query_marketing_info(&state).project, Some(s(" x ")));
}

#[test]
fn update_logo_url() {
    let mut state = cash_token("creator");
    let res = execute_upload_logo(&mut state, &s("creator"), Logo::Url(s("new_url"))).unwrap();
    assert_eq!(res.messages, vec![]);
    assert_eq!(
        query_marketing_info(&state),
        info(Some("Project"), Some("Description"), Some("creator"), url("new_url"))
    );
    assert_eq!(query_download_logo(&state), Err(ContractError::NotFound));
}

#[test]
fn update_logo_png() {
    let mut state = cash_token("creator");
    let res = execute_upload_logo(
        &mut state,
        &s("creator"),
        Logo::Embedded(EmbeddedLogo::Png(PNG_HEADER.to_vec())),
    )
    .unwrap();
    assert_eq!(res.messages, vec![]);
    assert_eq!(
        query_marketing_info(&state),
        info(Some("Project"), Some("Description"), Some("creator"), Some(LogoInfo::Embedded))
    );
    assert_eq!(
        query_download_logo(&state),
        Ok(DownloadLogoResponse { mime_type: s("image/png"), data: PNG_HEADER.to_vec() })
    );
}

#[test]
fn update_logo_svg() {
    let mut state = cash_token("creator");
    let img = "<?xml version=\"1.0\"?><svg></svg>".as_bytes().to_vec();
    let res =
        execute_upload_logo(&mut state, &s("creator"), Logo::Embedded(EmbeddedLogo::Svg(img.clone())))
            .unwrap();
    assert_eq!(res.messages, vec![]);
    assert_eq!(
        query_marketing_info(&state),
        info(Some("Project"), Some("Description"), Some("creator"), Some(LogoInfo::Embedded))
    );
    assert_eq!(
        query_download_logo(&state),
        Ok(DownloadLogoResponse { mime_type: s("image/svg+xml"), data: img })
    );
}

fn assert_unchanged(state: &State) {
    assert_eq!(
        query_marketing_info(state),
        info(Some("Project"), Some("Description"), Some("creator"), url("url"))
    );
    assert_eq!(query_download_logo(state), Err(ContractError::NotFound));
}

#[test]
fn update_logo_png_oversized() {
    let mut state = cash_token("creator");
    let img = [&PNG_HEADER[..], &[1; 6000][..]].concat();
    let err = execute_upload_logo(&mut state, &s("creator"), Logo::Embedded(EmbeddedLogo::Png(img)))
        .unwrap_err();
    assert_eq!(err, ContractError::LogoTooBig);
    assert_unchanged(&state);
}

#[test]
fn update_logo_svg_oversized() {
    let mut state = cash_token("creator");
    let img = [
        "<?xml version=\"1.0\"?><svg>",
        std::str::from_utf8(&[b'x'; 6000]).unwrap(),
        "</svg>",
    ]
    .concat()
    .into_bytes();
    let err = execute_upload_logo(&mut state, &s("creator"), Logo::Embedded(EmbeddedLogo::Svg(img)))
        .unwrap_err();
    assert_eq!(err, ContractError::LogoTooBig);
    assert_unchanged(&state);
}

#[test]
fn update_logo_png_invalid() {
    let mut state = cash_token("creator");
    let err =
        execute_upload_logo(&mut state, &s("creator"), Logo::Embedded(EmbeddedLogo::Png(vec![1])))
            .unwrap_err();
    assert_eq!(err, ContractError::InvalidPngHeader);
    assert_unchanged(&state);
}

#[test]
fn update_logo_svg_invalid() {
    let mut state = cash_token("creator");
    let err =
        execute_upload_logo(&mut state, &s("creator"), Logo::Embedded(EmbeddedLogo::Svg(vec![1])))
            .unwrap_err();
    assert_eq!(err, ContractError::InvalidXmlPreamble);
    assert_unchanged(&state);
}

#[test]
fn upload_without_metadata_is_unauthorized() {
    let mut state = instantiate(InstantiateMsg {
        name: s("Cash Token"),
        symbol: s("CASH"),
        decimals: 9,
        initial_balances: vec![],
        mint: None,
        marketing: None,
        tax_map: None,
    })
    .unwrap();
    let err = execute_upload_logo(&mut state, &s("creator"), Logo::Url(s("u"))).unwrap_err();
    assert_eq!(err, ContractError::Unauthorized);
}

#[test]
fn clearing_every_field_removes_the_metadata() {
    let mut state = instantiate(InstantiateMsg {
        name: s("Cash Token"),
        symbol: s("CASH"),
        decimals: 9,
        initial_balances: vec![],
        mint: None,
        marketing: Some(InstantiateMarketingInfo {
            project: Some(s("Project")),
            description: None,
            marketing: Some(s("creator")),
            logo: None,
        }),
        tax_map: None,
    })
    .unwrap();
    execute_update_marketing(&mut state, &s("creator"), Some(s("")), None, Some(s(""))).unwrap();
    assert_eq!(query_marketing_info(&state), info(None, None, None, None));
    // with the metadata gone, nobody may change it
    assert_eq!(
        execute_update_marketing(&mut state, &s("creator"), Some(s("P")), None, None).err(),
        Some(ContractError::Unauthorized)
    );
}

#[test]
fn instantiate_rejects_an_invalid_logo() {
    let res = instantiate(InstantiateMsg {
        name: s("Cash Token"),
        symbol: s("CASH"),
        decimals: 9,
        initial_balances: vec![],
        mint: None,
        marketing: Some(InstantiateMarketingInfo {
            project: None,
            description: None,
            marketing: Some(s("creator")),
            logo: Some(Logo::Embedded(EmbeddedLogo::Png(vec![0; 10]))),
        }),
        tax_map: None,
    });
    assert_eq!(res.err(), Some(ContractError::InvalidPngHeader));
}

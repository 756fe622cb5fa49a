//! The token's marketing metadata and its logo.
use vstd::prelude::*;
use crate::contract::{ActionKind, Attribute, Response, State};
use crate::error::ContractError;
use crate::logo::{logo_outcome, verify_logo, EmbeddedLogo, Logo};

verus! {

/// What a stored logo is, as the marketing metadata reports it.
#[derive(Debug, Clone, PartialEq, Eq)]
pub enum LogoInfo {
    Url(String),
    Embedded,
}

/// The marketing metadata.
#[derive(Debug, Clone, PartialEq, Eq)]
pub struct MarketingInfoResponse {
    pub project: Option<String>,
    pub description: Option<String>,
    /// Who may change the metadata and the logo.
    pub marketing: Option<String>,
    pub logo: Option<LogoInfo>,
}

/// The marketing metadata given at creation.
#[derive(Debug, Clone, PartialEq, Eq)]
pub struct InstantiateMarketingInfo {
    pub project: Option<String>,
    pub description: Option<String>,
    pub marketing: Option<String>,
    pub logo: Option<Logo>,
}

/// An embedded logo and its media type.
#[derive(Debug, Clone, PartialEq, Eq)]
pub struct DownloadLogoResponse {
    pub mime_type: String,
    pub data: Vec<u8>,
}

/// The stored metadata and logo; either may be absent.
#[derive(Debug, Clone, PartialEq, Eq)]
pub struct Marketing {
    pub info: Option<MarketingInfoResponse>,
    pub logo: Option<Logo>,
}

/// The text with leading and trailing whitespace removed.
pub uninterp spec fn trim_of(s: Seq<char>) -> Seq<char>;

/// Relies on `str::trim`: the text without leading and trailing whitespace.
#[verifier::external_body]
fn trim(s: &String) -> (r: &str)
    ensures
        r@ == trim_of(s@),
{
    s.trim()
}

/// Whether the text holds nothing but whitespace.
pub open spec fn is_blank(s: Seq<char>) -> bool {
    trim_of(s).len() == 0
}

/// A field after an update: kept when no value is given, cleared by a
/// blank value, replaced otherwise.
pub open spec fn updated(current: Option<String>, given: Option<String>) -> Option<String> {
    match given {
        None => current,
        Some(v) => if is_blank(v@) {
            None
        } else {
            Some(v)
        },
    }
}

fn update_field(current: Option<String>, given: Option<String>) -> (r: Option<String>)
    ensures
        r == updated(current, given),
{
    match given {
        None => current,
        Some(v) => if trim(&v).is_empty() {
            None
        } else {
            Some(v)
        },
    }
}

/// What a logo reports as its kind.
pub open spec fn logo_info(logo: Logo) -> LogoInfo {
    match logo {
        Logo::Url(u) => LogoInfo::Url(u),
        Logo::Embedded(_) => LogoInfo::Embedded,
    }
}

fn info_of(logo: &Logo) -> (r: LogoInfo)
    ensures
        r == logo_info(*logo),
{
    match logo {
        Logo::Url(u) => LogoInfo::Url(u.clone()),
        Logo::Embedded(_) => LogoInfo::Embedded,
    }
}

/// The result of checking the marketing metadata given at creation: only
/// its logo can fail.
pub open spec fn marketing_outcome(msg: Option<InstantiateMarketingInfo>) -> Result<(), ContractError> {
    match msg {
        None => Ok(()),
        Some(m) => match m.logo {
            None => Ok(()),
            Some(l) => logo_outcome(l),
        },
    }
}

/// The marketing part of the state created from `msg`.
pub open spec fn marketing_of(msg: Option<InstantiateMarketingInfo>) -> Marketing {
    match msg {
        None => Marketing { info: None, logo: None },
        Some(m) => Marketing {
            info: Some(
                MarketingInfoResponse {
                    project: m.project,
                    description: m.description,
                    marketing: m.marketing,
                    logo: match m.logo {
                        Some(l) => Some(logo_info(l)),
                        None => None,
                    },
                },
            ),
            logo: m.logo,
        },
    }
}

/// Sets up the marketing metadata at creation; the logo, if any, must pass
/// its checks.
pub fn instantiate_marketing(msg: Option<InstantiateMarketingInfo>) -> (r: Result<
    Marketing,
    ContractError,
>)
    ensures
        r == match marketing_outcome(msg) {
            Err(e) => Err(e),
            Ok(_) => Ok(marketing_of(msg)),
        },
{
    match msg {
        None => Ok(Marketing { info: None, logo: None }),
        Some(m) => {
            let (logo, logo_kind) = match m.logo {
                None => (None, None),
                Some(l) => {
                    verify_logo(&l)?;
                    let kind = info_of(&l);
                    (Some(l), Some(kind))
                },
            };
            let info = MarketingInfoResponse {
                project: m.project,
                description: m.description,
                marketing: m.marketing,
                logo: logo_kind,
            };
            Ok(Marketing { info: Some(info), logo })
        },
    }
}

/// Whether `sender` may change the marketing metadata.
pub open spec fn is_marketing_admin(m: Marketing, sender: Seq<char>) -> bool {
    m.info is Some && m.info->0.marketing is Some && m.info->0.marketing->0@ == sender
}

/// Only the marketing part of the state differs.
pub open spec fn only_marketing_changed(prev: State, next: State) -> bool {
    &&& next.token == prev.token
    &&& next.balances == prev.balances
    &&& next.allowances == prev.allowances
    &&& next.tax_map == prev.tax_map
}

/// Updates the project, description and marketing address. Only the
/// marketing address may do so. A blank value clears its field; when
/// nothing is left, the metadata is removed.
pub fn execute_update_marketing(
    state: &mut State,
    sender: &String,
    project: Option<String>,
    description: Option<String>,
    marketing: Option<String>,
) -> (r: Result<Response, ContractError>)
    requires
        old(state).wf(),
    ensures
        final(state).wf(),
        !is_marketing_admin(old(state).marketing, sender@) ==> r == Err::<Response, ContractError>(
            ContractError::Unauthorized,
        ) && *final(state) == *old(state),
        is_marketing_admin(old(state).marketing, sender@) ==> {
            let cur = old(state).marketing.info->0;
            let next = MarketingInfoResponse {
                project: updated(cur.project, project),
                description: updated(cur.description, description),
                marketing: updated(cur.marketing, marketing),
                logo: cur.logo,
            };
            &&& r is Ok
            &&& final(state).marketing.info == if next.project is None && next.description is None
                && next.marketing is None && next.logo is None {
                None
            } else {
                Some(next)
            }
            &&& final(state).marketing.logo == old(state).marketing.logo
            &&& only_marketing_changed(*old(state), *final(state))
            &&& r->Ok_0.attributes@ == seq![Attribute::Action(ActionKind::UpdateMarketing)]
            &&& r->Ok_0.messages@.len() == 0
        },
{
    let authorized = match &state.marketing.info {
        Some(i) => match &i.marketing {
            Some(m) => *m == *sender,
            None => false,
        },
        None => false,
    };
    if !authorized {
        return Err(ContractError::Unauthorized);
    }
    let cur = state.marketing.info.take().unwrap();
    let next = MarketingInfoResponse {
        project: update_field(cur.project, project),
        description: update_field(cur.description, description),
        marketing: update_field(cur.marketing, marketing),
        logo: cur.logo,
    };
    if next.project.is_none() && next.description.is_none() && next.marketing.is_none()
        && next.logo.is_none() {
        state.marketing.info = None;
    } else {
        state.marketing.info = Some(next);
    }
    let mut response = Response { attributes: Vec::new(), messages: Vec::new() };
    response.attributes.push(Attribute::Action(ActionKind::UpdateMarketing));
    Ok(response)
}

/// Stores a new logo. The metadata must exist, the logo must pass its
/// checks, and only the marketing address may upload.
pub fn execute_upload_logo(state: &mut State, sender: &String, logo: Logo) -> (r: Result<
    Response,
    ContractError,
>)
    requires
        old(state).wf(),
    ensures
        final(state).wf(),
        old(state).marketing.info is None ==> r == Err::<Response, ContractError>(
            ContractError::Unauthorized,
        ) && *final(state) == *old(state),
        old(state).marketing.info is Some && logo_outcome(logo) is Err ==> r
            == Err::<Response, ContractError>(logo_outcome(logo)->Err_0)
            && *final(state) == *old(state),
        old(state).marketing.info is Some && logo_outcome(logo) is Ok
            && !is_marketing_admin(old(state).marketing, sender@) ==> r == Err::<
            Response,
            ContractError,
        >(ContractError::Unauthorized) && *final(state) == *old(state),
        old(state).marketing.info is Some && logo_outcome(logo) is Ok
            && is_marketing_admin(old(state).marketing, sender@) ==> {
            let cur = old(state).marketing.info->0;
            &&& r is Ok
            &&& final(state).marketing.logo == Some(logo)
            &&& final(state).marketing.info == Some(
                MarketingInfoResponse {
                    project: cur.project,
                    description: cur.description,
                    marketing: cur.marketing,
                    logo: Some(logo_info(logo)),
                },
            )
            &&& only_marketing_changed(*old(state), *final(state))
            &&& r->Ok_0.attributes@ == seq![Attribute::Action(ActionKind::UploadLogo)]
            &&& r->Ok_0.messages@.len() == 0
        },
{
    if state.marketing.info.is_none() {
        return Err(ContractError::Unauthorized);
    }
    verify_logo(&logo)?;
    let authorized = match &state.marketing.info {
        Some(i) => match &i.marketing {
            Some(m) => *m == *sender,
            None => false,
        },
        None => false,
    };
    if !authorized {
        return Err(ContractError::Unauthorized);
    }
    let mut cur = state.marketing.info.take().unwrap();
    cur.logo = Some(info_of(&logo));
    state.marketing.info = Some(cur);
    state.marketing.logo = Some(logo);
    let mut response = Response { attributes: Vec::new(), messages: Vec::new() };
    response.attributes.push(Attribute::Action(ActionKind::UploadLogo));
    Ok(response)
}

fn copy_text(s: &Option<String>) -> (r: Option<String>)
    ensures
        r == *s,
{
    match s {
        Some(t) => Some(t.clone()),
        None => None,
    }
}

/// The marketing metadata; every field empty when there is none.
pub fn query_marketing_info(state: &State) -> (r: MarketingInfoResponse)
    ensures
        r == match state.marketing.info {
            Some(i) => i,
            None => MarketingInfoResponse {
                project: None,
                description: None,
                marketing: None,
                logo: None,
            },
        },
{
    match &state.marketing.info {
        Some(i) => MarketingInfoResponse {
            project: copy_text(&i.project),
            description: copy_text(&i.description),
            marketing: copy_text(&i.marketing),
            logo: match &i.logo {
                Some(LogoInfo::Url(u)) => Some(LogoInfo::Url(u.clone())),
                Some(LogoInfo::Embedded) => Some(LogoInfo::Embedded),
                None => None,
            },
        },
        None => MarketingInfoResponse {
            project: None,
            description: None,
            marketing: None,
            logo: None,
        },
    }
}

/// The embedded logo and its media type; `NotFound` when there is no logo
/// or only a link.
pub fn query_download_logo(state: &State) -> (r: Result<DownloadLogoResponse, ContractError>)
    ensures
        match state.marketing.logo {
            Some(Logo::Embedded(EmbeddedLogo::Svg(d))) => r is Ok && r->Ok_0.mime_type@
                == "image/svg+xml"@ && r->Ok_0.data@ == d@,
            Some(Logo::Embedded(EmbeddedLogo::Png(d))) => r is Ok && r->Ok_0.mime_type@
                == "image/png"@ && r->Ok_0.data@ == d@,
            _ => r == Err::<DownloadLogoResponse, ContractError>(ContractError::NotFound),
        },
{
    match &state.marketing.logo {
        Some(Logo::Embedded(EmbeddedLogo::Svg(d))) => {
            let data = d.clone();
            assert(data@ =~= d@);
            Ok(DownloadLogoResponse { mime_type: "image/svg+xml".to_owned(), data })
        },
        Some(Logo::Embedded(EmbeddedLogo::Png(d))) => {
            let data = d.clone();
            assert(data@ =~= d@);
            Ok(DownloadLogoResponse { mime_type: "image/png".to_owned(), data })
        },
        _ => Err(ContractError::NotFound),
    }
}

} // verus!

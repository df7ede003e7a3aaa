//! The page composer: root-config resolution, the render model, and the
//! response envelope with its mandatory no-store cache headers.

use vstd::prelude::*;

use crate::config::Config;
use crate::error::Error;
use crate::json::JsonFieldFailure;
use crate::json::json_string_field;
use crate::json::parse_string_field;
use crate::manifest::AssetImport;
use crate::manifest::FetchOutcome;
use crate::manifest::RootConfig;
use crate::manifest::agg_css;
use crate::manifest::agg_portals;
use crate::manifest::aggregate_manifests;
use crate::manifest::aggregation_ok;
use crate::manifest::outcome_msg_matches;
use crate::manifest::outcome_files;
use crate::string_map::StringMap;
use crate::vendor::get_lib_import_map;
use crate::vendor::vendor_import_map_view;

verus! {

/// The message of the error reported when the root config file cannot be
/// read, carrying the read cause verbatim.
pub open spec fn root_read_failure_msg(cause: Seq<char>) -> Seq<char> {
    "Unable to read root config file - "@ + cause
}

/// The start of the message reported when the root config file does not
/// parse as a `{ url }` object; the parse cause follows it.
pub open spec fn root_parse_failure_prefix() -> Seq<char> {
    "Unable to parse root config file - "@
}

/// Resolves the root config from the text of the config file: the `url`
/// string of its top-level object, or a root-config error, naming the parse
/// cause, exactly when the text does not hold one.
pub fn get_root_config_url(body: &str) -> (r: Result<RootConfig, Error>)
    ensures
        match r {
            Ok(rc) => json_string_field(body@, "url"@) == Some(rc.url@),
            Err(e) => json_string_field(body@, "url"@) is None && (e matches
                Error::RootConfigError(msg) && root_parse_failure_prefix().is_prefix_of(msg@)),
        },
{
    match parse_string_field(body, "url") {
        Ok(url) => Ok(RootConfig { url }),
        Err(failure) => {
            let cause = match failure {
                JsonFieldFailure::Document(text) => text,
                JsonFieldFailure::Shape => "no url string in the document".to_owned(),
            };
            let mut msg = "Unable to parse root config file - ".to_owned();
            msg.push_str(cause.as_str());
            proof {
                let p = root_parse_failure_prefix();
                assert(msg@.subrange(0, p.len() as int) =~= p);
            }
            Err(Error::RootConfigError(msg))
        },
    }
}

/// The data the page template is rendered with. The two import maps are kept
/// separate: portal bundles and shared vendor libraries are two distinct
/// import-map documents in the rendered page.
#[derive(Debug)]
pub struct RenderModel {
    pub ga_tag_id: Option<String>,
    pub stripe_publishable_key: String,
    pub spa_config_url: String,
    pub portals: StringMap,
    pub import_map: StringMap,
    pub css_files: Vec<String>,
}

/// Assembles the render model from the aggregated assets, the root config
/// and the page secrets of the configuration. The analytics tag is carried
/// over verbatim, absent when the configuration leaves it absent.
pub fn compose_index(config: &Config, assets: AssetImport, root: RootConfig) -> (m: RenderModel)
    ensures
        m.ga_tag_id == config.ga_tag_id,
        m.stripe_publishable_key == config.stripe_publishable_key,
        m.spa_config_url == root.url,
        m.portals == assets.portals,
        m.css_files == assets.css_files,
        m.import_map@ == vendor_import_map_view(),
        m.import_map.wf(),
{
    let ga_tag_id = match &config.ga_tag_id {
        Some(tag) => Some(tag.clone()),
        None => None,
    };
    RenderModel {
        ga_tag_id,
        stripe_publishable_key: config.stripe_publishable_key.clone(),
        spa_config_url: root.url,
        portals: assets.portals,
        import_map: get_lib_import_map(),
        css_files: assets.css_files,
    }
}

/// Composes the index page's render model from the fetch outcomes and the
/// root config file's text (or the read failure's cause, when the file
/// could not be read).
///
/// All-or-nothing: the model exists exactly when every source yields a
/// manifest and the root config resolves; otherwise the request fails with
/// the first manifest error, or else the root-config error naming the read
/// or parse cause, and no partial model is ever produced.
pub fn compose_page(
    config: &Config,
    outcomes: &Vec<(String, FetchOutcome)>,
    root_body: Result<&str, &str>,
) -> (r: Result<RenderModel, Error>)
    ensures
        match r {
            Ok(m) => aggregation_ok(outcomes@) && (root_body matches Ok(body)
                && json_string_field(body@, "url"@) == Some(m.spa_config_url@)) && m.portals.wf()
                && m.portals@ == agg_portals(outcomes@) && m.css_files.deep_view() == agg_css(
                outcomes@,
            ) && m.import_map@ == vendor_import_map_view() && m.import_map.wf() && m.ga_tag_id
                == config.ga_tag_id && m.stripe_publishable_key == config.stripe_publishable_key,
            Err(e) => if !aggregation_ok(outcomes@) {
                exists|i: int|
                    0 <= i < outcomes@.len() && outcome_files((#[trigger] outcomes@[i]).1) is None
                        && (forall|j: int|
                        0 <= j < i ==> outcome_files((#[trigger] outcomes@[j]).1) is Some) && (
                    e matches Error::ManifestError(msg) && outcome_msg_matches(
                        outcomes@[i].0@,
                        outcomes@[i].1,
                        msg@,
                    ))
            } else if root_body is Err {
                (root_body matches Err(cause) && e matches Error::RootConfigError(msg) && msg@
                    == root_read_failure_msg(cause@))
            } else {
                (root_body matches Ok(body) && json_string_field(body@, "url"@) is None) && (
                e matches Error::RootConfigError(msg) && root_parse_failure_prefix().is_prefix_of(
                    msg@,
                ))
            },
        },
{
    let assets = match aggregate_manifests(outcomes) {
        Ok(assets) => assets,
        Err(e) => {
            return Err(e);
        },
    };
    let body = match root_body {
        Ok(body) => body,
        Err(cause) => {
            let mut msg = "Unable to read root config file - ".to_owned();
            msg.push_str(cause);
            return Err(Error::RootConfigError(msg));
        },
    };
    let root = match get_root_config_url(body) {
        Ok(root) => root,
        Err(e) => {
            return Err(e);
        },
    };
    Ok(compose_index(config, assets, root))
}

/// The composed page's response: status, headers, and the rendered document.
#[derive(Debug)]
pub struct PageResponse {
    pub status: u16,
    pub headers: Vec<(String, String)>,
    pub body: String,
}

/// The four cache-control headers the composed page always carries: clients
/// and intermediaries must never cache this document.
pub open spec fn no_store_headers_view() -> Seq<(Seq<char>, Seq<char>)> {
    seq![
        ("Surrogate-Control"@, "no-store"@),
        ("Cache-Control"@, "no-store, no-cache, must-revalidate, proxy-revalidate"@),
        ("Pragma"@, "no-cache"@),
        ("Expires"@, "0"@),
    ]
}

/// The no-store header list, verbatim.
pub fn no_store_headers() -> (r: Vec<(String, String)>)
    ensures
        r.deep_view() == no_store_headers_view(),
{
    let mut headers: Vec<(String, String)> = Vec::new();
    headers.push(("Surrogate-Control".to_owned(), "no-store".to_owned()));
    headers.push(
        (
            "Cache-Control".to_owned(),
            "no-store, no-cache, must-revalidate, proxy-revalidate".to_owned(),
        ),
    );
    headers.push(("Pragma".to_owned(), "no-cache".to_owned()));
    headers.push(("Expires".to_owned(), "0".to_owned()));
    proof {
        assert(headers.deep_view() =~= no_store_headers_view());
    }
    headers
}

/// Wraps a rendered document: status 200, and always all four no-store
/// header values verbatim, whatever the document holds.
pub fn build_page_response(html: String) -> (r: PageResponse)
    ensures
        r.status == 200,
        r.headers.deep_view() == no_store_headers_view(),
        r.body == html,
{
    PageResponse { status: 200, headers: no_store_headers(), body: html }
}

} // verus!

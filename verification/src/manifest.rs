//! Manifest fetching outcomes and their aggregation.
//!
//! One outbound fetch per portal source yields a `FetchOutcome`; evaluating
//! it gives the portal's `AssetManifest` or a manifest error naming the
//! portal. The aggregator folds the outcomes, in the fixed source order, into
//! one `AssetImport`: an import map keyed `@portal/<name>` and the ordered
//! list of stylesheet paths. The policy is all-or-nothing: the first failing
//! source fails the whole aggregation.

use vstd::prelude::*;

use crate::config::Config;
use crate::error::Error;
use crate::json::JsonFieldFailure;
use crate::json::json_string_map_field;
use crate::json::parse_string_map_field;
use crate::text::concat_strs;
use crate::text::decimal_seq;
use crate::text::push_decimal;
use crate::string_map::StringMap;
use crate::string_map::assoc_map;
use crate::string_map::lemma_assoc_map_push;

verus! {

/// The user agent every manifest fetch sends.
pub const USER_AGENT: &'static str =
    "Mozilla/5.0 (Windows NT 10.0; Win64; x64) AppleWebKit/537.36 (KHTML, like Gecko) Chrome/118.0.0.0 Safari/537.36";

/// The content type every manifest fetch sends.
pub const JSON_CONTENT_TYPE: &'static str = "application/json";

/// One portal's parsed build manifest: logical file name to served path.
#[derive(Debug)]
pub struct AssetManifest {
    pub files: StringMap,
}

/// The aggregated result: the portal import map and the stylesheet paths in
/// source order.
#[derive(Debug)]
pub struct AssetImport {
    pub portals: StringMap,
    pub css_files: Vec<String>,
}

/// The root orchestration config: the URL of the root script.
#[derive(Debug)]
pub struct RootConfig {
    pub url: String,
}

/// One entry of a build tool's manifest listing.
#[derive(Debug)]
pub struct AssetEntry {
    pub file: String,
    pub name: String,
    pub src: String,
    pub is_entry: bool,
}

/// The alternate root-config shape: the entry record of the root script.
#[derive(Debug)]
pub struct RootConfigV2 {
    pub entry: AssetEntry,
}

/// What one outbound manifest fetch came back with: a transport failure, or
/// a response with its HTTP status and body text.
#[derive(Debug)]
pub enum FetchOutcome {
    Transport(String),
    Response { status: u16, body: String },
}

/// HTTP success: a status in the 2xx range.
pub open spec fn success_status(status: u16) -> bool {
    200 <= status < 300
}

/// The import-map key of a portal.
pub open spec fn portal_key(name: Seq<char>) -> Seq<char> {
    "@portal/"@ + name
}

/// The message of the error reported when a portal's fetch fails in
/// transport, naming the portal and the transport cause.
pub open spec fn transport_failure_msg(name: Seq<char>, cause: Seq<char>) -> Seq<char> {
    "Unable to fetch asset manifest for "@ + name + ". Error: "@ + cause
}

/// The message of the error reported when a portal answers with a
/// non-success status, naming the portal and the status in decimal.
pub open spec fn status_failure_msg(name: Seq<char>, status: u16) -> Seq<char> {
    "Unable to fetch asset manifest for "@ + name + ". Error: "@ + decimal_seq(status as nat)
}

/// The start of the message reported when a portal's response body does not
/// parse as a manifest; the parse cause follows it.
pub open spec fn parse_failure_prefix(name: Seq<char>) -> Seq<char> {
    "Unable to parse asset manifest for "@ + name + ". Error: "@
}

/// The file map an outcome yields: `None` when the fetch failed, the status
/// was not a success, or the body does not parse as a manifest.
pub open spec fn outcome_files(o: FetchOutcome) -> Option<Map<Seq<char>, Seq<char>>> {
    match o {
        FetchOutcome::Transport(_) => None,
        FetchOutcome::Response { status, body } => if success_status(status) {
            json_string_map_field(body@, "files"@)
        } else {
            None
        },
    }
}

/// Whether `msg` is the message a failing outcome produces for the named
/// portal: a transport failure carries the transport cause verbatim, a
/// non-success status carries the status in decimal, and a parse failure
/// begins with the portal-naming prefix and carries the parse cause after
/// it. Transport, status and parse failures are thereby distinguishable.
pub open spec fn outcome_msg_matches(name: Seq<char>, o: FetchOutcome, msg: Seq<char>) -> bool {
    match o {
        FetchOutcome::Transport(cause) => msg == transport_failure_msg(name, cause@),
        FetchOutcome::Response { status, body } => if success_status(status) {
            parse_failure_prefix(name).is_prefix_of(msg)
        } else {
            msg == status_failure_msg(name, status)
        },
    }
}

/// The portal map after merging one portal's files: if the manifest names
/// `main.js`, the portal's key maps to that path; otherwise nothing changes.
pub open spec fn portals_after(
    portals: Map<Seq<char>, Seq<char>>,
    name: Seq<char>,
    files: Map<Seq<char>, Seq<char>>,
) -> Map<Seq<char>, Seq<char>> {
    if files.contains_key("main.js"@) {
        portals.insert(portal_key(name), files["main.js"@])
    } else {
        portals
    }
}

/// The stylesheet list after merging one portal's files: if the manifest
/// names `main.css`, its path is appended; otherwise nothing changes.
pub open spec fn css_after(css: Seq<Seq<char>>, files: Map<Seq<char>, Seq<char>>) -> Seq<
    Seq<char>,
> {
    if files.contains_key("main.css"@) {
        css.push(files["main.css"@])
    } else {
        css
    }
}

/// The portal map the aggregation of a list of named outcomes yields,
/// meaningful when every outcome succeeds.
pub open spec fn agg_portals(s: Seq<(String, FetchOutcome)>) -> Map<Seq<char>, Seq<char>>
    decreases s.len(),
{
    if s.len() == 0 {
        Map::empty()
    } else {
        match outcome_files(s.last().1) {
            Some(files) => portals_after(agg_portals(s.drop_last()), s.last().0@, files),
            None => agg_portals(s.drop_last()),
        }
    }
}

/// The stylesheet list the aggregation of a list of named outcomes yields,
/// in source order, meaningful when every outcome succeeds.
pub open spec fn agg_css(s: Seq<(String, FetchOutcome)>) -> Seq<Seq<char>>
    decreases s.len(),
{
    if s.len() == 0 {
        Seq::empty()
    } else {
        match outcome_files(s.last().1) {
            Some(files) => css_after(agg_css(s.drop_last()), files),
            None => agg_css(s.drop_last()),
        }
    }
}

/// Every outcome yields a file map.
pub open spec fn aggregation_ok(s: Seq<(String, FetchOutcome)>) -> bool {
    forall|i: int| 0 <= i < s.len() ==> outcome_files((#[trigger] s[i]).1) is Some
}

/// A source contributes at most one entry to the portal map: the map's size
/// never exceeds the number of sources.
pub proof fn lemma_agg_portals_bounded(s: Seq<(String, FetchOutcome)>)
    ensures
        agg_portals(s).dom().finite(),
        agg_portals(s).dom().len() <= s.len(),
    decreases s.len(),
{
    if s.len() > 0 {
        lemma_agg_portals_bounded(s.drop_last());
    }
}

/// When all four fixed portal sources yield manifests naming both `main.js`
/// and `main.css`, the aggregation's portal map holds exactly the four
/// portal keys, each mapped to its source's script path, and the stylesheet
/// list holds exactly the four stylesheet paths in source order.
pub proof fn lemma_aggregate_four_portals(
    s: Seq<(String, FetchOutcome)>,
    f0: Map<Seq<char>, Seq<char>>,
    f1: Map<Seq<char>, Seq<char>>,
    f2: Map<Seq<char>, Seq<char>>,
    f3: Map<Seq<char>, Seq<char>>,
)
    requires
        s.len() == 4,
        s[0].0@ == "apm"@,
        s[1].0@ == "notifications"@,
        s[2].0@ == "comments"@,
        s[3].0@ == "admin"@,
        outcome_files(s[0].1) == Some(f0),
        outcome_files(s[1].1) == Some(f1),
        outcome_files(s[2].1) == Some(f2),
        outcome_files(s[3].1) == Some(f3),
        f0.contains_key("main.js"@) && f0.contains_key("main.css"@),
        f1.contains_key("main.js"@) && f1.contains_key("main.css"@),
        f2.contains_key("main.js"@) && f2.contains_key("main.css"@),
        f3.contains_key("main.js"@) && f3.contains_key("main.css"@),
    ensures
        aggregation_ok(s),
        agg_portals(s).dom() =~= set![
            portal_key("apm"@),
            portal_key("notifications"@),
            portal_key("comments"@),
            portal_key("admin"@),
        ],
        agg_portals(s)[portal_key("apm"@)] == f0["main.js"@],
        agg_portals(s)[portal_key("notifications"@)] == f1["main.js"@],
        agg_portals(s)[portal_key("comments"@)] == f2["main.js"@],
        agg_portals(s)[portal_key("admin"@)] == f3["main.js"@],
        agg_css(s) =~= seq![f0["main.css"@], f1["main.css"@], f2["main.css"@], f3["main.css"@]],
{
    reveal_strlit("@portal/");
    reveal_strlit("apm");
    reveal_strlit("notifications");
    reveal_strlit("comments");
    reveal_strlit("admin");
    assert(portal_key("apm"@).len() == 11);
    assert(portal_key("notifications"@).len() == 21);
    assert(portal_key("comments"@).len() == 16);
    assert(portal_key("admin"@).len() == 13);
    assert(portal_key("apm"@) != portal_key("notifications"@));
    assert(portal_key("apm"@) != portal_key("comments"@));
    assert(portal_key("apm"@) != portal_key("admin"@));
    assert(portal_key("notifications"@) != portal_key("comments"@));
    assert(portal_key("notifications"@) != portal_key("admin"@));
    assert(portal_key("comments"@) != portal_key("admin"@));
    let s3 = s.drop_last();
    let s2 = s3.drop_last();
    let s1 = s2.drop_last();
    let s0 = s1.drop_last();
    assert(s.last() == s[3] && s3.last() == s[2] && s2.last() == s[1] && s1.last() == s[0]);
    assert(s0.len() == 0);
    assert(agg_portals(s0) == Map::<Seq<char>, Seq<char>>::empty());
    assert(agg_portals(s1) == agg_portals(s0).insert(portal_key("apm"@), f0["main.js"@]));
    assert(agg_portals(s2) == agg_portals(s1).insert(
        portal_key("notifications"@),
        f1["main.js"@],
    ));
    assert(agg_portals(s3) == agg_portals(s2).insert(portal_key("comments"@), f2["main.js"@]));
    assert(agg_portals(s) == agg_portals(s3).insert(portal_key("admin"@), f3["main.js"@]));
    assert(agg_css(s0) == Seq::<Seq<char>>::empty());
    assert(agg_css(s1) == agg_css(s0).push(f0["main.css"@]));
    assert(agg_css(s2) == agg_css(s1).push(f1["main.css"@]));
    assert(agg_css(s3) == agg_css(s2).push(f2["main.css"@]));
    assert(agg_css(s) == agg_css(s3).push(f3["main.css"@]));
}

/// A source whose manifest names no `main.css` leaves the stylesheet list
/// exactly as if the source were absent: no entry shifts, none is
/// duplicated.
pub proof fn lemma_css_absent_no_shift(s: Seq<(String, FetchOutcome)>, i: int)
    requires
        aggregation_ok(s),
        0 <= i < s.len(),
        outcome_files(s[i].1) matches Some(files) && !files.contains_key("main.css"@),
    ensures
        agg_css(s) == agg_css(s.remove(i)),
    decreases s.len(),
{
    if i == s.len() - 1 {
        assert(s.remove(i) =~= s.drop_last());
    } else {
        let dl = s.drop_last();
        assert(forall|j: int| 0 <= j < dl.len() ==> dl[j] == s[j]);
        lemma_css_absent_no_shift(dl, i);
        assert(s.remove(i).drop_last() =~= dl.remove(i));
        assert(s.remove(i).last() == s.last());
    }
}

/// Builds the map an entry list describes, by repeated insertion.
pub fn string_map_of_entries(entries: &Vec<(String, String)>) -> (r: StringMap)
    ensures
        r.wf(),
        r@ == assoc_map(entries.deep_view()),
{
    let mut m = StringMap::new();
    let n = entries.len();
    let mut i: usize = 0;
    while i < n
        invariant
            n == entries@.len(),
            i <= n,
            m.wf(),
            m@ == assoc_map(entries.deep_view().take(i as int)),
        decreases n - i,
    {
        m.insert(entries[i].0.clone(), entries[i].1.clone());
        proof {
            let dv = entries.deep_view();
            assert(dv[i as int] == (entries@[i as int].0@, entries@[i as int].1@));
            lemma_assoc_map_push(dv.take(i as int), dv[i as int].0, dv[i as int].1);
            assert(dv.take(i as int).push(dv[i as int]) =~= dv.take(i + 1 as int));
        }
        i += 1;
    }
    proof {
        assert(entries.deep_view().take(n as int) =~= entries.deep_view());
    }
    m
}

/// Evaluates one portal's fetch outcome: the parsed manifest exactly when
/// the outcome yields a file map, otherwise the manifest error naming the
/// portal, the failure kind and the cause.
pub fn evaluate_fetch(name: &str, outcome: &FetchOutcome) -> (r: Result<AssetManifest, Error>)
    ensures
        match r {
            Ok(m) => outcome_files(*outcome) == Some(m.files@) && m.files.wf(),
            Err(e) => outcome_files(*outcome) is None && (e matches Error::ManifestError(msg)
                && outcome_msg_matches(name@, *outcome, msg@)),
        },
{
    match outcome {
        FetchOutcome::Transport(cause) => {
            let mut msg = concat_strs("Unable to fetch asset manifest for ", name);
            msg.push_str(". Error: ");
            msg.push_str(cause.as_str());
            Err(Error::ManifestError(msg))
        },
        FetchOutcome::Response { status, body } => {
            if 200 <= *status && *status < 300 {
                match parse_string_map_field(body.as_str(), "files") {
                    Ok(entries) => {
                        let files = string_map_of_entries(&entries);
                        Ok(AssetManifest { files })
                    },
                    Err(failure) => {
                        let cause = match failure {
                            JsonFieldFailure::Document(text) => text,
                            JsonFieldFailure::Shape => "no files object of string values".to_owned(),
                        };
                        let mut msg = concat_strs("Unable to parse asset manifest for ", name);
                        msg.push_str(". Error: ");
                        msg.push_str(cause.as_str());
                        proof {
                            let p = parse_failure_prefix(name@);
                            assert(msg@.subrange(0, p.len() as int) =~= p);
                        }
                        Err(Error::ManifestError(msg))
                    },
                }
            } else {
                let mut msg = concat_strs("Unable to fetch asset manifest for ", name);
                msg.push_str(". Error: ");
                push_decimal(&mut msg, *status);
                Err(Error::ManifestError(msg))
            }
        },
    }
}

/// Merges one portal's manifest into the aggregate: `main.js` (if present)
/// enters the portal map under `@portal/<name>`, `main.css` (if present) is
/// appended to the stylesheet list. Absence of either key is not an error.
pub fn apply_manifest(agg: &mut AssetImport, name: &str, manifest: &AssetManifest)
    requires
        old(agg).portals.wf(),
        manifest.files.wf(),
    ensures
        final(agg).portals.wf(),
        final(agg).portals@ == portals_after(old(agg).portals@, name@, manifest.files@),
        final(agg).css_files.deep_view() == css_after(
            old(agg).css_files.deep_view(),
            manifest.files@,
        ),
{
    let js_key = "main.js".to_owned();
    match manifest.files.get(&js_key) {
        Some(js) => {
            let key = concat_strs("@portal/", name);
            agg.portals.insert(key, js.clone());
        },
        None => {},
    }
    let css_key = "main.css".to_owned();
    let ghost css0 = agg.css_files.deep_view();
    match manifest.files.get(&css_key) {
        Some(css) => {
            agg.css_files.push(css.clone());
            proof {
                assert(agg.css_files.deep_view() =~= css0.push(manifest.files@["main.css"@]));
            }
        },
        None => {},
    }
}

/// Aggregates the named outcomes in order, all-or-nothing: the merged
/// `AssetImport` when every source yields a manifest; otherwise the error of
/// the first source that does not, with every source before it succeeding.
pub fn aggregate_manifests(outcomes: &Vec<(String, FetchOutcome)>) -> (r: Result<
    AssetImport,
    Error,
>)
    ensures
        match r {
            Ok(agg) => aggregation_ok(outcomes@) && agg.portals.wf() && agg.portals@
                == agg_portals(outcomes@) && agg.css_files.deep_view() == agg_css(outcomes@),
            Err(e) => !aggregation_ok(outcomes@) && exists|i: int|
                0 <= i < outcomes@.len() && outcome_files((#[trigger] outcomes@[i]).1) is None && (
                forall|j: int| 0 <= j < i ==> outcome_files((#[trigger] outcomes@[j]).1) is Some)
                && (e matches Error::ManifestError(msg) && outcome_msg_matches(
                    outcomes@[i].0@,
                    outcomes@[i].1,
                    msg@,
                )),
        },
{
    let mut agg = AssetImport { portals: StringMap::new(), css_files: Vec::new() };
    let n = outcomes.len();
    let mut i: usize = 0;
    proof {
        assert(agg.css_files.deep_view() =~= Seq::<Seq<char>>::empty());
    }
    while i < n
        invariant
            n == outcomes@.len(),
            i <= n,
            agg.portals.wf(),
            forall|j: int| 0 <= j < i ==> outcome_files((#[trigger] outcomes@[j]).1) is Some,
            agg.portals@ == agg_portals(outcomes@.take(i as int)),
            agg.css_files.deep_view() == agg_css(outcomes@.take(i as int)),
        decreases n - i,
    {
        let name = outcomes[i].0.as_str();
        match evaluate_fetch(name, &outcomes[i].1) {
            Ok(manifest) => {
                apply_manifest(&mut agg, name, &manifest);
                proof {
                    let t = outcomes@.take(i + 1 as int);
                    assert(t.drop_last() =~= outcomes@.take(i as int));
                    assert(t.last() == outcomes@[i as int]);
                }
            },
            Err(e) => {
                return Err(e);
            },
        }
        i += 1;
    }
    proof {
        assert(outcomes@.take(n as int) =~= outcomes@);
    }
    Ok(agg)
}

/// The fixed, ordered list of portal sources: each portal's name paired with
/// its configured manifest URL.
pub fn manifest_targets(config: &Config) -> (r: Vec<(String, String)>)
    ensures
        r.deep_view() == seq![
            ("apm"@, config.apm_manifest_url@),
            ("notifications"@, config.notifications_manifest_url@),
            ("comments"@, config.comments_manifest_url@),
            ("admin"@, config.admin_manifest_url@),
        ],
{
    let mut targets: Vec<(String, String)> = Vec::new();
    targets.push(("apm".to_owned(), config.apm_manifest_url.clone()));
    targets.push(("notifications".to_owned(), config.notifications_manifest_url.clone()));
    targets.push(("comments".to_owned(), config.comments_manifest_url.clone()));
    targets.push(("admin".to_owned(), config.admin_manifest_url.clone()));
    proof {
        assert(targets.deep_view() =~= seq![
            ("apm"@, config.apm_manifest_url@),
            ("notifications"@, config.notifications_manifest_url@),
            ("comments"@, config.comments_manifest_url@),
            ("admin"@, config.admin_manifest_url@),
        ]);
    }
    targets
}

} // verus!

//! Feed autodiscovery.
//!
//! Given a page fetched from an arbitrary URL, discovery decides in three
//! strategies: the page itself is a feed (by content type or by its leading
//! bytes); the page is HTML carrying `<link rel="alternate">` feed links,
//! collected in document order; or a fixed list of common feed paths is
//! probed and the first that answers with a feed-like content type wins.
//! The HTTP fetches live with the caller; every decision in between is a
//! pure, verified function. HTML parsing is scraper's and URL resolution is
//! the url crate's, both behind trusted wrappers with named results.

use vstd::prelude::*;
use vstd::string::*;

use crate::model::{ErrorModel, FeedError};
use crate::strutil::{
    contains_spec, contains_sub, starts_with, starts_with_spec, to_chars, trim_start,
    trim_start_spec,
};

verus! {

/// A candidate feed URL found during autodiscovery.
#[derive(Debug)]
pub struct DiscoveredFeed {
    pub url: String,
}

impl View for DiscoveredFeed {
    type V = Seq<char>;

    open spec fn view(&self) -> Seq<char> {
        self.url@
    }
}

impl DeepView for DiscoveredFeed {
    type V = Seq<char>;

    open spec fn deep_view(&self) -> Seq<char> {
        self@
    }
}

/// One `<link rel="alternate">` of an HTML page: its `type` and `href`
/// attributes, empty where absent.
pub struct FeedLink {
    pub media_type: String,
    pub href: String,
}

/// The mathematical shape of such a link.
#[verifier::ext_equal]
pub ghost struct FeedLinkModel {
    pub media_type: Seq<char>,
    pub href: Seq<char>,
}

impl View for FeedLink {
    type V = FeedLinkModel;

    open spec fn view(&self) -> FeedLinkModel {
        FeedLinkModel { media_type: self.media_type@, href: self.href@ }
    }
}

impl DeepView for FeedLink {
    type V = FeedLinkModel;

    open spec fn deep_view(&self) -> FeedLinkModel {
        self@
    }
}

/// The `<link rel="alternate">` elements of an HTML document, in document
/// order, each reduced to its `type` and `href` attributes.
pub uninterp spec fn alternate_links(body: Seq<char>) -> Seq<FeedLinkModel>;

/// Whether the url crate accepts this text as an absolute URL, and the
/// error text where it does not.
pub uninterp spec fn url_parse(s: Seq<char>) -> Result<(), Seq<char>>;

/// What resolving `href` against `base` yields: the joined URL, or `href`
/// itself where it cannot be resolved.
pub uninterp spec fn join_of(base: Seq<char>, href: Seq<char>) -> Seq<char>;

/// Relies on scraper's `Html::parse_document` and `Selector::parse`: hands
/// out the `type` and `href` attributes of every `link[rel="alternate"]`
/// element, in document order. The result is a function of the body alone.
#[verifier::external_body]
fn html_alternate_links(body: &str) -> (r: Vec<FeedLink>)
    ensures
        r.deep_view() == alternate_links(body@),
{
    let document = scraper::Html::parse_document(body);
    let selector = scraper::Selector::parse(r#"link[rel="alternate"]"#).unwrap();
    document.select(&selector).map(|element| FeedLink {
        media_type: element.value().attr("type").unwrap_or("").to_string(),
        href: element.value().attr("href").unwrap_or("").to_string(),
    }).collect()
}

/// The model of a URL check.
pub open spec fn url_check_model(r: Result<(), String>) -> Result<(), Seq<char>> {
    match r {
        Ok(_) => Ok(()),
        Err(m) => Err(m@),
    }
}

/// Relies on `url::Url::parse`: whether the text is a valid absolute URL,
/// with the parser's error text where it is not.
#[verifier::external_body]
fn url_check(s: &str) -> (r: Result<(), String>)
    ensures
        url_check_model(r) == url_parse(s@),
{
    match url::Url::parse(s) {
        Ok(_) => Ok(()),
        Err(e) => Err(e.to_string()),
    }
}

/// Relies on `url::Url::parse` and `Url::join`: resolves `href` against
/// `base`, handing `href` back unchanged where resolution fails.
#[verifier::external_body]
fn join_url(base: &str, href: &str) -> (r: String)
    ensures
        r@ == join_of(base@, href@),
{
    match url::Url::parse(base) {
        Ok(b) => match b.join(href) {
            Ok(u) => u.to_string(),
            Err(_) => href.to_string(),
        },
        Err(_) => href.to_string(),
    }
}

/// Does a content-type header indicate a feed?
pub open spec fn is_feed_ct(ct: Seq<char>) -> bool {
    contains_spec(ct, "xml"@) || contains_spec(ct, "rss"@) || contains_spec(ct, "atom"@)
        || contains_spec(ct, "feed"@)
}

/// Does the content-type header of a response indicate XML, RSS, Atom or a
/// feed? The caller hands the header in lower case.
pub fn is_feed_content_type(ct: &str) -> (r: bool)
    ensures
        r == is_feed_ct(ct@),
{
    let h = to_chars(ct);
    contains_sub(&h, &to_chars("xml")) || contains_sub(&h, &to_chars("rss")) || contains_sub(
        &h,
        &to_chars("atom"),
    ) || contains_sub(&h, &to_chars("feed"))
}

/// Does a body begin, after leading whitespace, like a feed document?
pub open spec fn looks_like_feed_spec(body: Seq<char>) -> bool {
    let t = trim_start_spec(body);
    starts_with_spec(t, "<?xml"@) || starts_with_spec(t, "<rss"@) || starts_with_spec(
        t,
        "<feed"@,
    ) || starts_with_spec(t, "<rdf:RDF"@)
}

/// Does this body's leading non-whitespace look like a feed document?
pub fn looks_like_feed(body: &str) -> (r: bool)
    ensures
        r == looks_like_feed_spec(body@),
{
    let chars = to_chars(body);
    let t = trim_start(&chars);
    starts_with(&t, &to_chars("<?xml")) || starts_with(&t, &to_chars("<rss")) || starts_with(
        &t,
        &to_chars("<feed"),
    ) || starts_with(&t, &to_chars("<rdf:RDF"))
}

/// Does an alternate link advertise a feed?
pub open spec fn link_matches(l: FeedLinkModel) -> bool {
    (contains_spec(l.media_type, "rss"@) || contains_spec(l.media_type, "atom"@) || contains_spec(
        l.media_type,
        "feed"@,
    )) && l.href.len() > 0
}

/// The feed URLs the matching links resolve to, against `base`, in order.
pub open spec fn resolve_links(links: Seq<FeedLinkModel>, base: Seq<char>) -> Seq<Seq<char>>
    decreases links.len(),
{
    if links.len() == 0 {
        Seq::empty()
    } else {
        let rest = resolve_links(links.drop_first(), base);
        if link_matches(links[0]) {
            seq![join_of(base, links[0].href)] + rest
        } else {
            rest
        }
    }
}

/// The fixed ordered list of common feed paths probed as a last resort.
pub open spec fn common_paths_spec() -> Seq<Seq<char>> {
    seq![
        "/feed"@,
        "/rss"@,
        "/rss.xml"@,
        "/feed.xml"@,
        "/atom.xml"@,
        "/index.xml"@,
        "/blog/feed"@,
        "/blog/rss"@,
        "/?feed=rss2"@,
    ]
}

/// What discovery decides from the first response alone.
#[verifier::ext_equal]
pub ghost enum PlanModel {
    /// Discovery is done: these are the candidates, in order.
    Found { urls: Seq<Seq<char>> },
    /// Probe these URLs in order; the first feed-like answer wins.
    Probe { urls: Seq<Seq<char>> },
    /// The page URL itself is unusable as a base.
    Failed { err: ErrorModel },
}

/// The decision discovery takes once the page at `url` has been fetched:
/// a feed-like response is its own single candidate; otherwise the page's
/// alternate links, resolved against `url`, in document order; otherwise
/// the common paths are to be probed. A page URL that is no valid URL
/// fails discovery outright.
pub open spec fn spec_plan(url: Seq<char>, ct: Seq<char>, body: Seq<char>) -> PlanModel {
    if is_feed_ct(ct) || looks_like_feed_spec(body) {
        PlanModel::Found { urls: seq![url] }
    } else {
        match url_parse(url) {
            Err(msg) => PlanModel::Failed { err: ErrorModel::Discovery { msg } },
            Ok(_) => {
                let found = resolve_links(alternate_links(body), url);
                if found.len() > 0 {
                    PlanModel::Found { urls: found }
                } else {
                    PlanModel::Probe {
                        urls: common_paths_spec().map_values(|p: Seq<char>| join_of(url, p)),
                    }
                }
            },
        }
    }
}

/// The next move of a discovery run.
pub enum DiscoveryStep {
    /// Discovery is done: these are the candidate feeds, in order.
    Found(Vec<DiscoveredFeed>),
    /// Probe these URLs in order with lightweight existence checks; the
    /// first whose response succeeds with a feed-like content type wins.
    Probe(Vec<String>),
    /// Discovery failed before any probing could start.
    Failed(FeedError),
}

/// The model of a discovery step.
pub open spec fn step_model(s: DiscoveryStep) -> PlanModel {
    match s {
        DiscoveryStep::Found(urls) => PlanModel::Found { urls: urls.deep_view() },
        DiscoveryStep::Probe(urls) => PlanModel::Probe { urls: urls.deep_view() },
        DiscoveryStep::Failed(e) => PlanModel::Failed { err: e@ },
    }
}

/// Decide what discovery does with the page fetched from `url`, given the
/// response's lower-cased content type and its body.
pub fn plan_discovery(url: &str, content_type: &str, body: &str) -> (r: DiscoveryStep)
    ensures
        step_model(r) == spec_plan(url@, content_type@, body@),
{
    if is_feed_content_type(content_type) || looks_like_feed(body) {
        let mut urls: Vec<DiscoveredFeed> = Vec::new();
        urls.push(DiscoveredFeed { url: url.to_owned() });
        proof {
            assert(urls.deep_view() =~= seq![url@]);
        }
        return DiscoveryStep::Found(urls);
    }
    if let Err(msg) = url_check(url) {
        return DiscoveryStep::Failed(FeedError::Discovery(msg));
    }
    let links = html_alternate_links(body);
    let found = resolve_links_exec(&links, url);
    if found.len() > 0 {
        DiscoveryStep::Found(found)
    } else {
        let mut probes: Vec<String> = Vec::new();
        push_candidate(&mut probes, url, "/feed");
        push_candidate(&mut probes, url, "/rss");
        push_candidate(&mut probes, url, "/rss.xml");
        push_candidate(&mut probes, url, "/feed.xml");
        push_candidate(&mut probes, url, "/atom.xml");
        push_candidate(&mut probes, url, "/index.xml");
        push_candidate(&mut probes, url, "/blog/feed");
        push_candidate(&mut probes, url, "/blog/rss");
        push_candidate(&mut probes, url, "/?feed=rss2");
        proof {
            assert(probes.deep_view() =~= common_paths_spec().map_values(
                |p: Seq<char>| join_of(url@, p),
            ));
        }
        DiscoveryStep::Probe(probes)
    }
}

/// Append one resolved probe candidate.
fn push_candidate(probes: &mut Vec<String>, base: &str, path: &str)
    ensures
        final(probes).deep_view() == old(probes).deep_view().push(join_of(base@, path@)),
{
    let u = join_url(base, path);
    let ghost before = probes.deep_view();
    probes.push(u);
    proof {
        assert(probes.deep_view() =~= before.push(join_of(base@, path@)));
    }
}

/// Resolve the matching links against the base, in document order.
fn resolve_links_exec(links: &Vec<FeedLink>, base: &str) -> (r: Vec<DiscoveredFeed>)
    ensures
        r.deep_view() == resolve_links(links.deep_view(), base@),
{
    let ghost all = links.deep_view();
    let mut out: Vec<DiscoveredFeed> = Vec::new();
    let mut i: usize = links.len();
    proof {
        assert(all.skip(i as int) =~= Seq::<FeedLinkModel>::empty());
        assert(out.deep_view() =~= resolve_links(all.skip(i as int), base@));
    }
    while i > 0
        invariant
            all == links.deep_view(),
            all.len() == links@.len(),
            i <= links@.len(),
            out.deep_view() == resolve_links(all.skip(i as int), base@),
        decreases i,
    {
        i = i - 1;
        proof {
            assert(all.skip(i as int)[0] == all[i as int]);
            assert(all.skip(i as int).drop_first() =~= all.skip(i + 1));
        }
        let l = &links[i];
        let ct = to_chars(l.media_type.as_str());
        let matched = (contains_sub(&ct, &to_chars("rss")) || contains_sub(&ct, &to_chars("atom"))
            || contains_sub(&ct, &to_chars("feed"))) && !l.href.as_str().is_empty();
        if matched {
            let resolved = join_url(base, l.href.as_str());
            out.insert(0, DiscoveredFeed { url: resolved });
            proof {
                assert(out.deep_view() =~= seq![join_of(base@, all[i as int].href)]
                    + resolve_links(all.skip(i + 1), base@));
            }
        }
    }
    proof {
        assert(all.skip(0) =~= all);
    }
    out
}

/// Does a probe response accept its candidate: the request succeeded and
/// the content type looks like a feed?
pub fn probe_accepts(success: bool, content_type: &str) -> (r: bool)
    ensures
        r == (success && is_feed_ct(content_type@)),
{
    success && is_feed_content_type(content_type)
}

/// The message of a failed discovery over `url`.
pub open spec fn no_feed_message(url: Seq<char>) -> Seq<char> {
    "No feed found at "@ + url + ". Try providing the direct feed URL."@
}

/// The error a discovery run ends with when all three strategies failed.
pub fn no_feed_error(url: &str) -> (r: FeedError)
    ensures
        r@ == (ErrorModel::Discovery { msg: no_feed_message(url@) }),
{
    let mut msg = String::from_str("No feed found at ");
    msg.append(url);
    msg.append(". Try providing the direct feed URL.");
    FeedError::Discovery(msg)
}

} // verus!

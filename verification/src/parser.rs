//! The dialect parsers.
//!
//! All three dialects share one design: a single forward pass over the
//! structural event stream, folding each event into a parser state that
//! carries the feed built so far, the entry in progress, and the current
//! tag. The transition function of each dialect is given as a spec
//! function, and the executable parser is proved to compute exactly that
//! fold. Scalar text fields are last-occurrence-wins; Atom links and the
//! RSS 2.0 `lastBuildDate` are first-wins; categories are append-only.

use vstd::prelude::*;
use vstd::string::*;

use crate::date::{parse_date, spec_parse_date};
use crate::detect::{detect_events, spec_detect, FeedFormat};
use crate::model::{EntryModel, ErrorModel, Feed, FeedEntry, FeedError, FeedModel};
use crate::strutil::{
    contains_spec, contains_sub, dec_digits, eq_lit, push_decimal, starts_with, starts_with_spec,
    to_chars,
};
use crate::xml::{abs_events, collect_events, xml_events, AttrModel, EventModel, XmlAttr, XmlEvent};

verus! {

/// The full state of a dialect parser between two events.
pub struct ParseState {
    /// The feed built so far.
    pub feed: Feed,
    /// Are we inside an entry/item?
    pub in_item: bool,
    /// Are we inside the channel element (RSS dialects)?
    pub in_channel: bool,
    /// Are we inside an author element (Atom)?
    pub in_author: bool,
    /// The entry in progress, present only while inside an entry/item.
    pub entry: Option<FeedEntry>,
    /// The unprefixed name of the innermost open tag.
    pub tag: String,
    /// The full, possibly prefixed name of the innermost open tag.
    pub ns_tag: String,
}

/// The mathematical shape of the parser state.
#[verifier::ext_equal]
pub ghost struct StateModel {
    pub feed: FeedModel,
    pub in_item: bool,
    pub in_channel: bool,
    pub in_author: bool,
    pub entry: Option<EntryModel>,
    pub tag: Seq<char>,
    pub ns_tag: Seq<char>,
}

impl View for ParseState {
    type V = StateModel;

    open spec fn view(&self) -> StateModel {
        StateModel {
            feed: self.feed@,
            in_item: self.in_item,
            in_channel: self.in_channel,
            in_author: self.in_author,
            entry: match self.entry {
                Some(e) => Some(e@),
                None => None,
            },
            tag: self.tag@,
            ns_tag: self.ns_tag@,
        }
    }
}

/// A fresh entry: every field empty or absent.
pub open spec fn empty_entry() -> EntryModel {
    EntryModel {
        id: Seq::empty(),
        title: Seq::empty(),
        link: Seq::empty(),
        content: None,
        summary: None,
        author: None,
        published: None,
        updated: None,
        categories: Seq::empty(),
        image_url: None,
    }
}

/// The state a parse of `url` starts from.
pub open spec fn init_state(url: Seq<char>) -> StateModel {
    StateModel {
        feed: FeedModel {
            title: Seq::empty(),
            link: Seq::empty(),
            feed_url: url,
            description: None,
            language: None,
            last_updated: None,
            entries: Seq::empty(),
        },
        in_item: false,
        in_channel: false,
        in_author: false,
        entry: None,
        tag: Seq::empty(),
        ns_tag: Seq::empty(),
    }
}

/// The identifier synthesised for an entry with neither guid nor link:
/// the feed URL and the entry's ordinal.
pub open spec fn synth_id(url: Seq<char>, n: int) -> Seq<char> {
    url + seq!['-'] + dec_digits(n)
}

/// Entry finalisation: an empty id becomes the link, or the synthesised
/// identifier where the link is empty too. `n` is the entry's ordinal.
pub open spec fn finalize_spec(e: EntryModel, url: Seq<char>, n: int) -> EntryModel {
    if e.id.len() > 0 {
        e
    } else if e.link.len() > 0 {
        EntryModel { id: e.link, ..e }
    } else {
        EntryModel { id: synth_id(url, n), ..e }
    }
}

/// Closing the current entry/item: finalise it, append it to the feed, and
/// leave the entry scope.
pub open spec fn close_item_spec(st: StateModel) -> StateModel {
    match st.entry {
        Some(e) => StateModel {
            feed: FeedModel {
                entries: st.feed.entries.push(
                    finalize_spec(e, st.feed.feed_url, st.feed.entries.len() as int),
                ),
                ..st.feed
            },
            entry: None,
            in_item: false,
            ..st
        },
        None => StateModel { entry: None, in_item: false, ..st },
    }
}

/// The value of the last attribute named `name`, or `acc` if none occurs.
pub open spec fn attr_last(attrs: Seq<AttrModel>, name: Seq<char>, acc: Seq<char>) -> Seq<char>
    decreases attrs.len(),
{
    if attrs.len() == 0 {
        acc
    } else {
        attr_last(
            attrs.drop_first(),
            name,
            if attrs[0].name == name {
                attrs[0].value
            } else {
                acc
            },
        )
    }
}

/// Does some `type` attribute declare an image media type?
pub open spec fn has_image_type(attrs: Seq<AttrModel>) -> bool {
    exists|k: int|
        0 <= k < attrs.len() && attrs[k].name == "type"@ && starts_with_spec(
            #[trigger] attrs[k].value,
            "image/"@,
        )
}

/// Every non-empty `term` attribute appended to `cats`, in document order.
pub open spec fn push_terms(attrs: Seq<AttrModel>, cats: Seq<Seq<char>>) -> Seq<Seq<char>>
    decreases attrs.len(),
{
    if attrs.len() == 0 {
        cats
    } else {
        push_terms(
            attrs.drop_first(),
            if attrs[0].name == "term"@ && attrs[0].value.len() > 0 {
                cats.push(attrs[0].value)
            } else {
                cats
            },
        )
    }
}

// --- RSS 2.0 ---

/// RSS 2.0: what a start tag does to the state. Self-closing tags are
/// ignored by this dialect.
pub open spec fn rss2_open(
    st: StateModel,
    local: Seq<char>,
    full: Seq<char>,
    attrs: Seq<AttrModel>,
    self_closing: bool,
) -> StateModel {
    if self_closing {
        st
    } else {
        let st1 = if local == "channel"@ {
            StateModel { in_channel: true, ..st }
        } else if local == "item"@ && st.in_channel {
            StateModel { in_item: true, entry: Some(empty_entry()), ..st }
        } else if local == "enclosure"@ && st.in_item && st.entry is Some {
            let url = attr_last(attrs, "url"@, Seq::empty());
            if has_image_type(attrs) && url.len() > 0 {
                StateModel { entry: Some(EntryModel { image_url: Some(url), ..st.entry.unwrap() }), ..st }
            } else {
                st
            }
        } else {
            st
        };
        StateModel { tag: local, ns_tag: full, ..st1 }
    }
}

/// RSS 2.0: what an end tag does to the state.
pub open spec fn rss2_close(st: StateModel, local: Seq<char>) -> StateModel {
    let st1 = if local == "channel"@ {
        StateModel { in_channel: false, ..st }
    } else if local == "item"@ && st.in_item {
        close_item_spec(st)
    } else {
        st
    };
    StateModel { tag: Seq::empty(), ns_tag: Seq::empty(), ..st1 }
}

/// RSS 2.0: what character data does to the state, routed by the current
/// tag. Scalar fields are last-wins; `lastBuildDate`/`pubDate` at channel
/// level is first-non-empty-wins; categories append.
pub open spec fn rss2_text(st: StateModel, text: Seq<char>) -> StateModel {
    if text.len() == 0 {
        st
    } else if st.in_item {
        match st.entry {
            None => st,
            Some(e) => {
                let e2 = if st.tag == "title"@ {
                    EntryModel { title: text, ..e }
                } else if st.tag == "link"@ {
                    EntryModel { link: text, ..e }
                } else if st.tag == "guid"@ {
                    EntryModel { id: text, ..e }
                } else if st.tag == "description"@ {
                    EntryModel { summary: Some(text), ..e }
                } else if st.tag == "encoded"@ && contains_spec(st.ns_tag, "content"@) {
                    EntryModel { content: Some(text), ..e }
                } else if st.tag == "creator"@ && contains_spec(st.ns_tag, "dc"@) {
                    EntryModel { author: Some(text), ..e }
                } else if st.tag == "author"@ {
                    EntryModel { author: Some(text), ..e }
                } else if st.tag == "pubDate"@ {
                    EntryModel { published: spec_parse_date(text), ..e }
                } else if st.tag == "category"@ {
                    EntryModel { categories: e.categories.push(text), ..e }
                } else {
                    e
                };
                StateModel { entry: Some(e2), ..st }
            },
        }
    } else {
        if st.tag == "title"@ {
            StateModel { feed: FeedModel { title: text, ..st.feed }, ..st }
        } else if st.tag == "link"@ {
            StateModel { feed: FeedModel { link: text, ..st.feed }, ..st }
        } else if st.tag == "description"@ {
            StateModel { feed: FeedModel { description: Some(text), ..st.feed }, ..st }
        } else if st.tag == "language"@ {
            StateModel { feed: FeedModel { language: Some(text), ..st.feed }, ..st }
        } else if (st.tag == "lastBuildDate"@ || st.tag == "pubDate"@) && st.feed.last_updated
            is None {
            StateModel { feed: FeedModel { last_updated: spec_parse_date(text), ..st.feed }, ..st }
        } else {
            st
        }
    }
}

// --- RSS 1.0 (RDF) ---

/// RSS 1.0: what a start tag does to the state. Items are siblings of the
/// channel, so opening an item also leaves the channel scope; item identity
/// comes from the `about` attribute. Self-closing tags are ignored.
pub open spec fn rss1_open(
    st: StateModel,
    local: Seq<char>,
    full: Seq<char>,
    attrs: Seq<AttrModel>,
    self_closing: bool,
) -> StateModel {
    if self_closing {
        st
    } else {
        let st1 = if local == "channel"@ {
            StateModel { in_channel: true, ..st }
        } else if local == "item"@ {
            StateModel {
                in_item: true,
                in_channel: false,
                entry: Some(EntryModel { id: attr_last(attrs, "about"@, Seq::empty()), ..empty_entry() }),
                ..st
            }
        } else {
            st
        };
        StateModel { tag: local, ns_tag: full, ..st1 }
    }
}

/// RSS 1.0: what an end tag does to the state.
pub open spec fn rss1_close(st: StateModel, local: Seq<char>) -> StateModel {
    let st1 = if local == "channel"@ {
        StateModel { in_channel: false, ..st }
    } else if local == "item"@ && st.in_item {
        close_item_spec(st)
    } else {
        st
    };
    StateModel { tag: Seq::empty(), ns_tag: Seq::empty(), ..st1 }
}

/// RSS 1.0: what character data does to the state. Channel metadata only
/// applies while inside the channel and outside any item.
pub open spec fn rss1_text(st: StateModel, text: Seq<char>) -> StateModel {
    if text.len() == 0 {
        st
    } else if st.in_item {
        match st.entry {
            None => st,
            Some(e) => {
                let e2 = if st.tag == "title"@ {
                    EntryModel { title: text, ..e }
                } else if st.tag == "link"@ {
                    EntryModel { link: text, ..e }
                } else if st.tag == "description"@ {
                    EntryModel { summary: Some(text), ..e }
                } else if st.tag == "encoded"@ && contains_spec(st.ns_tag, "content"@) {
                    EntryModel { content: Some(text), ..e }
                } else if st.tag == "creator"@ && contains_spec(st.ns_tag, "dc"@) {
                    EntryModel { author: Some(text), ..e }
                } else if st.tag == "date"@ && contains_spec(st.ns_tag, "dc"@) {
                    EntryModel { published: spec_parse_date(text), ..e }
                } else if st.tag == "subject"@ && contains_spec(st.ns_tag, "dc"@) {
                    EntryModel { categories: e.categories.push(text), ..e }
                } else {
                    e
                };
                StateModel { entry: Some(e2), ..st }
            },
        }
    } else if st.in_channel {
        if st.tag == "title"@ {
            StateModel { feed: FeedModel { title: text, ..st.feed }, ..st }
        } else if st.tag == "link"@ {
            StateModel { feed: FeedModel { link: text, ..st.feed }, ..st }
        } else if st.tag == "description"@ {
            StateModel { feed: FeedModel { description: Some(text), ..st.feed }, ..st }
        } else if st.tag == "language"@ && contains_spec(st.ns_tag, "dc"@) {
            StateModel { feed: FeedModel { language: Some(text), ..st.feed }, ..st }
        } else if st.tag == "date"@ && contains_spec(st.ns_tag, "dc"@) {
            StateModel { feed: FeedModel { last_updated: spec_parse_date(text), ..st.feed }, ..st }
        } else {
            st
        }
    } else {
        st
    }
}

// --- Atom ---

/// Atom: what a link element does to the state. Links are attribute-carried;
/// `rel` defaults to `alternate`; only the first alternate link populates
/// the feed or entry link.
pub open spec fn atom_link(st: StateModel, attrs: Seq<AttrModel>) -> StateModel {
    let href = attr_last(attrs, "href"@, Seq::empty());
    let rel = attr_last(attrs, "rel"@, "alternate"@);
    if href.len() > 0 && (rel == "alternate"@ || rel.len() == 0) {
        if st.in_item {
            match st.entry {
                Some(e) => if e.link.len() == 0 {
                    StateModel { entry: Some(EntryModel { link: href, ..e }), ..st }
                } else {
                    st
                },
                None => st,
            }
        } else if st.feed.link.len() == 0 {
            StateModel { feed: FeedModel { link: href, ..st.feed }, ..st }
        } else {
            st
        }
    } else {
        st
    }
}

/// Atom: what a category element does to the state: every non-empty `term`
/// attribute is appended, inside an entry only.
pub open spec fn atom_category(st: StateModel, attrs: Seq<AttrModel>) -> StateModel {
    if st.in_item {
        match st.entry {
            Some(e) => StateModel {
                entry: Some(EntryModel { categories: push_terms(attrs, e.categories), ..e }),
                ..st
            },
            None => st,
        }
    } else {
        st
    }
}

/// Atom: what a start tag does to the state. Self-closing tags carry link
/// and category data but do not change the current tag.
pub open spec fn atom_open(
    st: StateModel,
    local: Seq<char>,
    attrs: Seq<AttrModel>,
    self_closing: bool,
) -> StateModel {
    if self_closing {
        if local == "link"@ {
            atom_link(st, attrs)
        } else if local == "category"@ {
            atom_category(st, attrs)
        } else {
            st
        }
    } else {
        let st1 = if local == "entry"@ && !st.in_item {
            StateModel { in_item: true, entry: Some(empty_entry()), ..st }
        } else if local == "author"@ {
            StateModel { in_author: true, ..st }
        } else if local == "link"@ {
            atom_link(st, attrs)
        } else if local == "category"@ {
            atom_category(st, attrs)
        } else {
            st
        };
        StateModel { tag: local, ..st1 }
    }
}

/// Atom: what an end tag does to the state.
pub open spec fn atom_close(st: StateModel, local: Seq<char>) -> StateModel {
    let st1 = if local == "entry"@ && st.in_item {
        close_item_spec(st)
    } else if local == "author"@ {
        StateModel { in_author: false, ..st }
    } else {
        st
    };
    StateModel { tag: Seq::empty(), ..st1 }
}

/// Atom: what character data does to the state. An author's name applies
/// only while both the entry and the author scope are open.
pub open spec fn atom_text(st: StateModel, text: Seq<char>) -> StateModel {
    if text.len() == 0 {
        st
    } else if st.in_item {
        match st.entry {
            None => st,
            Some(e) => {
                let e2 = if st.in_author && st.tag == "name"@ {
                    EntryModel { author: Some(text), ..e }
                } else if st.tag == "title"@ {
                    EntryModel { title: text, ..e }
                } else if st.tag == "id"@ {
                    EntryModel { id: text, ..e }
                } else if st.tag == "content"@ {
                    EntryModel { content: Some(text), ..e }
                } else if st.tag == "summary"@ {
                    EntryModel { summary: Some(text), ..e }
                } else if st.tag == "published"@ {
                    EntryModel { published: spec_parse_date(text), ..e }
                } else if st.tag == "updated"@ {
                    EntryModel { updated: spec_parse_date(text), ..e }
                } else {
                    e
                };
                StateModel { entry: Some(e2), ..st }
            },
        }
    } else {
        if st.tag == "title"@ {
            StateModel { feed: FeedModel { title: text, ..st.feed }, ..st }
        } else if st.tag == "subtitle"@ {
            StateModel { feed: FeedModel { description: Some(text), ..st.feed }, ..st }
        } else if st.tag == "updated"@ {
            StateModel { feed: FeedModel { last_updated: spec_parse_date(text), ..st.feed }, ..st }
        } else {
            st
        }
    }
}

// --- The shared fold ---

/// What one event does to the state, by dialect. Terminal events and
/// skipped structures leave the state unchanged; the fold handles them.
pub open spec fn spec_step(format: FeedFormat, st: StateModel, ev: EventModel) -> StateModel {
    match ev {
        EventModel::Open { local, full, attrs, self_closing } => match format {
            FeedFormat::Rss2 => rss2_open(st, local, full, attrs, self_closing),
            FeedFormat::Rss1 => rss1_open(st, local, full, attrs, self_closing),
            FeedFormat::Atom => atom_open(st, local, attrs, self_closing),
        },
        EventModel::Close { local } => match format {
            FeedFormat::Rss2 => rss2_close(st, local),
            FeedFormat::Rss1 => rss1_close(st, local),
            FeedFormat::Atom => atom_close(st, local),
        },
        EventModel::Text { text } => match format {
            FeedFormat::Rss2 => rss2_text(st, text),
            FeedFormat::Rss1 => rss1_text(st, text),
            FeedFormat::Atom => atom_text(st, text),
        },
        _ => st,
    }
}

/// End of input: the feed must have a title; every other field is optional.
pub open spec fn spec_finish(st: StateModel) -> Result<FeedModel, ErrorModel> {
    if st.feed.title.len() == 0 {
        Err(ErrorModel::MissingField { field: "title"@ })
    } else {
        Ok(st.feed)
    }
}

/// The fold of a dialect parser over an event stream: events are applied in
/// order until the stream ends or an end-of-input marker is reached;
/// malformed XML aborts with no partial feed.
pub open spec fn spec_run(format: FeedFormat, st: StateModel, evs: Seq<EventModel>) -> Result<
    FeedModel,
    ErrorModel,
>
    decreases evs.len(),
{
    if evs.len() == 0 {
        spec_finish(st)
    } else {
        match evs[0] {
            EventModel::Eof => spec_finish(st),
            EventModel::Bad { msg } => Err(ErrorModel::Xml { msg }),
            _ => spec_run(format, spec_step(format, st, evs[0]), evs.drop_first()),
        }
    }
}

/// What parsing an event stream as the given dialect yields.
pub open spec fn spec_parse(format: FeedFormat, evs: Seq<EventModel>, url: Seq<char>) -> Result<
    FeedModel,
    ErrorModel,
> {
    spec_run(format, init_state(url), evs)
}

/// The model of a parse result.
pub open spec fn result_model(r: Result<Feed, FeedError>) -> Result<FeedModel, ErrorModel> {
    match r {
        Ok(f) => Ok(f@),
        Err(e) => Err(e@),
    }
}

/// What parsing a byte buffer yields: detect the dialect by the root
/// element, then run that dialect's parser over the same event stream.
pub open spec fn spec_parse_bytes(xml: Seq<u8>, url: Seq<char>) -> Result<FeedModel, ErrorModel> {
    let evs = abs_events(xml_events(xml));
    match spec_detect(evs) {
        None => Err(ErrorModel::UnknownFormat),
        Some(format) => spec_parse(format, evs, url),
    }
}

// --- Executable parser ---

/// A fresh, empty entry.
fn new_entry() -> (r: FeedEntry)
    ensures
        r@ =~~= empty_entry(),
{
    FeedEntry {
        id: String::new(),
        title: String::new(),
        link: String::new(),
        content: None,
        summary: None,
        author: None,
        published: None,
        updated: None,
        categories: Vec::new(),
        image_url: None,
    }
}

/// The state a parse starts from.
fn new_state(feed_url: &str) -> (r: ParseState)
    ensures
        r@ =~~= init_state(feed_url@),
{
    ParseState {
        feed: Feed {
            title: String::new(),
            link: String::new(),
            feed_url: feed_url.to_owned(),
            description: None,
            language: None,
            last_updated: None,
            entries: Vec::new(),
        },
        in_item: false,
        in_channel: false,
        in_author: false,
        entry: None,
        tag: String::new(),
        ns_tag: String::new(),
    }
}

/// The value of the last attribute named `name`, starting from `acc`.
fn attr_last_exec(attrs: &Vec<XmlAttr>, name: &str, acc: String) -> (r: String)
    ensures
        r@ == attr_last(attrs.deep_view(), name@, acc@),
{
    let ghost all = attrs.deep_view();
    let mut cur = acc;
    let mut i: usize = 0;
    proof {
        assert(all.skip(0) =~= all);
    }
    while i < attrs.len()
        invariant
            all == attrs.deep_view(),
            all.len() == attrs@.len(),
            i <= attrs@.len(),
            attr_last(all, name@, acc@) == attr_last(all.skip(i as int), name@, cur@),
        decreases attrs@.len() - i,
    {
        proof {
            assert(all.skip(i as int)[0] == all[i as int]);
            assert(all.skip(i as int).drop_first() =~= all.skip(i + 1));
        }
        if eq_lit(&attrs[i].name, name) {
            cur = attrs[i].value.clone();
        }
        i = i + 1;
    }
    proof {
        assert(all.skip(i as int) =~= Seq::<AttrModel>::empty());
    }
    cur
}

/// Does some `type` attribute declare an image media type?
fn has_image_type_exec(attrs: &Vec<XmlAttr>) -> (r: bool)
    ensures
        r == has_image_type(attrs.deep_view()),
{
    let ghost all = attrs.deep_view();
    let image_prefix = to_chars("image/");
    let mut i: usize = 0;
    while i < attrs.len()
        invariant
            all == attrs.deep_view(),
            all.len() == attrs@.len(),
            i <= attrs@.len(),
            image_prefix@ == "image/"@,
            forall|k: int|
                0 <= k < i ==> !(all[k].name == "type"@ && starts_with_spec(
                    #[trigger] all[k].value,
                    "image/"@,
                )),
        decreases attrs@.len() - i,
    {
        if eq_lit(&attrs[i].name, "type") {
            let value = to_chars(attrs[i].value.as_str());
            if starts_with(&value, &image_prefix) {
                proof {
                    assert(all[i as int].name == "type"@ && starts_with_spec(
                        all[i as int].value,
                        "image/"@,
                    ));
                }
                return true;
            }
        }
        i = i + 1;
    }
    false
}

/// Append every non-empty `term` attribute value to `cats`.
fn push_terms_exec(attrs: &Vec<XmlAttr>, cats: &mut Vec<String>)
    ensures
        final(cats).deep_view() == push_terms(attrs.deep_view(), old(cats).deep_view()),
{
    let ghost all = attrs.deep_view();
    let mut i: usize = 0;
    proof {
        assert(all.skip(0) =~= all);
    }
    while i < attrs.len()
        invariant
            all == attrs.deep_view(),
            all.len() == attrs@.len(),
            i <= attrs@.len(),
            push_terms(all, old(cats).deep_view()) == push_terms(
                all.skip(i as int),
                cats.deep_view(),
            ),
        decreases attrs@.len() - i,
    {
        proof {
            assert(all.skip(i as int)[0] == all[i as int]);
            assert(all.skip(i as int).drop_first() =~= all.skip(i + 1));
        }
        let ghost before = cats.deep_view();
        if eq_lit(&attrs[i].name, "term") && !attrs[i].value.as_str().is_empty() {
            cats.push(attrs[i].value.clone());
            proof {
                assert(cats.deep_view() =~= before.push(all[i as int].value));
            }
        }
        i = i + 1;
    }
    proof {
        assert(all.skip(i as int) =~= Seq::<AttrModel>::empty());
    }
}

/// Finalise an entry that is being closed: synthesise its id if needed.
/// `n` is the number of entries already in the feed.
fn finalize_entry(e: FeedEntry, feed_url: &String, n: usize) -> (r: FeedEntry)
    ensures
        r@ =~~= finalize_spec(e@, feed_url@, n as int),
{
    let mut e = e;
    if e.id.as_str().is_empty() {
        if !e.link.as_str().is_empty() {
            e.id = e.link.clone();
        } else {
            let mut id = feed_url.clone();
            id.append("-");
            push_decimal(n as u64, &mut id);
            proof {
                reveal_strlit("-");
                assert(id@ =~= synth_id(feed_url@, n as int));
            }
            e.id = id;
        }
    }
    e
}

/// Does the qualified tag name mention the given namespace fragment?
fn ns_contains(ns_tag: &String, pat: &str) -> (r: bool)
    ensures
        r == contains_spec(ns_tag@, pat@),
{
    let h = to_chars(ns_tag.as_str());
    let n = to_chars(pat);
    contains_sub(&h, &n)
}

/// Close the current entry/item: finalise, append, leave the scope.
fn close_item(st: &mut ParseState)
    ensures
        final(st)@ =~~= close_item_spec(old(st)@),
{
    let entry = st.entry.take();
    match entry {
        Some(e) => {
            let n = st.feed.entries.len();
            let done = finalize_entry(e, &st.feed.feed_url, n);
            st.feed.entries.push(done);
            st.in_item = false;
            proof {
                assert(st.feed.entries.deep_view() =~= old(st).feed.entries.deep_view().push(
                    finalize_spec(
                        old(st)@.entry.unwrap(),
                        old(st)@.feed.feed_url,
                        old(st)@.feed.entries.len() as int,
                    ),
                ));
            }
        },
        None => {
            st.in_item = false;
        },
    }
}

/// RSS 2.0, start tag.
fn rss2_open_exec(
    st: &mut ParseState,
    local: &String,
    full: &String,
    attrs: &Vec<XmlAttr>,
    self_closing: bool,
)
    ensures
        final(st)@ == rss2_open(old(st)@, local@, full@, attrs.deep_view(), self_closing),
{
    if self_closing {
        return ;
    }
    if eq_lit(local, "channel") {
        st.in_channel = true;
    } else if eq_lit(local, "item") && st.in_channel {
        st.in_item = true;
        st.entry = Some(new_entry());
    } else if eq_lit(local, "enclosure") && st.in_item && st.entry.is_some() {
        let url = attr_last_exec(attrs, "url", String::new());
        if has_image_type_exec(attrs) && !url.as_str().is_empty() {
            let taken = st.entry.take();
            match taken {
                Some(e) => {
                    let mut e = e;
                    e.image_url = Some(url);
                    st.entry = Some(e);
                },
                None => {
                },
            }
        }
    }
    st.tag = local.clone();
    st.ns_tag = full.clone();
    proof {
        assert(st@ =~~= rss2_open(old(st)@, local@, full@, attrs.deep_view(), self_closing));
    }
}

/// RSS 2.0, end tag.
fn rss2_close_exec(st: &mut ParseState, local: &String)
    ensures
        final(st)@ == rss2_close(old(st)@, local@),
{
    if eq_lit(local, "channel") {
        st.in_channel = false;
    } else if eq_lit(local, "item") && st.in_item {
        close_item(st);
    }
    st.tag = String::new();
    st.ns_tag = String::new();
    proof {
        assert(st@ =~~= rss2_close(old(st)@, local@));
    }
}

/// RSS 2.0, character data.
fn rss2_text_exec(st: &mut ParseState, text: &String)
    ensures
        final(st)@ == rss2_text(old(st)@, text@),
{
    if text.as_str().is_empty() {
        return ;
    }
    if st.in_item {
        let taken = st.entry.take();
        match taken {
            None => {
            },
            Some(e) => {
                let mut e = e;
                if eq_lit(&st.tag, "title") {
                    e.title = text.clone();
                } else if eq_lit(&st.tag, "link") {
                    e.link = text.clone();
                } else if eq_lit(&st.tag, "guid") {
                    e.id = text.clone();
                } else if eq_lit(&st.tag, "description") {
                    e.summary = Some(text.clone());
                } else if eq_lit(&st.tag, "encoded") && ns_contains(&st.ns_tag, "content") {
                    e.content = Some(text.clone());
                } else if eq_lit(&st.tag, "creator") && ns_contains(&st.ns_tag, "dc") {
                    e.author = Some(text.clone());
                } else if eq_lit(&st.tag, "author") {
                    e.author = Some(text.clone());
                } else if eq_lit(&st.tag, "pubDate") {
                    e.published = parse_date(text.as_str());
                } else if eq_lit(&st.tag, "category") {
                    e.categories.push(text.clone());
                }
                st.entry = Some(e);
            },
        }
    } else {
        if eq_lit(&st.tag, "title") {
            st.feed.title = text.clone();
        } else if eq_lit(&st.tag, "link") {
            st.feed.link = text.clone();
        } else if eq_lit(&st.tag, "description") {
            st.feed.description = Some(text.clone());
        } else if eq_lit(&st.tag, "language") {
            st.feed.language = Some(text.clone());
        } else if (eq_lit(&st.tag, "lastBuildDate") || eq_lit(&st.tag, "pubDate"))
            && st.feed.last_updated.is_none() {
            st.feed.last_updated = parse_date(text.as_str());
        }
    }
    proof {
        assert(st@ =~~= rss2_text(old(st)@, text@));
    }
}

/// RSS 1.0, start tag.
fn rss1_open_exec(
    st: &mut ParseState,
    local: &String,
    full: &String,
    attrs: &Vec<XmlAttr>,
    self_closing: bool,
)
    ensures
        final(st)@ == rss1_open(old(st)@, local@, full@, attrs.deep_view(), self_closing),
{
    if self_closing {
        return ;
    }
    if eq_lit(local, "channel") {
        st.in_channel = true;
    } else if eq_lit(local, "item") {
        st.in_item = true;
        st.in_channel = false;
        let mut e = new_entry();
        e.id = attr_last_exec(attrs, "about", String::new());
        st.entry = Some(e);
    }
    st.tag = local.clone();
    st.ns_tag = full.clone();
    proof {
        assert(st@ =~~= rss1_open(old(st)@, local@, full@, attrs.deep_view(), self_closing));
    }
}

/// RSS 1.0, end tag.
fn rss1_close_exec(st: &mut ParseState, local: &String)
    ensures
        final(st)@ == rss1_close(old(st)@, local@),
{
    if eq_lit(local, "channel") {
        st.in_channel = false;
    } else if eq_lit(local, "item") && st.in_item {
        close_item(st);
    }
    st.tag = String::new();
    st.ns_tag = String::new();
    proof {
        assert(st@ =~~= rss1_close(old(st)@, local@));
    }
}

/// RSS 1.0, character data.
fn rss1_text_exec(st: &mut ParseState, text: &String)
    ensures
        final(st)@ == rss1_text(old(st)@, text@),
{
    if text.as_str().is_empty() {
        return ;
    }
    if st.in_item {
        let taken = st.entry.take();
        match taken {
            None => {
            },
            Some(e) => {
                let mut e = e;
                if eq_lit(&st.tag, "title") {
                    e.title = text.clone();
                } else if eq_lit(&st.tag, "link") {
                    e.link = text.clone();
                } else if eq_lit(&st.tag, "description") {
                    e.summary = Some(text.clone());
                } else if eq_lit(&st.tag, "encoded") && ns_contains(&st.ns_tag, "content") {
                    e.content = Some(text.clone());
                } else if eq_lit(&st.tag, "creator") && ns_contains(&st.ns_tag, "dc") {
                    e.author = Some(text.clone());
                } else if eq_lit(&st.tag, "date") && ns_contains(&st.ns_tag, "dc") {
                    e.published = parse_date(text.as_str());
                } else if eq_lit(&st.tag, "subject") && ns_contains(&st.ns_tag, "dc") {
                    e.categories.push(text.clone());
                }
                st.entry = Some(e);
            },
        }
    } else if st.in_channel {
        if eq_lit(&st.tag, "title") {
            st.feed.title = text.clone();
        } else if eq_lit(&st.tag, "link") {
            st.feed.link = text.clone();
        } else if eq_lit(&st.tag, "description") {
            st.feed.description = Some(text.clone());
        } else if eq_lit(&st.tag, "language") && ns_contains(&st.ns_tag, "dc") {
            st.feed.language = Some(text.clone());
        } else if eq_lit(&st.tag, "date") && ns_contains(&st.ns_tag, "dc") {
            st.feed.last_updated = parse_date(text.as_str());
        }
    }
    proof {
        assert(st@ =~~= rss1_text(old(st)@, text@));
    }
}

/// Atom, link element: attribute-carried, first alternate wins.
fn atom_link_exec(st: &mut ParseState, attrs: &Vec<XmlAttr>)
    ensures
        final(st)@ == atom_link(old(st)@, attrs.deep_view()),
{
    let href = attr_last_exec(attrs, "href", String::new());
    let rel = attr_last_exec(attrs, "rel", String::from_str("alternate"));
    if !href.as_str().is_empty() && (eq_lit(&rel, "alternate") || rel.as_str().is_empty()) {
        if st.in_item {
            let taken = st.entry.take();
            match taken {
                Some(e) => {
                    let mut e = e;
                    if e.link.as_str().is_empty() {
                        e.link = href;
                    }
                    st.entry = Some(e);
                },
                None => {
                },
            }
        } else if st.feed.link.as_str().is_empty() {
            st.feed.link = href;
        }
    }
    proof {
        assert(st@ =~~= atom_link(old(st)@, attrs.deep_view()));
    }
}

/// Atom, category element: the `term` attribute carries the category.
fn atom_category_exec(st: &mut ParseState, attrs: &Vec<XmlAttr>)
    ensures
        final(st)@ == atom_category(old(st)@, attrs.deep_view()),
{
    if st.in_item {
        let taken = st.entry.take();
        match taken {
            Some(e) => {
                let mut e = e;
                push_terms_exec(attrs, &mut e.categories);
                st.entry = Some(e);
            },
            None => {
            },
        }
    }
    proof {
        assert(st@ =~~= atom_category(old(st)@, attrs.deep_view()));
    }
}

/// Atom, start tag.
fn atom_open_exec(st: &mut ParseState, local: &String, attrs: &Vec<XmlAttr>, self_closing: bool)
    ensures
        final(st)@ == atom_open(old(st)@, local@, attrs.deep_view(), self_closing),
{
    if self_closing {
        if eq_lit(local, "link") {
            atom_link_exec(st, attrs);
        } else if eq_lit(local, "category") {
            atom_category_exec(st, attrs);
        }
        proof {
            assert(st@ =~~= atom_open(old(st)@, local@, attrs.deep_view(), self_closing));
        }
        return ;
    }
    if eq_lit(local, "entry") && !st.in_item {
        st.in_item = true;
        st.entry = Some(new_entry());
    } else if eq_lit(local, "author") {
        st.in_author = true;
    } else if eq_lit(local, "link") {
        atom_link_exec(st, attrs);
    } else if eq_lit(local, "category") {
        atom_category_exec(st, attrs);
    }
    st.tag = local.clone();
    proof {
        assert(st@ =~~= atom_open(old(st)@, local@, attrs.deep_view(), self_closing));
    }
}

/// Atom, end tag.
fn atom_close_exec(st: &mut ParseState, local: &String)
    ensures
        final(st)@ == atom_close(old(st)@, local@),
{
    if eq_lit(local, "entry") && st.in_item {
        close_item(st);
    } else if eq_lit(local, "author") {
        st.in_author = false;
    }
    st.tag = String::new();
    proof {
        assert(st@ =~~= atom_close(old(st)@, local@));
    }
}

/// Atom, character data.
fn atom_text_exec(st: &mut ParseState, text: &String)
    ensures
        final(st)@ == atom_text(old(st)@, text@),
{
    if text.as_str().is_empty() {
        return ;
    }
    if st.in_item {
        let taken = st.entry.take();
        match taken {
            None => {
            },
            Some(e) => {
                let mut e = e;
                if st.in_author && eq_lit(&st.tag, "name") {
                    e.author = Some(text.clone());
                } else if eq_lit(&st.tag, "title") {
                    e.title = text.clone();
                } else if eq_lit(&st.tag, "id") {
                    e.id = text.clone();
                } else if eq_lit(&st.tag, "content") {
                    e.content = Some(text.clone());
                } else if eq_lit(&st.tag, "summary") {
                    e.summary = Some(text.clone());
                } else if eq_lit(&st.tag, "published") {
                    e.published = parse_date(text.as_str());
                } else if eq_lit(&st.tag, "updated") {
                    e.updated = parse_date(text.as_str());
                }
                st.entry = Some(e);
            },
        }
    } else {
        if eq_lit(&st.tag, "title") {
            st.feed.title = text.clone();
        } else if eq_lit(&st.tag, "subtitle") {
            st.feed.description = Some(text.clone());
        } else if eq_lit(&st.tag, "updated") {
            st.feed.last_updated = parse_date(text.as_str());
        }
    }
    proof {
        assert(st@ =~~= atom_text(old(st)@, text@));
    }
}

/// Apply one event to the state, by dialect.
fn step(format: FeedFormat, st: &mut ParseState, ev: &XmlEvent)
    ensures
        final(st)@ == spec_step(format, old(st)@, ev@),
{
    match ev {
        XmlEvent::Open { local, full, attrs, self_closing } => match format {
            FeedFormat::Rss2 => rss2_open_exec(st, local, full, attrs, *self_closing),
            FeedFormat::Rss1 => rss1_open_exec(st, local, full, attrs, *self_closing),
            FeedFormat::Atom => atom_open_exec(st, local, attrs, *self_closing),
        },
        XmlEvent::Close { local } => match format {
            FeedFormat::Rss2 => rss2_close_exec(st, local),
            FeedFormat::Rss1 => rss1_close_exec(st, local),
            FeedFormat::Atom => atom_close_exec(st, local),
        },
        XmlEvent::Text { text } => match format {
            FeedFormat::Rss2 => rss2_text_exec(st, text),
            FeedFormat::Rss1 => rss1_text_exec(st, text),
            FeedFormat::Atom => atom_text_exec(st, text),
        },
        _ => {
        },
    }
}

/// End of input: the title is the only mandatory field.
fn finish(st: ParseState) -> (r: Result<Feed, FeedError>)
    ensures
        result_model(r) == spec_finish(st@),
{
    if st.feed.title.as_str().is_empty() {
        Err(FeedError::MissingField(String::from_str("title")))
    } else {
        Ok(st.feed)
    }
}

/// Parse an already-tokenised event stream as the given dialect.
///
/// The result is exactly the fold of the dialect's transition function over
/// the events: entries come out in document order, each with a non-empty id,
/// and a feed without a title is rejected.
pub fn parse_events(format: FeedFormat, events: &Vec<XmlEvent>, feed_url: &str) -> (r: Result<
    Feed,
    FeedError,
>)
    ensures
        result_model(r) == spec_parse(format, events.deep_view(), feed_url@),
{
    let ghost all = events.deep_view();
    let mut st = new_state(feed_url);
    let ghost goal = spec_run(format, st@, all);
    let mut i: usize = 0;
    proof {
        assert(all.skip(0) =~= all);
    }
    while i < events.len()
        invariant
            all == events.deep_view(),
            all.len() == events@.len(),
            i <= events@.len(),
            goal == spec_run(format, st@, all.skip(i as int)),
            goal == spec_parse(format, all, feed_url@),
        decreases events@.len() - i,
    {
        proof {
            assert(all.skip(i as int)[0] == all[i as int]);
            assert(all.skip(i as int).drop_first() =~= all.skip(i + 1));
        }
        match &events[i] {
            XmlEvent::Eof => {
                return finish(st);
            },
            XmlEvent::Bad { msg } => {
                return Err(FeedError::Xml(msg.clone()));
            },
            ev => {
                step(format, &mut st, ev);
            },
        }
        i = i + 1;
    }
    proof {
        assert(all.skip(i as int) =~= Seq::<EventModel>::empty());
    }
    finish(st)
}

/// Parse XML bytes into a feed, auto-detecting the dialect.
pub fn parse(xml: &[u8], feed_url: &str) -> (r: Result<Feed, FeedError>)
    ensures
        result_model(r) == spec_parse_bytes(xml@, feed_url@),
{
    let events = collect_events(xml);
    match detect_events(&events) {
        None => Err(FeedError::UnknownFormat),
        Some(format) => parse_events(format, &events, feed_url),
    }
}

// --- Laws ---

/// Law: an Atom feed's link is first-wins. Once `feed.link` is set, no
/// later event of the Atom parser replaces it; in particular a second
/// `alternate` link is ignored.
pub proof fn lemma_atom_feed_link_first_wins(st: StateModel, ev: EventModel)
    requires
        st.feed.link.len() > 0,
    ensures
        spec_step(FeedFormat::Atom, st, ev).feed.link == st.feed.link,
{
}

/// Law: an Atom entry's link is first-wins. While an entry with a non-empty
/// link is in progress, a further link element leaves it unchanged.
pub proof fn lemma_atom_entry_link_first_wins(st: StateModel, attrs: Seq<AttrModel>)
    requires
        st.in_item,
        st.entry is Some,
        st.entry.unwrap().link.len() > 0,
    ensures
        atom_link(st, attrs).entry == st.entry,
{
}

/// Law: the RSS 2.0 feed-level update time is first-non-empty-wins. Once
/// `last_updated` is set, no later event of the RSS 2.0 parser replaces it.
pub proof fn lemma_rss2_last_updated_first_wins(st: StateModel, ev: EventModel)
    requires
        st.feed.last_updated is Some,
    ensures
        spec_step(FeedFormat::Rss2, st, ev).feed.last_updated == st.feed.last_updated,
{
}

/// Every entry of the sequence has a non-empty identifier.
pub open spec fn all_ids_nonempty(entries: Seq<EntryModel>) -> bool {
    forall|k: int| 0 <= k < entries.len() ==> (#[trigger] entries[k]).id.len() > 0
}

/// A decimal rendering is never empty.
proof fn lemma_dec_digits_nonempty(n: int)
    ensures
        dec_digits(n).len() >= 1,
    decreases n,
{
    if n >= 10 {
        lemma_dec_digits_nonempty(n / 10);
    }
}

/// A finalised entry always carries a non-empty identifier.
proof fn lemma_finalize_id_nonempty(e: EntryModel, url: Seq<char>, n: int)
    ensures
        finalize_spec(e, url, n).id.len() > 0,
{
    if e.id.len() == 0 && e.link.len() == 0 {
        lemma_dec_digits_nonempty(n);
    }
}

/// One step keeps every finalised entry's identifier non-empty.
proof fn lemma_step_preserves_ids(format: FeedFormat, st: StateModel, ev: EventModel)
    requires
        all_ids_nonempty(st.feed.entries),
    ensures
        all_ids_nonempty(spec_step(format, st, ev).feed.entries),
{
    let st2 = spec_step(format, st, ev);
    if st2.feed.entries != st.feed.entries {
        match st.entry {
            Some(e) => {
                lemma_finalize_id_nonempty(e, st.feed.feed_url, st.feed.entries.len() as int);
                assert(st2.feed.entries =~= st.feed.entries.push(
                    finalize_spec(e, st.feed.feed_url, st.feed.entries.len() as int),
                ));
            },
            None => {
            },
        }
    }
}

/// The fold keeps every finalised entry's identifier non-empty.
proof fn lemma_run_preserves_ids(format: FeedFormat, st: StateModel, evs: Seq<EventModel>)
    requires
        all_ids_nonempty(st.feed.entries),
        spec_run(format, st, evs) is Ok,
    ensures
        all_ids_nonempty((spec_run(format, st, evs)->Ok_0).entries),
    decreases evs.len(),
{
    if evs.len() == 0 {
    } else {
        match evs[0] {
            EventModel::Eof => {
            },
            EventModel::Bad { .. } => {
            },
            _ => {
                lemma_step_preserves_ids(format, st, evs[0]);
                lemma_run_preserves_ids(format, spec_step(format, st, evs[0]), evs.drop_first());
            },
        }
    }
}

/// Law: an entry's identifier is never empty once parsing completes. If the
/// dialect provided no guid, id or `about`, it was synthesised from the
/// entry link or from the feed URL and the entry's ordinal.
pub proof fn lemma_parsed_ids_nonempty(format: FeedFormat, evs: Seq<EventModel>, url: Seq<char>)
    requires
        spec_parse(format, evs, url) is Ok,
    ensures
        all_ids_nonempty((spec_parse(format, evs, url)->Ok_0).entries),
{
    lemma_run_preserves_ids(format, init_state(url), evs);
}

/// The engine's parsing entry point over text input.
pub struct FeedParser;

impl FeedParser {
    /// Parse an XML string into a feed, auto-detecting the dialect.
    pub fn parse(xml: &str, feed_url: &str) -> (r: Result<Feed, FeedError>)
        ensures
            result_model(r) == spec_parse_bytes(xml.spec_bytes(), feed_url@),
    {
        parse(xml.as_bytes(), feed_url)
    }
}

} // verus!



//! OPML feed-list import.
//!
//! An OPML document is a tree of `outline` elements; every one that carries
//! a non-empty `xmlUrl` (or `xmlurl`) attribute names a feed. The scan runs
//! over the same event stream as the dialect parsers and collects the URLs
//! in document order.

use vstd::prelude::*;
use vstd::string::*;

use crate::strutil::eq_lit;
use crate::xml::{abs_events, collect_events, xml_events, AttrModel, EventModel, XmlAttr, XmlEvent};

verus! {

/// What can go wrong while reading an OPML document.
#[derive(Debug)]
pub enum OpmlError {
    /// The XML was malformed; the payload says what went wrong.
    ParseError(String),
    /// The document holds no feed URL at all.
    NoFeeds,
}

/// The mathematical shape of an OPML error.
#[verifier::ext_equal]
pub ghost enum OpmlErrorModel {
    ParseError { msg: Seq<char> },
    NoFeeds,
}

impl View for OpmlError {
    type V = OpmlErrorModel;

    open spec fn view(&self) -> OpmlErrorModel {
        match self {
            OpmlError::ParseError(m) => OpmlErrorModel::ParseError { msg: m@ },
            OpmlError::NoFeeds => OpmlErrorModel::NoFeeds,
        }
    }
}

/// The last non-empty `xmlUrl`/`xmlurl` attribute of an outline element.
pub open spec fn outline_url(attrs: Seq<AttrModel>, acc: Option<Seq<char>>) -> Option<Seq<char>>
    decreases attrs.len(),
{
    if attrs.len() == 0 {
        acc
    } else {
        outline_url(
            attrs.drop_first(),
            if (attrs[0].name == "xmlUrl"@ || attrs[0].name == "xmlurl"@) && attrs[0].value.len()
                > 0 {
                Some(attrs[0].value)
            } else {
                acc
            },
        )
    }
}

/// End of input: a document without feed URLs is an error.
pub open spec fn spec_opml_finish(urls: Seq<Seq<char>>) -> Result<Seq<Seq<char>>, OpmlErrorModel> {
    if urls.len() == 0 {
        Err(OpmlErrorModel::NoFeeds)
    } else {
        Ok(urls)
    }
}

/// The fold of the OPML scan: each `outline` element (start tag or
/// self-closing) may contribute one URL; malformed XML aborts.
pub open spec fn spec_opml_run(evs: Seq<EventModel>, urls: Seq<Seq<char>>) -> Result<
    Seq<Seq<char>>,
    OpmlErrorModel,
>
    decreases evs.len(),
{
    if evs.len() == 0 {
        spec_opml_finish(urls)
    } else {
        match evs[0] {
            EventModel::Eof => spec_opml_finish(urls),
            EventModel::Bad { msg } => Err(OpmlErrorModel::ParseError { msg }),
            EventModel::Open { full, attrs, .. } => spec_opml_run(
                evs.drop_first(),
                if full == "outline"@ {
                    match outline_url(attrs, None) {
                        Some(u) => urls.push(u),
                        None => urls,
                    }
                } else {
                    urls
                },
            ),
            _ => spec_opml_run(evs.drop_first(), urls),
        }
    }
}

/// What scanning an OPML byte buffer yields.
pub open spec fn spec_parse_opml(xml: Seq<u8>) -> Result<Seq<Seq<char>>, OpmlErrorModel> {
    spec_opml_run(abs_events(xml_events(xml)), Seq::empty())
}

/// The model of an OPML scan result.
pub open spec fn opml_result_model(r: Result<Vec<String>, OpmlError>) -> Result<
    Seq<Seq<char>>,
    OpmlErrorModel,
> {
    match r {
        Ok(urls) => Ok(urls.deep_view()),
        Err(e) => Err(e@),
    }
}

/// The last non-empty `xmlUrl`/`xmlurl` attribute value, if any.
fn outline_url_exec(attrs: &Vec<XmlAttr>) -> (r: Option<String>)
    ensures
        outline_url(attrs.deep_view(), None) == match r {
            Some(u) => Some::<Seq<char>>(u@),
            None => None::<Seq<char>>,
        },
{
    let ghost all = attrs.deep_view();
    let mut cur: Option<String> = None;
    let mut i: usize = 0;
    proof {
        assert(all.skip(0) =~= all);
    }
    while i < attrs.len()
        invariant
            all == attrs.deep_view(),
            all.len() == attrs@.len(),
            i <= attrs@.len(),
            outline_url(all, None) == outline_url(
                all.skip(i as int),
                match cur {
                    Some(u) => Some(u@),
                    None => None,
                },
            ),
        decreases attrs@.len() - i,
    {
        proof {
            assert(all.skip(i as int)[0] == all[i as int]);
            assert(all.skip(i as int).drop_first() =~= all.skip(i + 1));
        }
        if (eq_lit(&attrs[i].name, "xmlUrl") || eq_lit(&attrs[i].name, "xmlurl")) && !attrs[i]
            .value
            .as_str()
            .is_empty() {
            cur = Some(attrs[i].value.clone());
        }
        i = i + 1;
    }
    proof {
        assert(all.skip(i as int) =~= Seq::<AttrModel>::empty());
    }
    cur
}

/// Parse an OPML document and extract the feed URLs it names, in document
/// order. Fails on malformed XML and on a document with no feed URL.
pub fn parse_opml(xml: &str) -> (r: Result<Vec<String>, OpmlError>)
    ensures
        opml_result_model(r) == spec_parse_opml(xml.spec_bytes()),
{
    let events = collect_events(xml.as_bytes());
    let ghost all = events.deep_view();
    let mut urls: Vec<String> = Vec::new();
    let ghost goal = spec_opml_run(all, urls.deep_view());
    let mut i: usize = 0;
    proof {
        assert(all.skip(0) =~= all);
        assert(urls.deep_view() =~= Seq::<Seq<char>>::empty());
    }
    while i < events.len()
        invariant
            all == events.deep_view(),
            all.len() == events@.len(),
            i <= events@.len(),
            goal == spec_opml_run(all.skip(i as int), urls.deep_view()),
            goal == spec_parse_opml(xml.spec_bytes()),
        decreases events@.len() - i,
    {
        proof {
            assert(all.skip(i as int)[0] == all[i as int]);
            assert(all.skip(i as int).drop_first() =~= all.skip(i + 1));
        }
        match &events[i] {
            XmlEvent::Eof => {
                return finish_opml(urls);
            },
            XmlEvent::Bad { msg } => {
                return Err(OpmlError::ParseError(msg.clone()));
            },
            XmlEvent::Open { full, attrs, .. } => {
                if eq_lit(full, "outline") {
                    let ghost before = urls.deep_view();
                    match outline_url_exec(attrs) {
                        Some(u) => {
                            urls.push(u);
                            proof {
                                assert(urls.deep_view() =~= before.push(
                                    outline_url(attrs.deep_view(), None).unwrap(),
                                ));
                            }
                        },
                        None => {
                        },
                    }
                }
            },
            _ => {
            },
        }
        i = i + 1;
    }
    proof {
        assert(all.skip(i as int) =~= Seq::<EventModel>::empty());
    }
    finish_opml(urls)
}

/// End of input: hand back the URLs, or the no-feeds error.
fn finish_opml(urls: Vec<String>) -> (r: Result<Vec<String>, OpmlError>)
    ensures
        opml_result_model(r) == spec_opml_finish(urls.deep_view()),
{
    if urls.len() == 0 {
        Err(OpmlError::NoFeeds)
    } else {
        Ok(urls)
    }
}

} // verus!

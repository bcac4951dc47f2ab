//! Format detection.
//!
//! The detector scans the event stream, skipping anything that is not a
//! start tag, and classifies the document by the unprefixed name of its
//! first element: `rss`, `RDF` or `feed`. Any other first element, an empty
//! document, or malformed XML yields no format at all.

use vstd::prelude::*;

use crate::strutil::eq_lit;
use crate::xml::{abs_events, collect_events, xml_events, EventModel, XmlEvent};

verus! {

/// The three feed dialects this engine understands.
#[derive(Debug, Clone, Copy, PartialEq, Eq, Structural)]
pub enum FeedFormat {
    Rss2,
    Rss1,
    Atom,
}

/// The format the first element of the stream names, if any: `rss` is
/// RSS 2.0, `RDF` is RSS 1.0, `feed` is Atom. No element before the end of
/// the stream, a read error, or any other element name means no format.
pub open spec fn spec_detect(evs: Seq<EventModel>) -> Option<FeedFormat>
    decreases evs.len(),
{
    if evs.len() == 0 {
        None
    } else {
        match evs[0] {
            EventModel::Open { local, .. } => if local == "rss"@ {
                Some(FeedFormat::Rss2)
            } else if local == "RDF"@ {
                Some(FeedFormat::Rss1)
            } else if local == "feed"@ {
                Some(FeedFormat::Atom)
            } else {
                None
            },
            EventModel::Eof => None,
            EventModel::Bad { .. } => None,
            _ => spec_detect(evs.drop_first()),
        }
    }
}

/// Classify an already-tokenised event stream by its first element.
pub fn detect_events(events: &Vec<XmlEvent>) -> (r: Option<FeedFormat>)
    ensures
        r == spec_detect(events.deep_view()),
{
    let ghost all = events.deep_view();
    let mut i: usize = 0;
    proof {
        assert(all.skip(0) =~= all);
    }
    while i < events.len()
        invariant
            all == events.deep_view(),
            all.len() == events@.len(),
            i <= events@.len(),
            spec_detect(all) == spec_detect(all.skip(i as int)),
        decreases events@.len() - i,
    {
        proof {
            assert(all.skip(i as int)[0] == all[i as int]);
            assert(all.skip(i as int).drop_first() =~= all.skip(i + 1));
        }
        match &events[i] {
            XmlEvent::Open { local, .. } => {
                if eq_lit(local, "rss") {
                    return Some(FeedFormat::Rss2);
                } else if eq_lit(local, "RDF") {
                    return Some(FeedFormat::Rss1);
                } else if eq_lit(local, "feed") {
                    return Some(FeedFormat::Atom);
                } else {
                    return None;
                }
            },
            XmlEvent::Eof => {
                return None;
            },
            XmlEvent::Bad { .. } => {
                return None;
            },
            _ => {},
        }
        i = i + 1;
    }
    proof {
        assert(all.skip(i as int) =~= Seq::<EventModel>::empty());
    }
    None
}

/// The format a root element name denotes.
pub open spec fn classify(local: Seq<char>) -> Option<FeedFormat> {
    if local == "rss"@ {
        Some(FeedFormat::Rss2)
    } else if local == "RDF"@ {
        Some(FeedFormat::Rss1)
    } else if local == "feed"@ {
        Some(FeedFormat::Atom)
    } else {
        None
    }
}

/// The element name an open event carries.
pub open spec fn open_name(ev: EventModel) -> Seq<char> {
    match ev {
        EventModel::Open { local, .. } => local,
        _ => Seq::empty(),
    }
}

/// Law: detection is decided by the first start element alone. For every
/// stream whose first start element comes at position `i`, with nothing but
/// skippable structure before it, the detector answers `rss` with RSS 2.0,
/// `RDF` with RSS 1.0, `feed` with Atom, and any other name with no format.
pub proof fn lemma_detect_first_element(evs: Seq<EventModel>, i: int)
    requires
        0 <= i < evs.len(),
        evs[i] is Open,
        forall|j: int|
            0 <= j < i ==> !((#[trigger] evs[j]) is Open || evs[j] is Eof || evs[j] is Bad),
    ensures
        spec_detect(evs) == classify(open_name(evs[i])),
    decreases i,
{
    if i == 0 {
    } else {
        assert(evs.drop_first()[i - 1] == evs[i]);
        assert(forall|j: int|
            0 <= j < i - 1 ==> !((#[trigger] evs.drop_first()[j]) is Open || evs.drop_first()[j]
                is Eof || evs.drop_first()[j] is Bad));
        lemma_detect_first_element(evs.drop_first(), i - 1);
    }
}

/// Law: a stream with no start element at all yields no format.
pub proof fn lemma_detect_no_element(evs: Seq<EventModel>)
    requires
        forall|j: int| 0 <= j < evs.len() ==> !((#[trigger] evs[j]) is Open),
    ensures
        spec_detect(evs) is None,
    decreases evs.len(),
{
    if evs.len() > 0 {
        assert(forall|j: int|
            0 <= j < evs.drop_first().len() ==> !((#[trigger] evs.drop_first()[j]) is Open));
        lemma_detect_no_element(evs.drop_first());
    }
}

/// Detect the feed format by examining the root XML element of a byte
/// buffer.
pub fn detect_format(xml: &[u8]) -> (r: Option<FeedFormat>)
    ensures
        r == spec_detect(abs_events(xml_events(xml@))),
{
    let events = collect_events(xml);
    detect_events(&events)
}

} // verus!

//! The XML event layer.
//!
//! The dialect parsers and the format detector all work over one stream of
//! structural events: element open, element close, character data, and an
//! end-of-input or malformed-input marker. Tokenising raw bytes into that
//! stream is quick_xml's job and is trusted; everything downstream of
//! [`XmlEvent`] is verified. The stream a byte buffer tokenises to is named
//! by [`xml_events`], so the contracts of the parsers can be stated exactly
//! over it.

use vstd::prelude::*;

use quick_xml::events::Event;

verus! {

/// One XML attribute: its unprefixed name and its unescaped value.
pub struct XmlAttr {
    pub name: String,
    pub value: String,
}

/// The mathematical shape of an attribute.
#[verifier::ext_equal]
pub ghost struct AttrModel {
    pub name: Seq<char>,
    pub value: Seq<char>,
}

impl View for XmlAttr {
    type V = AttrModel;

    open spec fn view(&self) -> AttrModel {
        AttrModel { name: self.name@, value: self.value@ }
    }
}

impl DeepView for XmlAttr {
    type V = AttrModel;

    open spec fn deep_view(&self) -> AttrModel {
        self@
    }
}

/// One structural event of an XML document, with all text decoded into
/// plain values.
pub enum XmlEvent {
    /// A start tag or a self-closing tag, with its unprefixed name, its
    /// full (possibly prefixed) name, and its attributes in document order.
    Open { local: String, full: String, attrs: Vec<XmlAttr>, self_closing: bool },
    /// An end tag, by its unprefixed name.
    Close { local: String },
    /// Character data, whether plain text or a CDATA block.
    Text { text: String },
    /// A declaration, comment, processing instruction or DOCTYPE: skipped.
    Skip,
    /// End of input.
    Eof,
    /// Malformed XML; the message says what went wrong.
    Bad { msg: String },
}

/// The mathematical shape of an event.
#[verifier::ext_equal]
pub ghost enum EventModel {
    Open { local: Seq<char>, full: Seq<char>, attrs: Seq<AttrModel>, self_closing: bool },
    Close { local: Seq<char> },
    Text { text: Seq<char> },
    Skip,
    Eof,
    Bad { msg: Seq<char> },
}

impl View for XmlEvent {
    type V = EventModel;

    open spec fn view(&self) -> EventModel {
        match self {
            XmlEvent::Open { local, full, attrs, self_closing } => EventModel::Open {
                local: local@,
                full: full@,
                attrs: attrs.deep_view(),
                self_closing: *self_closing,
            },
            XmlEvent::Close { local } => EventModel::Close { local: local@ },
            XmlEvent::Text { text } => EventModel::Text { text: text@ },
            XmlEvent::Skip => EventModel::Skip,
            XmlEvent::Eof => EventModel::Eof,
            XmlEvent::Bad { msg } => EventModel::Bad { msg: msg@ },
        }
    }
}

impl DeepView for XmlEvent {
    type V = EventModel;

    open spec fn deep_view(&self) -> EventModel {
        self@
    }
}

#[verifier::external_type_specification]
#[verifier::external_body]
#[verifier::reject_recursive_types(R)]
pub struct ExReader<R>(quick_xml::Reader<R>);

#[verifier::external_type_specification]
#[verifier::external_body]
pub struct ExBytesStart<'a>(quick_xml::events::BytesStart<'a>);

#[verifier::external_type_specification]
#[verifier::external_body]
#[verifier::reject_recursive_types(T)]
pub struct ExCursor<T>(std::io::Cursor<T>);

/// One event as quick_xml hands it out, before its start tags are decoded.
pub enum RawEvent {
    Open(quick_xml::events::BytesStart<'static>, bool),
    Close(String),
    Text(String),
    Skip,
    Eof,
    Bad(String),
}

/// The events that tokenising these bytes yields, up to and including the
/// first end-of-input or error. quick_xml reads deterministically, so the
/// stream is a function of the bytes alone.
pub uninterp spec fn xml_events(xml: Seq<u8>) -> Seq<RawEvent>;

/// The events a reader has yet to hand out.
pub uninterp spec fn stream_of(r: quick_xml::Reader<std::io::Cursor<Vec<u8>>>) -> Seq<RawEvent>;

/// The unprefixed tag name of a start tag.
pub uninterp spec fn open_local(e: quick_xml::events::BytesStart<'static>) -> Seq<char>;

/// The full, possibly prefixed tag name of a start tag.
pub uninterp spec fn open_full(e: quick_xml::events::BytesStart<'static>) -> Seq<char>;

/// The attributes of a start tag, in document order.
pub uninterp spec fn open_attrs(e: quick_xml::events::BytesStart<'static>) -> Seq<AttrModel>;

/// Is this event the end of its stream?
pub open spec fn is_terminal(e: RawEvent) -> bool {
    e is Eof || e is Bad
}

/// A well-formed stream: it ends with exactly one terminal event.
pub open spec fn terminated(s: Seq<RawEvent>) -> bool {
    &&& s.len() >= 1
    &&& is_terminal(s.last())
    &&& forall|i: int| 0 <= i < s.len() - 1 ==> !is_terminal(#[trigger] s[i])
}

/// Relies on quick_xml's `Reader::from_reader`, with text trimming enabled
/// as every parser of this engine expects: the reader will hand out exactly
/// the event stream of these bytes, which ends at the first end-of-input or
/// read error.
#[verifier::external_body]
fn reader_new(xml: &[u8]) -> (r: quick_xml::Reader<std::io::Cursor<Vec<u8>>>)
    ensures
        stream_of(r) == xml_events(xml@),
        terminated(stream_of(r)),
{
    let mut r = quick_xml::Reader::from_reader(std::io::Cursor::new(xml.to_vec()));
    r.config_mut().trim_text(true);
    r
}

/// Relies on quick_xml's `Reader::read_event_into`: each call hands out the
/// next event of the stream. Text is unescaped, falling back to the empty
/// string; CDATA is decoded as UTF-8, lossily; a read error ends the
/// stream.
#[verifier::external_body]
fn reader_next(r: &mut quick_xml::Reader<std::io::Cursor<Vec<u8>>>) -> (ev: RawEvent)
    ensures
        stream_of(*old(r)).len() > 0 ==> ev == stream_of(*old(r))[0] && stream_of(*final(r)) == stream_of(
            *old(r),
        ).drop_first(),
        stream_of(*old(r)).len() == 0 ==> ev == RawEvent::Eof && stream_of(*final(r)) == stream_of(
            *old(r),
        ),
{
    let mut buf = Vec::new();
    match r.read_event_into(&mut buf) {
        Ok(Event::Start(e)) => RawEvent::Open(e.into_owned(), false),
        Ok(Event::Empty(e)) => RawEvent::Open(e.into_owned(), true),
        Ok(Event::End(e)) => RawEvent::Close(
            String::from_utf8_lossy(e.local_name().as_ref()).into_owned(),
        ),
        Ok(Event::Text(e)) => RawEvent::Text(e.unescape().unwrap_or_default().into_owned()),
        Ok(Event::CData(e)) => RawEvent::Text(String::from_utf8_lossy(e.as_ref()).into_owned()),
        Ok(Event::Eof) => RawEvent::Eof,
        Ok(_) => RawEvent::Skip,
        Err(e) => RawEvent::Bad(e.to_string()),
    }
}

/// Relies on `BytesStart::local_name`: the tag name with any prefix removed.
#[verifier::external_body]
fn start_local(e: &quick_xml::events::BytesStart<'static>) -> (r: String)
    ensures
        r@ == open_local(*e),
{
    String::from_utf8_lossy(e.local_name().as_ref()).into_owned()
}

/// Relies on `BytesStart::name`: the full, possibly prefixed tag name.
#[verifier::external_body]
fn start_full(e: &quick_xml::events::BytesStart<'static>) -> (r: String)
    ensures
        r@ == open_full(*e),
{
    String::from_utf8_lossy(e.name().as_ref()).into_owned()
}

/// Relies on `BytesStart::attributes` and `Attribute::unescape_value`: each
/// attribute's unprefixed name and unescaped value, in document order;
/// attributes that fail to decode are dropped, values that fail to unescape
/// become empty.
#[verifier::external_body]
fn start_attrs(e: &quick_xml::events::BytesStart<'static>) -> (r: Vec<XmlAttr>)
    ensures
        r.deep_view() == open_attrs(*e),
{
    e.attributes().flatten().map(|a| XmlAttr {
        name: String::from_utf8_lossy(a.key.local_name().as_ref()).into_owned(),
        value: a.unescape_value().unwrap_or_default().into_owned(),
    }).collect()
}

/// The decoded form of one raw event.
pub open spec fn abs_event(e: RawEvent) -> EventModel {
    match e {
        RawEvent::Open(b, sc) => EventModel::Open {
            local: open_local(b),
            full: open_full(b),
            attrs: open_attrs(b),
            self_closing: sc,
        },
        RawEvent::Close(l) => EventModel::Close { local: l@ },
        RawEvent::Text(t) => EventModel::Text { text: t@ },
        RawEvent::Skip => EventModel::Skip,
        RawEvent::Eof => EventModel::Eof,
        RawEvent::Bad(m) => EventModel::Bad { msg: m@ },
    }
}

/// The decoded form of a raw event stream.
pub open spec fn abs_events(s: Seq<RawEvent>) -> Seq<EventModel> {
    s.map_values(|e: RawEvent| abs_event(e))
}

/// Tokenise a byte buffer into its full event stream, decoded into plain
/// values. The result always ends with an `Eof` or a `Bad` event.
pub fn collect_events(xml: &[u8]) -> (r: Vec<XmlEvent>)
    ensures
        r.deep_view() == abs_events(xml_events(xml@)),
{
    let mut reader = reader_new(xml);
    let ghost all = xml_events(xml@);
    let mut out: Vec<XmlEvent> = Vec::new();
    let ghost mut i: int = 0;
    proof {
        assert(all.skip(0) =~= all);
        assert(out.deep_view() =~= abs_events(all).take(0));
    }
    loop
        invariant_except_break
            terminated(all),
            0 <= i < all.len(),
            stream_of(reader) =~= all.skip(i),
            out.deep_view() =~= abs_events(all).take(i),
        ensures
            out.deep_view() =~= abs_events(all),
        decreases all.len() - i,
    {
        let ghost prev = out.deep_view();
        let ev = reader_next(&mut reader);
        proof {
            assert(all.skip(i).len() > 0);
            assert(all.skip(i)[0] == all[i]);
            assert(all.skip(i).drop_first() =~= all.skip(i + 1));
        }
        let ghost cur = all[i];
        proof {
            i = i + 1;
        }
        let done: bool;
        match ev {
            RawEvent::Open(b, sc) => {
                let local = start_local(&b);
                let full = start_full(&b);
                let attrs = start_attrs(&b);
                out.push(XmlEvent::Open { local, full, attrs, self_closing: sc });
                done = false;
            },
            RawEvent::Close(l) => {
                out.push(XmlEvent::Close { local: l });
                done = false;
            },
            RawEvent::Text(t) => {
                out.push(XmlEvent::Text { text: t });
                done = false;
            },
            RawEvent::Skip => {
                out.push(XmlEvent::Skip);
                done = false;
            },
            RawEvent::Eof => {
                out.push(XmlEvent::Eof);
                done = true;
            },
            RawEvent::Bad(m) => {
                out.push(XmlEvent::Bad { msg: m });
                done = true;
            },
        }
        proof {
            assert(out.deep_view() =~= prev.push(abs_event(cur)));
            assert(abs_events(all).take(i) =~= abs_events(all).take(i - 1).push(
                abs_events(all)[i - 1],
            ));
            assert(out.deep_view() =~= abs_events(all).take(i));
        }
        if done {
            proof {
                assert(is_terminal(cur));
                assert(i - 1 == all.len() - 1);
                assert(abs_events(all).take(i) =~= abs_events(all));
            }
            break ;
        }
        proof {
            assert(!is_terminal(cur));
            assert(i < all.len());
        }
    }
    out
}

} // verus!

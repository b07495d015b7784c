use vstd::prelude::*;
use crate::error::ParseError;
use crate::xml::XmlElement;
use crate::xml::XmlView;
use crate::xml::elem_view;
use crate::xml::views_of;
use crate::xml::clone_attrs;
use crate::xml::push_chars;
use crate::xml::str_eq;
use crate::error::ErrorView;

verus! {

#[verifier::external_type_specification]
#[verifier::external_body]
#[verifier::reject_recursive_types(R)]
pub struct ExReader<R>(quick_xml::reader::Reader<R>);

#[verifier::external_type_specification]
#[verifier::external_body]
pub struct ExBytesStart<'a>(quick_xml::events::BytesStart<'a>);

#[verifier::external_type_specification]
#[verifier::external_body]
pub struct ExBytesEnd<'a>(quick_xml::events::BytesEnd<'a>);

#[verifier::external_type_specification]
#[verifier::external_body]
pub struct ExBytesText<'a>(quick_xml::events::BytesText<'a>);

#[verifier::external_type_specification]
#[verifier::external_body]
pub struct ExBytesCData<'a>(quick_xml::events::BytesCData<'a>);

#[verifier::external_type_specification]
#[verifier::external_body]
pub struct ExAttributes<'a>(quick_xml::events::attributes::Attributes<'a>);

#[verifier::external_type_specification]
#[verifier::external_body]
pub struct ExAttribute<'a>(quick_xml::events::attributes::Attribute<'a>);

#[verifier::external_type_specification]
#[verifier::external_body]
pub struct ExAttrError(quick_xml::events::attributes::AttrError);

/// One structural event of the input, as plain values.
pub enum XmlEvent {
    Open { name: String, attrs: Vec<(String, String)> },
    Close { name: String },
    Text { text: String },
}

/// Mathematical image of an `XmlEvent`.
pub ghost enum EventView {
    Open { name: Seq<char>, attrs: Seq<(Seq<char>, Seq<char>)> },
    Close { name: Seq<char> },
    Text { text: Seq<char> },
}

impl DeepView for XmlEvent {
    type V = EventView;

    open spec fn deep_view(&self) -> EventView {
        match self {
            XmlEvent::Open { name, attrs } => EventView::Open {
                name: name@,
                attrs: attrs.deep_view(),
            },
            XmlEvent::Close { name } => EventView::Close { name: name@ },
            XmlEvent::Text { text } => EventView::Text { text: text@ },
        }
    }
}

/// What the tokenizer yields for a text, decoded to plain values: the run
/// of structural events in document order (an empty element expanded to an
/// open and a close, character data with escapes resolved, every
/// non-structural event omitted), cut off before the first event at which
/// the tokenizer, an attribute or an escape faults; and `true` exactly
/// when no such fault cuts it off.  A function of the text alone: the
/// slice reader touches nothing else.  This is `reader_rest` of a fresh
/// reader on the text.
pub uninterp spec fn events_of(s: Seq<char>) -> (Seq<EventView>, bool);

/// The events a reader will still hand out from its present state,
/// decoded as in `events_of` and cut off in the same way before its first
/// upcoming fault; and `true` exactly when no fault lies ahead of it.  A
/// function of the reader's state, whatever that state is — also after a
/// fault was already handed out, when nothing is left ahead.
pub uninterp spec fn reader_rest(r: quick_xml::reader::Reader<&[u8]>) -> (Seq<EventView>, bool);

/// How much input the reader has not yet consumed; each event it hands
/// out consumes at least one byte.
pub uninterp spec fn bytes_left(r: quick_xml::reader::Reader<&[u8]>) -> nat;

/// A start tag's decoded content: its name, its attributes in document
/// order with values unescaped, and `true` exactly when every attribute
/// is well formed and unescapes.  A function of the tag's bytes alone.
pub uninterp spec fn start_view(b: quick_xml::events::BytesStart) -> (
    Seq<char>,
    Seq<(Seq<char>, Seq<char>)>,
    bool,
);

/// An end tag's name.  A function of the tag's bytes alone.
pub uninterp spec fn end_view(b: quick_xml::events::BytesEnd) -> Seq<char>;

/// Character data with escapes resolved, or `None` where an escape is bad.
/// A function of the event's bytes alone.
pub uninterp spec fn text_view(t: quick_xml::events::BytesText) -> Option<Seq<char>>;

/// A CDATA section's literal content.  A function of its bytes alone.
pub uninterp spec fn cdata_view(c: quick_xml::events::BytesCData) -> Seq<char>;

/// The attributes an iterator will still hand out from its present state,
/// cut off before the first that is malformed or fails to unescape; and
/// `true` exactly when none such lies ahead of it.  A fresh iterator's
/// run is the tag's, as `start_view` decodes it.
pub uninterp spec fn attrs_rest(it: quick_xml::events::attributes::Attributes) -> (
    Seq<(Seq<char>, Seq<char>)>,
    bool,
);

/// One tokenizer event, still carrying the tokenizer's own payloads.
pub enum RawEvent<'a> {
    Start(quick_xml::events::BytesStart<'a>),
    End(quick_xml::events::BytesEnd<'a>),
    Empty(quick_xml::events::BytesStart<'a>),
    Text(quick_xml::events::BytesText<'a>),
    CData(quick_xml::events::BytesCData<'a>),
    Skip,
    Eof,
    Fault,
}

/// One attribute as the tokenizer hands it out.
pub enum AttrRead {
    Attr(String, String),
    Done,
    Fault,
}

/// Relies on `quick_xml::reader::Reader::from_str`, with empty elements
/// expanded so that `<a/>` arrives as a start and an end event.  A fresh
/// reader has its whole stream ahead of it.
#[verifier::external_body]
fn xml_reader<'a>(s: &'a str) -> (r: quick_xml::reader::Reader<&'a [u8]>)
    ensures
        reader_rest(r) == events_of(s@),
        bytes_left(r) <= s@.len(),
{
    let mut r = quick_xml::reader::Reader::from_str(s);
    r.expand_empty_elements(true);
    r
}

/// Relies on `quick_xml::reader::Reader::read_event`; each structural
/// variant is passed through unchanged, the ones this crate never reads as
/// `Skip`, and a tokenizer error as `Fault`.  What comes back is the head
/// of the reader's remaining decoded stream: a clean start or empty tag,
/// an end tag, text or CDATA hands out the next event (an empty tag, the
/// next two) and leaves the rest; an unclean start, a bad escape and a
/// tokenizer error are the fault the stream was cut at; `Eof` comes only
/// with nothing, and no fault, left ahead; a skipped event leaves the
/// stream as it was.  Every arm but `Eof` and `Fault` consumes input.
#[verifier::external_body]
fn next_event<'a>(r: &mut quick_xml::reader::Reader<&'a [u8]>) -> (ev: RawEvent<'a>)
    ensures
        match ev {
            RawEvent::Start(b) => {
                &&& start_view(b).2 ==> {
                    &&& reader_rest(*old(r)).0.len() > 0
                    &&& reader_rest(*old(r)).0[0] == (EventView::Open {
                        name: start_view(b).0,
                        attrs: start_view(b).1,
                    })
                    &&& reader_rest(*final(r)) == (
                        reader_rest(*old(r)).0.drop_first(),
                        reader_rest(*old(r)).1,
                    )
                }
                &&& !start_view(b).2 ==> reader_rest(*old(r)) == (
                    Seq::<EventView>::empty(),
                    false,
                )
                &&& bytes_left(*final(r)) < bytes_left(*old(r))
            },
            RawEvent::Empty(b) => {
                &&& start_view(b).2 ==> {
                    &&& reader_rest(*old(r)).0.len() >= 2
                    &&& reader_rest(*old(r)).0[0] == (EventView::Open {
                        name: start_view(b).0,
                        attrs: start_view(b).1,
                    })
                    &&& reader_rest(*old(r)).0[1] == (EventView::Close { name: start_view(b).0 })
                    &&& reader_rest(*final(r)) == (
                        reader_rest(*old(r)).0.skip(2),
                        reader_rest(*old(r)).1,
                    )
                }
                &&& !start_view(b).2 ==> reader_rest(*old(r)) == (
                    Seq::<EventView>::empty(),
                    false,
                )
                &&& bytes_left(*final(r)) < bytes_left(*old(r))
            },
            RawEvent::End(b) => {
                &&& reader_rest(*old(r)).0.len() > 0
                &&& reader_rest(*old(r)).0[0] == (EventView::Close { name: end_view(b) })
                &&& reader_rest(*final(r)) == (
                    reader_rest(*old(r)).0.drop_first(),
                    reader_rest(*old(r)).1,
                )
                &&& bytes_left(*final(r)) < bytes_left(*old(r))
            },
            RawEvent::Text(t) => {
                &&& match text_view(t) {
                    Some(tx) => {
                        &&& reader_rest(*old(r)).0.len() > 0
                        &&& reader_rest(*old(r)).0[0] == (EventView::Text { text: tx })
                        &&& reader_rest(*final(r)) == (
                            reader_rest(*old(r)).0.drop_first(),
                            reader_rest(*old(r)).1,
                        )
                    },
                    None => reader_rest(*old(r)) == (Seq::<EventView>::empty(), false),
                }
                &&& bytes_left(*final(r)) < bytes_left(*old(r))
            },
            RawEvent::CData(c) => {
                &&& reader_rest(*old(r)).0.len() > 0
                &&& reader_rest(*old(r)).0[0] == (EventView::Text { text: cdata_view(c) })
                &&& reader_rest(*final(r)) == (
                    reader_rest(*old(r)).0.drop_first(),
                    reader_rest(*old(r)).1,
                )
                &&& bytes_left(*final(r)) < bytes_left(*old(r))
            },
            RawEvent::Skip => {
                &&& reader_rest(*final(r)) == reader_rest(*old(r))
                &&& bytes_left(*final(r)) < bytes_left(*old(r))
            },
            RawEvent::Eof => reader_rest(*old(r)) == (Seq::<EventView>::empty(), true)
                && reader_rest(*final(r)) == reader_rest(*old(r)),
            RawEvent::Fault => reader_rest(*old(r)) == (Seq::<EventView>::empty(), false),
        },
{
    match r.read_event() {
        Ok(quick_xml::events::Event::Start(b)) => RawEvent::Start(b),
        Ok(quick_xml::events::Event::End(b)) => RawEvent::End(b),
        Ok(quick_xml::events::Event::Empty(b)) => RawEvent::Empty(b),
        Ok(quick_xml::events::Event::Text(t)) => RawEvent::Text(t),
        Ok(quick_xml::events::Event::CData(c)) => RawEvent::CData(c),
        Ok(quick_xml::events::Event::Eof) => RawEvent::Eof,
        Ok(_) => RawEvent::Skip,
        Err(_) => RawEvent::Fault,
    }
}

/// Relies on `quick_xml::events::BytesStart::name`, whose `QName` holds the
/// raw tag bytes; they are UTF-8 in this crate's readers.
#[verifier::external_body]
fn start_name(b: &quick_xml::events::BytesStart) -> (r: String)
    ensures
        r@ == start_view(*b).0,
{
    String::from_utf8_lossy(b.name().0).into_owned()
}

/// Relies on `quick_xml::events::BytesEnd::name`, as `start_name` does.
#[verifier::external_body]
fn end_name(b: &quick_xml::events::BytesEnd) -> (r: String)
    ensures
        r@ == end_view(*b),
{
    String::from_utf8_lossy(b.name().0).into_owned()
}

/// Relies on `quick_xml::events::BytesStart::attributes`: an iterator over
/// the tag's attributes in document order; fresh, it has them all ahead.
#[verifier::external_body]
fn start_attributes<'b>(b: &'b quick_xml::events::BytesStart<'_>) -> (r:
    quick_xml::events::attributes::Attributes<'b>)
    ensures
        attrs_rest(r) == (start_view(*b).1, start_view(*b).2),
{
    b.attributes()
}

/// Relies on `Attributes::next` and `Attribute::unescape_value`: the next
/// attribute's key and unescaped value, which is the head of the
/// iterator's remaining run; the end of a clean tag as `Done`; a
/// malformed attribute or a bad escape, the fault the run was cut at, as
/// `Fault`.
#[verifier::external_body]
fn next_attribute(it: &mut quick_xml::events::attributes::Attributes<'_>) -> (r: AttrRead)
    ensures
        match r {
            AttrRead::Attr(k, v) => {
                &&& attrs_rest(*old(it)).0.len() > 0
                &&& attrs_rest(*old(it)).0[0] == (k@, v@)
                &&& attrs_rest(*final(it)) == (
                    attrs_rest(*old(it)).0.drop_first(),
                    attrs_rest(*old(it)).1,
                )
            },
            AttrRead::Done => attrs_rest(*old(it)) == (
                Seq::<(Seq<char>, Seq<char>)>::empty(),
                true,
            ),
            AttrRead::Fault => attrs_rest(*old(it)).1 == false,
        },
{
    match it.next() {
        None => AttrRead::Done,
        Some(Err(_)) => AttrRead::Fault,
        Some(Ok(a)) => match a.unescape_value() {
            Err(_) => AttrRead::Fault,
            Ok(v) => AttrRead::Attr(
                String::from_utf8_lossy(a.key.0).into_owned(),
                v.into_owned(),
            ),
        },
    }
}

/// Relies on `quick_xml::events::BytesText::unescape`: the event's character
/// data with entity references resolved; `None` on a bad escape.
#[verifier::external_body]
fn text_value(t: &quick_xml::events::BytesText) -> (r: Option<String>)
    ensures
        match r {
            Some(s) => text_view(*t) == Some(s@),
            None => text_view(*t) is None,
        },
{
    match t.unescape() {
        Ok(v) => Some(v.into_owned()),
        Err(_) => None,
    }
}

/// Relies on `quick_xml::events::BytesCData::into_inner`: the section's
/// literal bytes, which are UTF-8 in this crate's readers.
#[verifier::external_body]
fn cdata_value(c: quick_xml::events::BytesCData) -> (r: String)
    ensures
        r@ == cdata_view(c),
{
    String::from_utf8_lossy(&c.into_inner()).into_owned()
}

/// Tokenizes the input into plain structural events: exactly the run
/// `events_of` gives for the text, in document order; `MalformedXml`
/// exactly when a fault of the tokenizer, of an attribute or of an escape
/// cuts that run off.
pub fn read_events(input: &str) -> (r: Result<Vec<XmlEvent>, ParseError>)
    ensures
        match r {
            Ok(evs) => events_of(input@) == (evs.deep_view(), true),
            Err(e) => {
                &&& !events_of(input@).1
                &&& e.deep_view() == ErrorView::MalformedXml
            },
        },
{
    let ghost all = events_of(input@);
    let mut reader = xml_reader(input);
    let mut out: Vec<XmlEvent> = Vec::new();
    loop
        invariant
            all == events_of(input@),
            all.0 == out.deep_view() + reader_rest(reader).0,
            all.1 == reader_rest(reader).1,
        decreases bytes_left(reader),
    {
        let ghost rest = reader_rest(reader);
        match next_event(&mut reader) {
            RawEvent::Start(b) => {
                match read_tag(&b) {
                    Ok((name, attrs)) => {
                        let ghost prev = out.deep_view();
                        out.push(XmlEvent::Open { name, attrs });
                        proof {
                            assert(out.deep_view() =~= prev.push(rest.0[0]));
                            assert(prev + rest.0 =~= out.deep_view() + rest.0.drop_first());
                        }
                    },
                    Err(e) => {
                        proof {
                            assert(all.0 =~= out.deep_view());
                        }
                        return Err(e);
                    },
                }
            },
            RawEvent::Empty(b) => {
                match read_tag(&b) {
                    Ok((name, attrs)) => {
                        let close = name.clone();
                        let ghost prev = out.deep_view();
                        out.push(XmlEvent::Open { name, attrs });
                        out.push(XmlEvent::Close { name: close });
                        proof {
                            assert(out.deep_view() =~= prev.push(rest.0[0]).push(rest.0[1]));
                            assert(prev + rest.0 =~= out.deep_view() + rest.0.skip(2));
                        }
                    },
                    Err(e) => {
                        proof {
                            assert(all.0 =~= out.deep_view());
                        }
                        return Err(e);
                    },
                }
            },
            RawEvent::End(b) => {
                let ghost prev = out.deep_view();
                out.push(XmlEvent::Close { name: end_name(&b) });
                proof {
                    assert(out.deep_view() =~= prev.push(rest.0[0]));
                    assert(prev + rest.0 =~= out.deep_view() + rest.0.drop_first());
                }
            },
            RawEvent::Text(t) => {
                match text_value(&t) {
                    Some(s) => {
                        let ghost prev = out.deep_view();
                        out.push(XmlEvent::Text { text: s });
                        proof {
                            assert(out.deep_view() =~= prev.push(rest.0[0]));
                            assert(prev + rest.0 =~= out.deep_view() + rest.0.drop_first());
                        }
                    },
                    None => {
                        proof {
                            assert(all.0 =~= out.deep_view());
                        }
                        return Err(ParseError::MalformedXml);
                    },
                }
            },
            RawEvent::CData(c) => {
                let ghost prev = out.deep_view();
                out.push(XmlEvent::Text { text: cdata_value(c) });
                proof {
                    assert(out.deep_view() =~= prev.push(rest.0[0]));
                    assert(prev + rest.0 =~= out.deep_view() + rest.0.drop_first());
                }
            },
            RawEvent::Skip => {},
            RawEvent::Eof => {
                proof {
                    assert(all.0 =~= out.deep_view());
                }
                return Ok(out);
            },
            RawEvent::Fault => {
                proof {
                    assert(all.0 =~= out.deep_view());
                }
                return Err(ParseError::MalformedXml);
            },
        }
    }
}

/// A start tag's name and its attribute list, as `start_view` decodes
/// them; `MalformedXml` exactly when the tag is unclean.
fn read_tag(b: &quick_xml::events::BytesStart<'_>) -> (r: Result<
    (String, Vec<(String, String)>),
    ParseError,
>)
    ensures
        match r {
            Ok((name, attrs)) => {
                &&& start_view(*b).2
                &&& name@ == start_view(*b).0
                &&& attrs.deep_view() == start_view(*b).1
            },
            Err(e) => {
                &&& !start_view(*b).2
                &&& e.deep_view() == ErrorView::MalformedXml
            },
        },
{
    let name = start_name(b);
    let mut attrs: Vec<(String, String)> = Vec::new();
    let mut it = start_attributes(b);
    loop
        invariant
            start_view(*b).1 == attrs.deep_view() + attrs_rest(it).0,
            start_view(*b).2 == attrs_rest(it).1,
            name@ == start_view(*b).0,
        decreases attrs_rest(it).0.len(),
    {
        let ghost rest = attrs_rest(it);
        match next_attribute(&mut it) {
            AttrRead::Attr(k, v) => {
                let ghost prev = attrs.deep_view();
                attrs.push((k, v));
                proof {
                    assert(attrs.deep_view() =~= prev.push(rest.0[0]));
                    assert(prev + rest.0 =~= attrs.deep_view() + rest.0.drop_first());
                }
            },
            AttrRead::Done => {
                proof {
                    assert(start_view(*b).1 =~= attrs.deep_view());
                }
                return Ok((name, attrs));
            },
            AttrRead::Fault => {
                return Err(ParseError::MalformedXml);
            },
        }
    }
}

/// An element starting at `pos`: an open event, content, and the matching
/// close event.  On success, the element and the position after its close.
pub open spec fn sp_elem(evs: Seq<EventView>, pos: int) -> Option<(XmlView, int)>
    decreases evs.len() - pos, 0int,
{
    if pos < 0 || pos >= evs.len() {
        None
    } else {
        match evs[pos] {
            EventView::Open { name, attrs } => match sp_content(evs, pos + 1) {
                Some((tx, cs, e)) => {
                    if 0 <= e < evs.len() && (evs[e] matches EventView::Close { name: cn }
                        && cn == name) {
                        Some((XmlView { name, attrs, text: tx, children: cs }, e + 1))
                    } else {
                        None
                    }
                },
                None => None,
            },
            _ => None,
        }
    }
}

/// An element's content from `pos` up to, and not consuming, the enclosing
/// close event: the concatenated character data, the child elements in
/// order, and the close event's position.
pub open spec fn sp_content(evs: Seq<EventView>, pos: int) -> Option<(Seq<char>, Seq<XmlView>, int)>
    decreases evs.len() - pos, 1int,
{
    if pos < 0 || pos >= evs.len() {
        None
    } else {
        match evs[pos] {
            EventView::Close { .. } => Some((Seq::empty(), Seq::empty(), pos)),
            EventView::Text { text } => match sp_content(evs, pos + 1) {
                Some((tx, cs, e)) => Some((text + tx, cs, e)),
                None => None,
            },
            EventView::Open { .. } => match sp_elem(evs, pos) {
                Some((child, p2)) => {
                    if pos < p2 <= evs.len() {
                        match sp_content(evs, p2) {
                            Some((tx, cs, e)) => Some((tx, seq![child] + cs, e)),
                            None => None,
                        }
                    } else {
                        None
                    }
                },
                None => None,
            },
        }
    }
}

/// The first position at or after `pos` that does not hold character data.
pub open spec fn sp_skip_text(evs: Seq<EventView>, pos: int) -> int
    decreases evs.len() - pos,
{
    if pos < 0 || pos >= evs.len() {
        pos
    } else if evs[pos] matches EventView::Text { .. } {
        sp_skip_text(evs, pos + 1)
    } else {
        pos
    }
}

/// The whole event run as one document: character data around the single
/// root element is ignored, anything else around it refused.
pub open spec fn sp_document(evs: Seq<EventView>) -> Option<XmlView> {
    match sp_elem(evs, sp_skip_text(evs, 0)) {
        Some((root, p1)) => {
            if sp_skip_text(evs, p1) == evs.len() {
                Some(root)
            } else {
                None
            }
        },
        None => None,
    }
}

/// Assembles the element starting at `pos`, exactly as `sp_elem` reads it.
pub fn parse_elem(evs: &Vec<XmlEvent>, pos: usize) -> (r: Result<(XmlElement, usize), ParseError>)
    ensures
        match r {
            Ok((el, p2)) => {
                &&& sp_elem(evs.deep_view(), pos as int) == Some((elem_view(el), p2 as int))
                &&& pos < p2 <= evs@.len()
            },
            Err(e) => {
                &&& sp_elem(evs.deep_view(), pos as int) is None
                &&& e.deep_view() == ErrorView::MalformedXml
            },
        },
    decreases evs@.len() - pos, 0int,
{
    if pos >= evs.len() {
        return Err(ParseError::MalformedXml);
    }
    match &evs[pos] {
        XmlEvent::Open { name, attrs } => {
            match parse_content(evs, pos + 1) {
                Ok((tx, cs, e)) => {
                    match &evs[e] {
                        XmlEvent::Close { name: cn } => {
                            if str_eq(cn.as_str(), name.as_str()) {
                                let el = XmlElement {
                                    name: name.clone(),
                                    attrs: clone_attrs(attrs),
                                    text: tx,
                                    children: cs,
                                };
                                Ok((el, e + 1))
                            } else {
                                Err(ParseError::MalformedXml)
                            }
                        },
                        _ => {
                            proof {
                                assert(false);
                            }
                            Err(ParseError::MalformedXml)
                        },
                    }
                },
                Err(e) => Err(e),
            }
        },
        _ => Err(ParseError::MalformedXml),
    }
}

/// Assembles content up to the enclosing close event, exactly as
/// `sp_content` reads it.
pub fn parse_content(evs: &Vec<XmlEvent>, pos: usize) -> (r: Result<
    (String, Vec<XmlElement>, usize),
    ParseError,
>)
    ensures
        match r {
            Ok((tx, cs, e)) => {
                &&& sp_content(evs.deep_view(), pos as int) == Some(
                    (tx@, views_of(cs@), e as int),
                )
                &&& pos <= e < evs@.len()
                &&& evs.deep_view()[e as int] is Close
            },
            Err(e) => {
                &&& sp_content(evs.deep_view(), pos as int) is None
                &&& e.deep_view() == ErrorView::MalformedXml
            },
        },
    decreases evs@.len() - pos, 1int,
{
    if pos >= evs.len() {
        return Err(ParseError::MalformedXml);
    }
    match &evs[pos] {
        XmlEvent::Close { .. } => {
            proof {
                assert(views_of(Seq::<XmlElement>::empty()) =~= Seq::<XmlView>::empty());
            }
            Ok((String::new(), Vec::new(), pos))
        },
        XmlEvent::Text { text } => {
            match parse_content(evs, pos + 1) {
                Ok((rest, cs, e)) => {
                    let mut tx = text.clone();
                    push_chars(&mut tx, rest.as_str());
                    Ok((tx, cs, e))
                },
                Err(e) => Err(e),
            }
        },
        XmlEvent::Open { .. } => {
            match parse_elem(evs, pos) {
                Ok((child, p2)) => {
                    match parse_content(evs, p2) {
                        Ok((tx, mut cs2, e)) => {
                            let ghost cv = elem_view(child);
                            let ghost cs2v = cs2@;
                            let mut cs: Vec<XmlElement> = Vec::new();
                            cs.push(child);
                            cs.append(&mut cs2);
                            proof {
                                assert forall|j: int| 0 <= j < cs@.len() implies views_of(cs@)[j]
                                    == (seq![cv] + views_of(cs2v))[j] by {
                                    if j > 0 {
                                        assert(cs@[j] == cs2v[j - 1]);
                                    }
                                }
                                assert(views_of(cs@) =~= seq![cv] + views_of(cs2v));
                            }
                            Ok((tx, cs, e))
                        },
                        Err(e) => Err(e),
                    }
                },
                Err(e) => Err(e),
            }
        },
    }
}

/// Assembles the whole event run into the single root element, exactly as
/// `sp_document` reads it.
pub fn build_document(evs: &Vec<XmlEvent>) -> (r: Result<XmlElement, ParseError>)
    ensures
        match r {
            Ok(el) => sp_document(evs.deep_view()) == Some(elem_view(el)),
            Err(e) => {
                &&& sp_document(evs.deep_view()) is None
                &&& e.deep_view() == ErrorView::MalformedXml
            },
        },
{
    let p0 = skip_text(evs, 0);
    match parse_elem(evs, p0) {
        Ok((root, p1)) => {
            let p2 = skip_text(evs, p1);
            if p2 == evs.len() {
                Ok(root)
            } else {
                Err(ParseError::MalformedXml)
            }
        },
        Err(e) => Err(e),
    }
}

/// First position at or after `pos` that is not character data.
fn skip_text(evs: &Vec<XmlEvent>, pos: usize) -> (r: usize)
    requires
        pos <= evs@.len(),
    ensures
        r == sp_skip_text(evs.deep_view(), pos as int),
        pos <= r <= evs@.len(),
{
    let mut p = pos;
    while p < evs.len() && matches!(&evs[p], XmlEvent::Text { .. })
        invariant
            pos <= p <= evs@.len(),
            sp_skip_text(evs.deep_view(), pos as int) == sp_skip_text(evs.deep_view(), p as int),
        decreases evs@.len() - p,
    {
        p = p + 1;
    }
    p
}

} // verus!

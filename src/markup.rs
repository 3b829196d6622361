//! The XML event stream of a content entry, read through quick_xml.
use vstd::prelude::*;

verus! {

#[verifier::external_type_specification]
#[verifier::external_body]
#[verifier::reject_recursive_types(R)]
pub struct ExXmlReader<R>(quick_xml::Reader<R>);

/// One structural event of an XML text, as the capture engine sees it.
#[derive(Clone, Debug, PartialEq, Eq)]
pub enum XmlEvent {
    /// A start tag, with its qualified name.
    Start(String),
    /// Character data as written (entities not yet resolved), with the byte
    /// offset at which it ends.
    Text(usize, String),
    /// End of the input.
    Eof,
    /// The markup is invalid: the byte offset and the tokenizer's diagnostic.
    Malformed(usize, String),
    /// Any other event (end tags, empty elements, comments, declarations).
    Other,
}

/// The mathematical value of an [`XmlEvent`].
pub enum EventView {
    Start(Seq<char>),
    Text(usize, Seq<char>),
    Eof,
    Malformed(usize, Seq<char>),
    Other,
}

impl View for XmlEvent {
    type V = EventView;

    open spec fn view(&self) -> EventView {
        match self {
            XmlEvent::Start(n) => EventView::Start(n@),
            XmlEvent::Text(p, t) => EventView::Text(*p, t@),
            XmlEvent::Eof => EventView::Eof,
            XmlEvent::Malformed(p, m) => EventView::Malformed(*p, m@),
            XmlEvent::Other => EventView::Other,
        }
    }
}

/// An event after which the tokenizer has nothing more to say.
pub open spec fn is_terminal(e: EventView) -> bool {
    e is Eof || e is Malformed
}

/// A finite stream of events that ends with its first terminal event.
pub open spec fn is_event_stream(s: Seq<EventView>) -> bool {
    &&& s.len() > 0
    &&& is_terminal(s.last())
    &&& forall|j: int| 0 <= j < s.len() - 1 ==> !is_terminal(#[trigger] s[j])
}

/// The views of a sequence of events.
pub open spec fn events_view(v: Seq<XmlEvent>) -> Seq<EventView> {
    v.map_values(|e: XmlEvent| e@)
}

/// The events that quick_xml reports on `text`, up to and including the
/// first end of input or error.
pub uninterp spec fn xml_events(text: Seq<char>) -> Seq<EventView>;

/// The events that a reader has still to hand out.
pub uninterp spec fn pending_events(r: quick_xml::Reader<&[u8]>) -> Seq<EventView>;

/// What `quick_xml::escape::unescape` makes of `raw`: the text with its
/// entity and character references resolved, or the diagnostic of the
/// reference it could not resolve.
pub uninterp spec fn xml_unescape(raw: Seq<char>) -> Result<Seq<char>, Seq<char>>;

/// Whether `raw` holds an ampersand, which starts every reference.
pub open spec fn has_reference(raw: Seq<char>) -> bool {
    raw.contains('&')
}

/// The mathematical value of an unescaping's outcome.
pub open spec fn unescaped(r: Result<String, String>) -> Result<Seq<char>, Seq<char>> {
    match r {
        Ok(s) => Ok(s@),
        Err(m) => Err(m@),
    }
}

impl XmlEvent {
    pub fn is_terminal(&self) -> (r: bool)
        ensures
            r == is_terminal(self@),
    {
        match self {
            XmlEvent::Eof => true,
            XmlEvent::Malformed(_, _) => true,
            _ => false,
        }
    }
}

/// Relies on `quick_xml::Reader::from_str`: the reader yields the events of
/// `text`. Every event other than end of input or an error consumes at
/// least one byte of the input, so the stream up to that point is finite.
#[verifier::external_body]
fn open_reader<'a>(text: &'a str) -> (r: quick_xml::Reader<&'a [u8]>)
    ensures
        pending_events(r) == xml_events(text@),
        is_event_stream(pending_events(r)),
{
    quick_xml::Reader::from_str(text)
}

/// Relies on `quick_xml::Reader::read_event` and `Reader::buffer_position`:
/// the next event of the stream, a text event and an error each with the
/// byte offset reached.
#[verifier::external_body]
fn next_event<'a>(r: &mut quick_xml::Reader<&'a [u8]>) -> (e: XmlEvent)
    ensures
        pending_events(*old(r)).len() > 0 ==> e@ == pending_events(*old(r))[0],
        pending_events(*old(r)).len() > 0 ==> pending_events(*final(r))
            == pending_events(*old(r)).drop_first(),
{
    match r.read_event() {
        Ok(quick_xml::events::Event::Start(s)) => XmlEvent::Start(
            String::from_utf8_lossy(s.name().as_ref()).into_owned(),
        ),
        Ok(quick_xml::events::Event::Text(t)) => XmlEvent::Text(
            r.buffer_position(),
            String::from_utf8_lossy(&t).into_owned(),
        ),
        Ok(quick_xml::events::Event::Eof) => XmlEvent::Eof,
        Ok(_) => XmlEvent::Other,
        Err(err) => XmlEvent::Malformed(r.buffer_position(), format!("{:?}", err)),
    }
}

/// Reads the whole event stream of `text`, ending with its first end of
/// input or error.
pub fn tokenize(text: &str) -> (r: Vec<XmlEvent>)
    ensures
        events_view(r@) == xml_events(text@),
        is_event_stream(events_view(r@)),
{
    let mut reader = open_reader(text);
    let ghost all = xml_events(text@);
    let mut out: Vec<XmlEvent> = Vec::new();
    loop
        invariant_except_break
            out@.len() < all.len(),
            pending_events(reader) == all.skip(out@.len() as int),
            events_view(out@) == all.take(out@.len() as int),
        invariant
            is_event_stream(all),
        ensures
            events_view(out@) == all,
        decreases all.len() - out@.len(),
    {
        let ghost k = out@.len() as int;
        let e = next_event(&mut reader);
        assert(e@ == all[k]);
        let stop = e.is_terminal();
        out.push(e);
        assert(events_view(out@) =~= all.take(k + 1));
        if stop {
            assert(k == all.len() - 1);
            assert(all.take(k + 1) =~= all);
            break;
        }
        assert(pending_events(reader) =~= all.skip(k + 1));
    }
    out
}

} // verus!

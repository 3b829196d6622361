//! The tag-triggered capture engine: a start tag of the policy arms capture,
//! and the next text event is taken, unescaped, and disarms it. Text that is
//! not taken is never unescaped.
use vstd::prelude::*;
use crate::document::{arms, separator, DocumentKind};
use crate::error::{outcome, ErrorView, ExtractError};
use crate::markup::{
    events_view, has_reference, tokenize, unescaped, xml_events, xml_unescape, EventView,
    XmlEvent,
};

verus! {

/// Relies on `quick_xml::escape::unescape`: resolves the references in
/// `raw`; a text without `&` comes back as it is.
#[verifier::external_body]
fn unescape_text(raw: &str) -> (r: Result<String, String>)
    ensures
        unescaped(r) == xml_unescape(raw@),
        unescaped(r) == if has_reference(raw@) {
            xml_unescape(raw@)
        } else {
            Ok(raw@)
        },
{
    match quick_xml::escape::unescape(raw) {
        Ok(c) => Ok(c.into_owned()),
        Err(err) => Err(format!("{:?}", err)),
    }
}

/// The state of a walk over an event stream.
pub struct Walk {
    /// The text captured so far, separators included.
    pub text: Seq<char>,
    /// Whether the next text event is to be captured.
    pub armed: bool,
    /// Whether the stream has ended (end of input or error).
    pub done: bool,
    /// The error that ended the stream, if one did.
    pub fault: Option<(usize, Seq<char>)>,
}

pub open spec fn initial_walk() -> Walk {
    Walk { text: Seq::empty(), armed: false, done: false, fault: None }
}

/// One event of the walk for `kind`.
pub open spec fn step(kind: DocumentKind, w: Walk, e: EventView) -> Walk {
    if w.done {
        w
    } else {
        match e {
            EventView::Start(n) => if arms(kind, n) {
                Walk { text: w.text + separator(kind, n), armed: true, ..w }
            } else {
                w
            },
            EventView::Text(p, raw) => if w.armed {
                match xml_unescape(raw) {
                    Ok(t) => Walk { text: w.text + t, armed: false, ..w },
                    Err(m) => Walk { done: true, fault: Some((p, m)), ..w },
                }
            } else {
                w
            },
            EventView::Eof => Walk { done: true, ..w },
            EventView::Malformed(p, m) => Walk { done: true, fault: Some((p, m)), ..w },
            EventView::Other => w,
        }
    }
}

/// The walk for `kind` over all of `events`.
pub open spec fn walk(kind: DocumentKind, events: Seq<EventView>) -> Walk
    decreases events.len(),
{
    if events.len() == 0 {
        initial_walk()
    } else {
        step(kind, walk(kind, events.drop_last()), events.last())
    }
}

/// The text that `kind` captures from `events`, or the error that ends them.
pub open spec fn captured(kind: DocumentKind, events: Seq<EventView>) -> Result<
    Seq<char>,
    ErrorView,
> {
    let w = walk(kind, events);
    match w.fault {
        Some(f) => Err(ErrorView::MalformedInput(f.0, f.1)),
        None => Ok(w.text),
    }
}

/// The text that `kind` captures from the XML text `xml`: nothing from an
/// empty text, which is never tokenized.
pub open spec fn text_of(kind: DocumentKind, xml: Seq<char>) -> Result<Seq<char>, ErrorView> {
    if xml.len() == 0 {
        Ok(Seq::empty())
    } else {
        captured(kind, xml_events(xml))
    }
}

/// Once a walk has ended, further events change nothing.
pub proof fn lemma_walk_done(kind: DocumentKind, events: Seq<EventView>, k: int)
    requires
        0 <= k <= events.len(),
        walk(kind, events.take(k)).done,
    ensures
        walk(kind, events) == walk(kind, events.take(k)),
    decreases events.len() - k,
{
    if k < events.len() {
        let next = events.take(k + 1);
        assert(next.drop_last() =~= events.take(k));
        lemma_walk_done(kind, events, k + 1);
    } else {
        assert(events.take(k) =~= events);
    }
}

/// Captures the text of `events` under the policy of `kind`.
pub fn capture_events(kind: DocumentKind, events: &Vec<XmlEvent>) -> (r: Result<
    String,
    ExtractError,
>)
    ensures
        outcome(r) == captured(kind, events_view(events@)),
{
    let ghost all = events_view(events@);
    let mut text = String::new();
    let mut armed = false;
    let mut i: usize = 0;
    while i < events.len()
        invariant
            all == events_view(events@),
            i <= events@.len(),
            walk(kind, all.take(i as int)) == (Walk {
                text: text@,
                armed,
                done: false,
                fault: None,
            }),
        decreases events@.len() - i,
    {
        proof {
            assert(all.take(i + 1).drop_last() =~= all.take(i as int));
        }
        match &events[i] {
            XmlEvent::Start(n) => {
                if kind.arms(n.as_str()) {
                    text.append(kind.separator(n.as_str()));
                    armed = true;
                }
            },
            XmlEvent::Text(p, raw) => {
                if armed {
                    match unescape_text(raw.as_str()) {
                        Ok(t) => {
                            text.append(t.as_str());
                            armed = false;
                        },
                        Err(m) => {
                            proof {
                                lemma_walk_done(kind, all, i + 1);
                            }
                            return Err(ExtractError::MalformedInput { position: *p, message: m });
                        },
                    }
                }
            },
            XmlEvent::Eof => {
                proof {
                    lemma_walk_done(kind, all, i + 1);
                }
                return Ok(text);
            },
            XmlEvent::Malformed(p, m) => {
                proof {
                    lemma_walk_done(kind, all, i + 1);
                }
                return Err(ExtractError::MalformedInput { position: *p, message: m.clone() });
            },
            XmlEvent::Other => {},
        }
        i = i + 1;
    }
    proof {
        assert(all.take(i as int) =~= all);
    }
    Ok(text)
}

/// Captures the text of the XML text `xml` under the policy of `kind`.
pub fn capture_text(kind: DocumentKind, xml: &str) -> (r: Result<String, ExtractError>)
    ensures
        outcome(r) == text_of(kind, xml@),
{
    if xml.unicode_len() == 0 {
        return Ok(String::new());
    }
    let events = tokenize(xml);
    capture_events(kind, &events)
}

} // verus!

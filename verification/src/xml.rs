use quick_xml::events::Event;
use quick_xml::Reader;
use vstd::prelude::*;

verus! {

/// The streaming XML reader of `quick_xml`, opaque to the verifier.
#[verifier::external_type_specification]
#[verifier::external_body]
#[verifier::reject_recursive_types(R)]
pub struct ExReader<R>(Reader<R>);

/// One parsed XML event of `quick_xml`, opaque to the verifier.
#[verifier::external_type_specification]
#[verifier::external_body]
pub struct ExEvent<'a>(Event<'a>);

/// What kind of markup an event stands for.
#[derive(Clone, Copy, Debug, PartialEq, Eq, Structural)]
pub enum XmlEventKind {
    Start,
    End,
    Empty,
    Text,
    CData,
    Comment,
    Decl,
    PI,
    DocType,
    Eof,
}

/// The kind of an outside event: the variant of `Event` that it is.
pub uninterp spec fn event_kind_of(e: Event<'static>) -> XmlEventKind;

/// The raw tag name of a start, empty or end event, read as text; empty for any other event.
pub uninterp spec fn event_name_of(e: Event<'static>) -> Seq<char>;

/// The raw content of an event between its delimiters, read as text.
pub uninterp spec fn event_text_of(e: Event<'static>) -> Seq<char>;

/// What a reader has yet to hand out: the events up to and including the
/// end-of-document event, or those before the syntax error that stops it;
/// and the message of that error, where it stops with one.
pub uninterp spec fn pending(r: Reader<&[u8]>) -> (Seq<Event<'static>>, Option<Seq<char>>);

/// The events that a reader has yet to hand out.
pub open spec fn pending_events(r: Reader<&[u8]>) -> Seq<Event<'static>> {
    pending(r).0
}

/// Whether a reader stops with a syntax error once its pending events are read.
pub open spec fn pending_failure(r: Reader<&[u8]>) -> bool {
    pending(r).1 is Some
}

/// What a reader that trims text makes of a whole document: the events up
/// to and including the end-of-document event, or those before the first
/// syntax error; and the message of that error, where there is one.
pub uninterp spec fn document_reading(text: Seq<char>) -> (
    Seq<Event<'static>>,
    Option<Seq<char>>,
);

/// The events of a whole document, as a reader that trims text hands them out.
pub open spec fn document_events(text: Seq<char>) -> Seq<Event<'static>> {
    document_reading(text).0
}

/// Whether reading a whole document ends in a syntax error.
pub open spec fn document_fails(text: Seq<char>) -> bool {
    document_reading(text).1 is Some
}

/// The message of the syntax error in which reading a document ends.
pub open spec fn document_error(text: Seq<char>) -> Seq<char> {
    document_reading(text).1->0
}

/// A run of events ends where the document does: no event but the last marks
/// the end of the document, and the last one does unless an error cut the run short.
pub open spec fn run_is_closed(events: Seq<Event<'static>>, fails: bool) -> bool {
    &&& forall|i: int| 0 <= i < events.len() - 1 ==> event_kind_of(#[trigger] events[i]) != XmlEventKind::Eof
    &&& !fails ==> events.len() > 0 && event_kind_of(events.last()) == XmlEventKind::Eof
    &&& fails ==> forall|i: int| 0 <= i < events.len() ==> event_kind_of(#[trigger] events[i]) != XmlEventKind::Eof
}

/// `Reader::from_str` followed by `config_mut().trim_text(true)`: a reader at
/// the start of the document, with all of the document's events pending.
#[verifier::external_body]
pub(crate) fn open_reader<'a>(xml: &'a str) -> (r: Reader<&'a [u8]>)
    ensures
        pending(r) == document_reading(xml@),
        run_is_closed(pending(r).0, pending(r).1 is Some),
{
    let mut reader = Reader::from_str(xml);
    reader.config_mut().trim_text(true);
    reader
}

/// `Reader::read_event`: hands out the next pending event; where none is
/// pending and the reader stops with an error, the error's message.
#[verifier::external_body]
pub(crate) fn read_event<'a>(r: &mut Reader<&'a [u8]>) -> (res: Result<Event<'static>, String>)
    ensures
        pending(*old(r)).0.len() > 0 ==> res == Ok::<Event<'static>, String>(pending(*old(r)).0[0])
            && pending(*final(r)) == (pending(*old(r)).0.skip(1), pending(*old(r)).1),
        pending(*old(r)).0.len() == 0 && pending(*old(r)).1 is Some ==> res is Err && res->Err_0@
            == pending(*old(r)).1->0,
{
    r.read_event().map(Event::into_owned).map_err(|e| e.to_string())
}

/// Tells the variants of `Event` apart.
#[verifier::external_body]
pub(crate) fn event_kind(e: &Event<'static>) -> (k: XmlEventKind)
    ensures
        k == event_kind_of(*e),
{
    match e {
        Event::Start(_) => XmlEventKind::Start,
        Event::End(_) => XmlEventKind::End,
        Event::Empty(_) => XmlEventKind::Empty,
        Event::Text(_) => XmlEventKind::Text,
        Event::CData(_) => XmlEventKind::CData,
        Event::Comment(_) => XmlEventKind::Comment,
        Event::Decl(_) => XmlEventKind::Decl,
        Event::PI(_) => XmlEventKind::PI,
        Event::DocType(_) => XmlEventKind::DocType,
        Event::Eof => XmlEventKind::Eof,
    }
}

/// `BytesStart::name` and `BytesEnd::name`: the raw tag name of a start, empty
/// or end event, read as text with `String::from_utf8_lossy`.
#[verifier::external_body]
pub(crate) fn event_name(e: &Event<'static>) -> (s: String)
    ensures
        s@ == event_name_of(*e),
{
    match e {
        Event::Start(b) | Event::Empty(b) => String::from_utf8_lossy(b.name().as_ref()).into_owned(),
        Event::End(b) => String::from_utf8_lossy(b.name().as_ref()).into_owned(),
        _ => String::new(),
    }
}

/// `Event::deref`: the raw content of an event between its delimiters, read
/// as text with `String::from_utf8_lossy`.
#[verifier::external_body]
pub(crate) fn event_text(e: &Event<'static>) -> (s: String)
    ensures
        s@ == event_text_of(*e),
{
    String::from_utf8_lossy(e).into_owned()
}

/// An XML event as plain values.
#[derive(Clone, Debug)]
pub struct XmlEvent {
    pub kind: XmlEventKind,
    /// The tag name of a start, empty or end event; empty otherwise.
    pub name: String,
    /// The raw content between the event's delimiters.
    pub text: String,
}

/// The mathematical value of an [`XmlEvent`].
pub struct XmlEventView {
    pub kind: XmlEventKind,
    pub name: Seq<char>,
    pub text: Seq<char>,
}

impl View for XmlEvent {
    type V = XmlEventView;

    open spec fn view(&self) -> XmlEventView {
        XmlEventView { kind: self.kind, name: self.name@, text: self.text@ }
    }
}

/// The plain value of an outside event.
pub open spec fn plain_of(e: Event<'static>) -> XmlEventView {
    XmlEventView { kind: event_kind_of(e), name: event_name_of(e), text: event_text_of(e) }
}

/// The plain values of a run of outside events.
pub open spec fn plain_run(events: Seq<Event<'static>>) -> Seq<XmlEventView> {
    events.map_values(|e: Event<'static>| plain_of(e))
}

/// The views of a vector of events.
pub open spec fn views_of(events: Seq<XmlEvent>) -> Seq<XmlEventView> {
    events.map_values(|e: XmlEvent| e@)
}

/// A document read to its end: its events, and the error that cut it short.
pub struct XmlDocument {
    pub events: Vec<XmlEvent>,
    pub failure: Option<String>,
}

/// Reads a document event by event, with text trimmed.
///
/// The events are those of the document in order, ending with the
/// end-of-document event; where the document is ill-formed they are those
/// before the error, and `failure` holds the error's message.
pub fn read_document(xml: &str) -> (doc: XmlDocument)
    ensures
        views_of(doc.events@) == plain_run(document_events(xml@)),
        doc.failure is Some == document_fails(xml@),
        doc.failure matches Some(m) ==> m@ == document_error(xml@),
{
    let mut reader = open_reader(xml);
    let mut events: Vec<XmlEvent> = Vec::new();
    let mut failure: Option<String> = None;
    let ghost all = document_events(xml@);
    let ghost fails = document_fails(xml@);
    let mut done = false;
    while !done
        invariant
            all == document_events(xml@),
            fails == document_fails(xml@),
            run_is_closed(all, fails),
            !done ==> pending(reader).1 == document_reading(xml@).1,
            events@.len() + pending_events(reader).len() == all.len() || done,
            !done ==> pending_events(reader) == all.skip(events@.len() as int),
            !done ==> views_of(events@) == plain_run(all.take(events@.len() as int)),
            !done ==> forall|i: int| 0 <= i < events@.len() ==> events@[i].kind != XmlEventKind::Eof,
            !done ==> failure is None,
            done ==> views_of(events@) == plain_run(all),
            done ==> failure is Some == fails,
            done ==> (failure matches Some(m) ==> m@ == document_error(xml@)),
        decreases (if done { 0 } else { 1 + pending_events(reader).len() }),
    {
        let ghost before = events@;
        let ghost pend = pending_events(reader);
        proof {
            let n = events@.len() as int;
            if !fails && pending_events(reader).len() == 0 {
                assert(n == all.len());
                assert(all.take(n) =~= all);
                assert(views_of(events@)[n - 1] == plain_run(all)[n - 1]);
                assert(events@[n - 1].kind == XmlEventKind::Eof);
            }
        }
        match read_event(&mut reader) {
            Ok(e) => {
                let kind = event_kind(&e);
                let ev = XmlEvent { kind, name: event_name(&e), text: event_text(&e) };
                events.push(ev);
                proof {
                    let n = before.len() as int;
                    assert(pend.len() > 0);
                    assert(e == all[n]);
                    assert(all.take(n + 1) =~= all.take(n).push(all[n]));
                    assert(views_of(events@) =~= views_of(before).push(ev@));
                    assert(plain_run(all.take(n + 1)) =~= plain_run(all.take(n)).push(plain_of(all[n])));
                }
                if kind == XmlEventKind::Eof {
                    done = true;
                    proof {
                        assert(all.take(events@.len() as int) =~= all);
                    }
                }
            },
            Err(msg) => {
                failure = Some(msg);
                done = true;
                proof {
                    assert(all.take(events@.len() as int) =~= all);
                }
            },
        }
    }
    XmlDocument { events, failure }
}

} // verus!

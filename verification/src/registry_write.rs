use crate::error::Error;
use crate::registry::{
    entry_mentions, parse_raw_entries, raw_entries_of, raw_views, RawEntry, RawEntryView,
};
use crate::text::{
    chars_of, decimal, decimal_string, find_char, find_last, index_of, index_of_is_first,
    last_occurrence, last_occurrence_is_last, push_chars, push_decimal, push_str, slice_chars,
    str_eq, string_of,
};
use crate::types::{store_page, AvailableUpdate, AvailableUpdateView, ComponentType};
use crate::xml::{
    document_error, document_events, document_fails, plain_run, read_document, views_of,
    XmlEvent, XmlEventKind, XmlEventView,
};
use vstd::prelude::*;

verus! {

/// What stands for a character in XML text where `&`, `<` and `>` are escaped.
pub open spec fn text_escape_of(c: char) -> Seq<char> {
    if c == '&' {
        "&amp;"@
    } else if c == '<' {
        "&lt;"@
    } else if c == '>' {
        "&gt;"@
    } else {
        seq![c]
    }
}

/// A text with `&`, `<` and `>` escaped for use as XML text.
pub open spec fn text_escaped(s: Seq<char>) -> Seq<char>
    decreases s.len(),
{
    if s.len() == 0 {
        Seq::empty()
    } else {
        text_escaped(s.drop_last()) + text_escape_of(s.last())
    }
}

/// What stands for a character where all five special characters are escaped.
pub open spec fn full_escape_of(c: char) -> Seq<char> {
    if c == '&' {
        "&amp;"@
    } else if c == '<' {
        "&lt;"@
    } else if c == '>' {
        "&gt;"@
    } else if c == '\'' {
        "&apos;"@
    } else if c == '"' {
        "&quot;"@
    } else {
        seq![c]
    }
}

/// A text with `&`, `<`, `>`, `'` and `"` escaped.
pub open spec fn fully_escaped(s: Seq<char>) -> Seq<char>
    decreases s.len(),
{
    if s.len() == 0 {
        Seq::empty()
    } else {
        fully_escaped(s.drop_last()) + full_escape_of(s.last())
    }
}

/// Escapes `&`, `<` and `>` for XML text content.
pub fn escape_xml_text(s: &str) -> (r: String)
    ensures
        r@ == text_escaped(s@),
{
    let v = chars_of(s);
    let mut out: Vec<char> = Vec::new();
    let mut i: usize = 0;
    proof {
        assert(v@.take(0) =~= Seq::<char>::empty());
    }
    while i < v.len()
        invariant
            i <= v.len(),
            out@ == text_escaped(v@.take(i as int)),
        decreases v.len() - i,
    {
        proof {
            assert(v@.take(i as int + 1).drop_last() =~= v@.take(i as int));
            assert(v@.take(i as int + 1).last() == v@[i as int]);
        }
        let c = v[i];
        if c == '&' {
            push_str(&mut out, "&amp;");
        } else if c == '<' {
            push_str(&mut out, "&lt;");
        } else if c == '>' {
            push_str(&mut out, "&gt;");
        } else {
            out.push(c);
        }
        i += 1;
    }
    proof {
        assert(v@.take(i as int) =~= v@);
    }
    string_of(&out)
}

/// `quick_xml::escape::escape`: replaces `<`, `>`, `&`, `'` and `"` by
/// `&lt;`, `&gt;`, `&amp;`, `&apos;` and `&quot;`, and keeps every other
/// character.
#[verifier::external_body]
pub(crate) fn escape_text(s: &str) -> (r: String)
    ensures
        r@ == fully_escaped(s@),
{
    quick_xml::escape::escape(s).into_owned()
}

/// The markup that stands for an event in a document: the event's content
/// between the delimiters of its kind.
pub open spec fn markup(ev: XmlEventView) -> Seq<char> {
    match ev.kind {
        XmlEventKind::Start => "<"@ + ev.text + ">"@,
        XmlEventKind::End => "</"@ + ev.text + ">"@,
        XmlEventKind::Empty => "<"@ + ev.text + "/>"@,
        XmlEventKind::Text => ev.text,
        XmlEventKind::Comment => "<!--"@ + ev.text + "-->"@,
        XmlEventKind::CData => "<![CDATA["@ + ev.text + "]]>"@,
        XmlEventKind::Decl => "<?"@ + ev.text + "?>"@,
        XmlEventKind::PI => "<?"@ + ev.text + "?>"@,
        XmlEventKind::DocType => "<!DOCTYPE "@ + ev.text + ">"@,
        XmlEventKind::Eof => Seq::empty(),
    }
}

/// Appends the markup of an event to a document.
pub fn push_markup(out: &mut Vec<char>, ev: &XmlEvent)
    ensures
        final(out)@ == old(out)@ + markup(ev@),
{
    match ev.kind {
        XmlEventKind::Start => {
            push_str(out, "<");
            push_str(out, ev.text.as_str());
            push_str(out, ">");
        },
        XmlEventKind::End => {
            push_str(out, "</");
            push_str(out, ev.text.as_str());
            push_str(out, ">");
        },
        XmlEventKind::Empty => {
            push_str(out, "<");
            push_str(out, ev.text.as_str());
            push_str(out, "/>");
        },
        XmlEventKind::Text => {
            push_str(out, ev.text.as_str());
        },
        XmlEventKind::Comment => {
            push_str(out, "<!--");
            push_str(out, ev.text.as_str());
            push_str(out, "-->");
        },
        XmlEventKind::CData => {
            push_str(out, "<![CDATA[");
            push_str(out, ev.text.as_str());
            push_str(out, "]]>");
        },
        XmlEventKind::Decl => {
            push_str(out, "<?");
            push_str(out, ev.text.as_str());
            push_str(out, "?>");
        },
        XmlEventKind::PI => {
            push_str(out, "<?");
            push_str(out, ev.text.as_str());
            push_str(out, "?>");
        },
        XmlEventKind::DocType => {
            push_str(out, "<!DOCTYPE ");
            push_str(out, ev.text.as_str());
            push_str(out, ">");
        },
        XmlEventKind::Eof => {},
    }
    proof {
        assert(out@ =~= old(out)@ + markup(ev@));
    }
}

/// The markup of a run of events, one after the other.
pub open spec fn rendered(events: Seq<XmlEventView>) -> Seq<char>
    decreases events.len(),
{
    if events.len() == 0 {
        Seq::empty()
    } else {
        rendered(events.drop_last()) + markup(events.last())
    }
}

/// The date of an ISO timestamp: what stands before its first `T`.
pub open spec fn date_part(iso: Seq<char>) -> Seq<char> {
    let i = index_of(iso, 'T');
    if 0 <= i < iso.len() {
        iso.take(i)
    } else {
        iso
    }
}

/// Extracts date part from ISO timestamp.
pub fn extract_date_from_iso(iso: &str) -> (r: String)
    ensures
        r@ == date_part(iso@),
{
    let v = chars_of(iso);
    let i = find_char(&v, 'T', 0);
    proof {
        assert(v@.skip(0) =~= v@);
        index_of_is_first(v@, 'T');
    }
    let d = slice_chars(&v, 0, i);
    proof {
        assert(d@ =~= v@.take(i as int));
        assert(v@.take(v@.len() as int) =~= v@);
    }
    string_of(&d)
}

/// The path that a registry entry records for a component: the path itself
/// for a component that is one file, else its metadata file.
pub open spec fn recorded_file(installed_path: Seq<char>, is_file: bool) -> Seq<char> {
    if is_file {
        installed_path
    } else {
        installed_path + "/metadata.json"@
    }
}

/// Determines the path that the registry records for an installed component.
pub fn registry_installed_file_path(installed_path: &str, is_file: bool) -> (r: String)
    ensures
        r@ == recorded_file(installed_path@, is_file),
{
    if is_file {
        installed_path.to_owned()
    } else {
        let mut v = chars_of(installed_path);
        push_str(&mut v, "/metadata.json");
        string_of(&v)
    }
}

/// The text of a registry file without entries.
pub open spec fn empty_registry() -> Seq<char> {
    "<?xml version=\"1.0\" encoding=\"UTF-8\"?>\n<!DOCTYPE khotnewstuff3>\n<hotnewstuffregistry>\n</hotnewstuffregistry>\n"@
}

/// Creates an empty registry file with the proper XML structure.
pub fn create_empty_registry() -> (r: String)
    ensures
        r@ == empty_registry(),
{
    "<?xml version=\"1.0\" encoding=\"UTF-8\"?>\n<!DOCTYPE khotnewstuff3>\n<hotnewstuffregistry>\n</hotnewstuffregistry>\n".to_owned()
}

/// The values that an update writes into the registry entry of its component.
pub struct UpdateFields<'a> {
    pub directory_name: &'a str,
    pub content_id: u64,
    pub new_version: &'a str,
    pub download_url: &'a str,
    pub installed_path: &'a str,
    /// Whether the component is a single file, not a directory.
    pub installed_is_file: bool,
    pub release_date: &'a str,
}

/// The mathematical value of [`UpdateFields`].
pub struct UpdateFieldsView {
    pub directory_name: Seq<char>,
    pub content_id: u64,
    pub new_version: Seq<char>,
    pub download_url: Seq<char>,
    pub installed_path: Seq<char>,
    pub installed_is_file: bool,
    pub release_date: Seq<char>,
}

impl<'a> View for UpdateFields<'a> {
    type V = UpdateFieldsView;

    open spec fn view(&self) -> UpdateFieldsView {
        UpdateFieldsView {
            directory_name: self.directory_name@,
            content_id: self.content_id,
            new_version: self.new_version@,
            download_url: self.download_url@,
            installed_path: self.installed_path@,
            installed_is_file: self.installed_is_file,
            release_date: self.release_date@,
        }
    }
}

/// The new text of a text node of the element `element` in the entry that
/// is updated; none for an element that the update leaves alone.
pub open spec fn replacement_of(element: Seq<char>, fields: UpdateFieldsView) -> Option<Seq<char>> {
    if element == "version"@ {
        Some(fields.new_version)
    } else if element == "id"@ {
        Some(decimal(fields.content_id as nat))
    } else if element == "payload"@ {
        Some(fields.download_url)
    } else if element == "releasedate"@ {
        Some(fields.release_date)
    } else if element == "status"@ {
        Some("installed"@)
    } else if element == "installedfile"@ || element == "uninstalledfile"@ {
        Some(recorded_file(fields.installed_path, fields.installed_is_file))
    } else {
        None
    }
}

/// Returns the replacement value for a field being updated, or `None` if
/// the field is left alone.
pub fn get_field_replacement(element_name: &str, fields: &UpdateFields) -> (r: Option<String>)
    ensures
        r is Some == replacement_of(element_name@, fields@) is Some,
        r matches Some(s) ==> replacement_of(element_name@, fields@) == Some(s@),
{
    if str_eq(element_name, "version") {
        Some(fields.new_version.to_owned())
    } else if str_eq(element_name, "id") {
        Some(decimal_string(fields.content_id))
    } else if str_eq(element_name, "payload") {
        Some(fields.download_url.to_owned())
    } else if str_eq(element_name, "releasedate") {
        Some(fields.release_date.to_owned())
    } else if str_eq(element_name, "status") {
        Some("installed".to_owned())
    } else if str_eq(element_name, "installedfile") || str_eq(element_name, "uninstalledfile") {
        Some(registry_installed_file_path(fields.installed_path, fields.installed_is_file))
    } else {
        None
    }
}

/// Where the rewriting of a registry file stands after some of its events.
pub struct RewriteState {
    /// The name of the element that was opened last.
    pub element: Seq<char>,
    /// The number of `<stuff>` start tags so far.
    pub opened: nat,
    /// The document written so far.
    pub out: Seq<char>,
}

/// The state after one more event: the event's markup is written as it
/// stands, but for a text node in the entry that is updated whose element
/// the update sets: there the new value is written, escaped.
pub open spec fn rewrite_step(
    st: RewriteState,
    ev: XmlEventView,
    target: nat,
    fields: UpdateFieldsView,
) -> RewriteState {
    match ev.kind {
        XmlEventKind::Start => RewriteState {
            element: ev.name,
            opened: if ev.name == "stuff"@ {
                st.opened + 1
            } else {
                st.opened
            },
            out: st.out + markup(ev),
        },
        XmlEventKind::Text => if st.opened == target + 1 && replacement_of(st.element, fields)
            is Some {
            RewriteState {
                out: st.out + fully_escaped(replacement_of(st.element, fields)->0),
                ..st
            }
        } else {
            RewriteState { out: st.out + markup(ev), ..st }
        },
        _ => RewriteState { out: st.out + markup(ev), ..st },
    }
}

/// The state after a run of events.
pub open spec fn rewrite(events: Seq<XmlEventView>, target: nat, fields: UpdateFieldsView) -> RewriteState
    decreases events.len(),
{
    if events.len() == 0 {
        RewriteState { element: Seq::empty(), opened: 0, out: Seq::empty() }
    } else {
        rewrite_step(rewrite(events.drop_last(), target, fields), events.last(), target, fields)
    }
}

/// The registry file with the fields of its entry number `target` set to
/// the values of an update.
pub open spec fn rewritten(events: Seq<XmlEventView>, target: nat, fields: UpdateFieldsView) -> Seq<
    char,
> {
    rewrite(events, target, fields).out
}

/// Writes the events of a registry file back, with the fields of the
/// entry number `target` set to the values of an update.
pub fn rewrite_events(events: &Vec<XmlEvent>, target_index: usize, fields: &UpdateFields) -> (r:
    String)
    ensures
        r@ == rewritten(views_of(events@), target_index as nat, fields@),
{
    let ghost all = views_of(events@);
    let mut out: Vec<char> = Vec::new();
    let mut element = String::new();
    let mut opened: usize = 0;
    let mut i: usize = 0;
    proof {
        assert(all.take(0) =~= Seq::<XmlEventView>::empty());
    }
    while i < events.len()
        invariant
            i <= events.len(),
            opened <= i,
            all == views_of(events@),
            rewrite(all.take(i as int), target_index as nat, fields@) == (RewriteState {
                element: element@,
                opened: opened as nat,
                out: out@,
            }),
        decreases events.len() - i,
    {
        let ev = &events[i];
        proof {
            assert(all.take(i as int + 1).drop_last() =~= all.take(i as int));
            assert(all.take(i as int + 1).last() == ev@);
        }
        match ev.kind {
            XmlEventKind::Start => {
                element = ev.name.clone();
                if str_eq(ev.name.as_str(), "stuff") {
                    opened += 1;
                }
                push_markup(&mut out, ev);
            },
            XmlEventKind::Text => {
                let in_target = target_index < usize::MAX && opened == target_index + 1;
                let replacement = if in_target {
                    get_field_replacement(element.as_str(), fields)
                } else {
                    None
                };
                match replacement {
                    Some(text) => {
                        let escaped = escape_text(text.as_str());
                        push_str(&mut out, escaped.as_str());
                    },
                    None => {
                        push_markup(&mut out, ev);
                    },
                }
            },
            _ => {
                push_markup(&mut out, ev);
            },
        }
        i += 1;
    }
    proof {
        assert(all.take(i as int) =~= all);
    }
    string_of(&out)
}

/// The message of the error for a registry file that is ill-formed.
pub open spec fn parse_error_text(cause: Seq<char>) -> Seq<char> {
    "registry xml parse error: "@ + cause
}

/// Rewrites the registry XML, updating fields in the target entry.
///
/// Fails where the file is ill-formed; where it is not, the result is the
/// rewritten file.
pub fn rewrite_with_updates(xml: &str, target_index: usize, fields: &UpdateFields) -> (r: Result<
    Option<String>,
    Error,
>)
    ensures
        r is Err == document_fails(xml@),
        r matches Err(e) ==> e matches Error::XmlParse(m) && m@ == parse_error_text(
            document_error(xml@),
        ),
        r matches Ok(o) ==> o is Some && o->0@ == rewritten(
            plain_run(document_events(xml@)),
            target_index as nat,
            fields@,
        ),
{
    let doc = read_document(xml);
    match doc.failure {
        Some(cause) => {
            let mut msg = chars_of("registry xml parse error: ");
            push_str(&mut msg, cause.as_str());
            let text = string_of(&msg);
            Err(Error::xml_parse(text.as_str()))
        },
        None => Ok(Some(rewrite_events(&doc.events, target_index, fields))),
    }
}

/// The position of the first entry that names `name` in one of its files,
/// or the number of entries where none does.
pub open spec fn first_mention(raws: Seq<RawEntryView>, name: Seq<char>) -> int
    decreases raws.len(),
{
    if raws.len() == 0 {
        0
    } else if entry_mentions(raws[0], name) {
        0
    } else {
        1 + first_mention(raws.skip(1), name)
    }
}

proof fn first_mention_unique(raws: Seq<RawEntryView>, name: Seq<char>, i: int)
    requires
        0 <= i <= raws.len(),
        i < raws.len() ==> entry_mentions(raws[i], name),
        forall|j: int| 0 <= j < i ==> !entry_mentions(#[trigger] raws[j], name),
    ensures
        first_mention(raws, name) == i,
    decreases raws.len(),
{
    if raws.len() > 0 && i > 0 {
        assert(!entry_mentions(raws[0], name));
        assert forall|j: int| 0 <= j < i - 1 implies !entry_mentions(
            #[trigger] raws.skip(1)[j],
            name,
        ) by {
            assert(raws.skip(1)[j] == raws[j + 1]);
        }
        first_mention_unique(raws.skip(1), name, i - 1);
    }
}

/// The position of the first entry that names a directory in one of its files.
pub fn find_target(raws: &Vec<RawEntry>, directory_name: &str) -> (r: Option<usize>)
    ensures
        r matches Some(i) ==> i == first_mention(raw_views(raws@), directory_name@) && i
            < raws@.len(),
        r is None ==> first_mention(raw_views(raws@), directory_name@) == raws@.len(),
{
    let mut i: usize = 0;
    while i < raws.len()
        invariant
            i <= raws.len(),
            forall|j: int|
                0 <= j < i ==> !entry_mentions(#[trigger] raw_views(raws@)[j], directory_name@),
        decreases raws.len() - i,
    {
        proof {
            assert(raw_views(raws@)[i as int] == raws@[i as int]@);
        }
        if raws[i].path_matches_directory(directory_name) {
            proof {
                first_mention_unique(raw_views(raws@), directory_name@, i as int);
            }
            return Some(i);
        }
        i += 1;
    }
    proof {
        first_mention_unique(raw_views(raws@), directory_name@, i as int);
    }
    None
}

/// What updating an entry makes of a registry file: the file with the
/// first entry that names the component rewritten, or nothing where no
/// entry names it.
pub open spec fn updated(events: Seq<XmlEventView>, fields: UpdateFieldsView) -> Option<Seq<char>> {
    let raws = raw_entries_of(events);
    let target = first_mention(raws, fields.directory_name);
    if 0 <= target < raws.len() {
        Some(rewritten(events, target as nat, fields))
    } else {
        None
    }
}

/// Updates an existing entry in the registry XML.
///
/// Returns the new text where an entry names the component, `None` where
/// none does. Fails where an entry names it and the file is ill-formed.
pub fn update_entry(xml: &str, fields: &UpdateFields) -> (r: Result<Option<String>, Error>)
    ensures
        r is Err == (updated(plain_run(document_events(xml@)), fields@) is Some
            && document_fails(xml@)),
        r matches Err(e) ==> e matches Error::XmlParse(m) && m@ == parse_error_text(
            document_error(xml@),
        ),
        r matches Ok(o) ==> o is Some == updated(plain_run(document_events(xml@)), fields@)
            is Some,
        r matches Ok(Some(s)) ==> updated(plain_run(document_events(xml@)), fields@) == Some(s@),
{
    let raws = parse_raw_entries(xml);
    match find_target(&raws, fields.directory_name) {
        Some(target_index) => rewrite_with_updates(xml, target_index, fields),
        None => Ok(None),
    }
}

/// A new entry for the registry.
pub struct NewEntry<'a> {
    pub name: &'a str,
    pub component_type: ComponentType,
    pub content_id: u64,
    pub version: &'a str,
    pub download_url: &'a str,
    pub installed_path: &'a str,
    /// Whether the component is a single file, not a directory.
    pub installed_is_file: bool,
    pub release_date: &'a str,
}

/// The mathematical value of a [`NewEntry`].
pub struct NewEntryView {
    pub name: Seq<char>,
    pub component_type: ComponentType,
    pub content_id: u64,
    pub version: Seq<char>,
    pub download_url: Seq<char>,
    pub installed_path: Seq<char>,
    pub installed_is_file: bool,
    pub release_date: Seq<char>,
}

impl<'a> View for NewEntry<'a> {
    type V = NewEntryView;

    open spec fn view(&self) -> NewEntryView {
        NewEntryView {
            name: self.name@,
            component_type: self.component_type,
            content_id: self.content_id,
            version: self.version@,
            download_url: self.download_url@,
            installed_path: self.installed_path@,
            installed_is_file: self.installed_is_file,
            release_date: self.release_date@,
        }
    }
}

/// The `<stuff>` element that records a newly installed component.
pub open spec fn entry_markup(e: NewEntryView) -> Seq<char> {
    "  <stuff category=\""@ + decimal(e.component_type.category() as nat) + "\">\n    <name>"@
        + text_escaped(e.name)
        + "</name>\n    <providerid>api.kde-look.org</providerid>\n    <author></author>\n    <homepage>"@
        + store_page(e.content_id) + "</homepage>\n    <licence></licence>\n    <version>"@
        + text_escaped(e.version)
        + "</version>\n    <rating>0</rating>\n    <downloads>0</downloads>\n    <installedfile>"@
        + recorded_file(e.installed_path, e.installed_is_file) + "</installedfile>\n    <id>"@
        + decimal(e.content_id as nat) + "</id>\n    <releasedate>"@ + e.release_date
        + "</releasedate>\n    <summary></summary>\n    <changelog></changelog>\n    <preview></preview>\n    <previewBig></previewBig>\n    <payload>"@
        + text_escaped(e.download_url)
        + "</payload>\n    <tags></tags>\n    <status>installed</status>\n  </stuff>\n"@
}

fn new_entry_text(e: &NewEntry) -> (r: Vec<char>)
    ensures
        r@ == entry_markup(e@),
{
    let mut v: Vec<char> = Vec::new();
    push_str(&mut v, "  <stuff category=\"");
    push_decimal(&mut v, e.component_type.category_id() as u64);
    push_str(&mut v, "\">\n    <name>");
    let name = escape_xml_text(e.name);
    push_str(&mut v, name.as_str());
    push_str(
        &mut v,
        "</name>\n    <providerid>api.kde-look.org</providerid>\n    <author></author>\n    <homepage>",
    );
    let url = crate::types::store_url_for(e.content_id);
    push_str(&mut v, url.as_str());
    push_str(&mut v, "</homepage>\n    <licence></licence>\n    <version>");
    let version = escape_xml_text(e.version);
    push_str(&mut v, version.as_str());
    push_str(
        &mut v,
        "</version>\n    <rating>0</rating>\n    <downloads>0</downloads>\n    <installedfile>",
    );
    let file = registry_installed_file_path(e.installed_path, e.installed_is_file);
    push_str(&mut v, file.as_str());
    push_str(&mut v, "</installedfile>\n    <id>");
    push_decimal(&mut v, e.content_id);
    push_str(&mut v, "</id>\n    <releasedate>");
    push_str(&mut v, e.release_date);
    push_str(
        &mut v,
        "</releasedate>\n    <summary></summary>\n    <changelog></changelog>\n    <preview></preview>\n    <previewBig></previewBig>\n    <payload>",
    );
    let payload = escape_xml_text(e.download_url);
    push_str(&mut v, payload.as_str());
    push_str(&mut v, "</payload>\n    <tags></tags>\n    <status>installed</status>\n  </stuff>\n");
    proof {
        assert(v@ =~= entry_markup(e@));
    }
    v
}

/// A registry file with a new entry: the entry stands before the last
/// closing tag of the registry; a text without that tag gives way to a
/// fresh registry that holds the entry alone.
pub open spec fn with_entry(xml: Seq<char>, e: NewEntryView) -> Seq<char> {
    let pos = last_occurrence(xml, "</hotnewstuffregistry>"@);
    if pos >= 0 {
        xml.take(pos) + entry_markup(e) + "</hotnewstuffregistry>\n"@
    } else {
        "<?xml version=\"1.0\" encoding=\"UTF-8\"?>\n<!DOCTYPE khotnewstuff3>\n<hotnewstuffregistry>\n"@
            + entry_markup(e) + "</hotnewstuffregistry>\n"@
    }
}

/// Adds a new entry to the registry XML.
pub fn add_entry(xml: &str, entry: &NewEntry) -> (r: String)
    ensures
        r@ == with_entry(xml@, entry@),
{
    let v = chars_of(xml);
    let closing = chars_of("</hotnewstuffregistry>");
    let new_entry = new_entry_text(entry);
    let mut out: Vec<char> = Vec::new();
    match find_last(&v, &closing) {
        Some(pos) => {
            proof {
                last_occurrence_is_last(v@, closing@);
            }
            let head = slice_chars(&v, 0, pos);
            proof {
                assert(head@ =~= v@.take(pos as int));
            }
            push_chars(&mut out, &head);
        },
        None => {
            push_str(
                &mut out,
                "<?xml version=\"1.0\" encoding=\"UTF-8\"?>\n<!DOCTYPE khotnewstuff3>\n<hotnewstuffregistry>\n",
            );
        },
    }
    push_chars(&mut out, &new_entry);
    push_str(&mut out, "</hotnewstuffregistry>\n");
    proof {
        assert(out@ =~= with_entry(xml@, entry@));
    }
    string_of(&out)
}

/// The values that an update writes into the entry of its component: the
/// release date is the date part of the update's timestamp.
pub open spec fn update_fields_of(u: AvailableUpdateView, is_file: bool) -> UpdateFieldsView {
    UpdateFieldsView {
        directory_name: u.installed.directory_name,
        content_id: u.content_id,
        new_version: u.latest_version,
        download_url: u.download_url,
        installed_path: u.installed.path,
        installed_is_file: is_file,
        release_date: date_part(u.release_date),
    }
}

/// The entry that records an update's component where the registry has none for it.
pub open spec fn new_entry_of(u: AvailableUpdateView, is_file: bool) -> NewEntryView {
    NewEntryView {
        name: u.installed.name,
        component_type: u.installed.component_type,
        content_id: u.content_id,
        version: u.latest_version,
        download_url: u.download_url,
        installed_path: u.installed.path,
        installed_is_file: is_file,
        release_date: date_part(u.release_date),
    }
}

/// The text of a registry file, or that of an empty registry where the
/// file does not exist.
pub open spec fn registry_text(content: Option<Seq<char>>) -> Seq<char> {
    match content {
        Some(c) => c,
        None => empty_registry(),
    }
}

/// The registry file after an update: the first entry that names the
/// component is rewritten, or where none names it a new entry is added.
pub open spec fn registry_after(content: Option<Seq<char>>, u: AvailableUpdateView, is_file: bool) -> Seq<
    char,
> {
    let text = registry_text(content);
    match updated(plain_run(document_events(text)), update_fields_of(u, is_file)) {
        Some(t) => t,
        None => with_entry(text, new_entry_of(u, is_file)),
    }
}

/// Whether the registry cannot be updated: an entry names the component
/// and the file is ill-formed.
pub open spec fn registry_update_fails(
    content: Option<Seq<char>>,
    u: AvailableUpdateView,
    is_file: bool,
) -> bool {
    let text = registry_text(content);
    updated(plain_run(document_events(text)), update_fields_of(u, is_file)) is Some
        && document_fails(text)
}

/// The registry file after an update was installed: the entry that names
/// the component is rewritten, or where none names it a new entry is added.
/// `content` is the text of the file, `None` where it does not exist yet.
pub fn registry_after_install(
    content: Option<&str>,
    update: &AvailableUpdate,
    installed_is_file: bool,
) -> (r: Result<String, Error>)
    ensures
        r is Err == registry_update_fails(
            match content {
                Some(c) => Some(c@),
                None => None,
            },
            update@,
            installed_is_file,
        ),
        r matches Err(e) ==> e matches Error::XmlParse(m) && m@ == parse_error_text(
            document_error(
                registry_text(
                    match content {
                        Some(c) => Some(c@),
                        None => None,
                    },
                ),
            ),
        ),
        r matches Ok(s) ==> s@ == registry_after(
            match content {
                Some(c) => Some(c@),
                None => None,
            },
            update@,
            installed_is_file,
        ),
{
    let release_date = extract_date_from_iso(update.release_date.as_str());
    let fresh = create_empty_registry();
    let text: &str = match content {
        Some(c) => c,
        None => fresh.as_str(),
    };
    let fields = UpdateFields {
        directory_name: update.installed.directory_name.as_str(),
        content_id: update.content_id,
        new_version: update.latest_version.as_str(),
        download_url: update.download_url.as_str(),
        installed_path: update.installed.path.as_str(),
        installed_is_file,
        release_date: release_date.as_str(),
    };
    match update_entry(text, &fields) {
        Err(e) => Err(e),
        Ok(Some(new_content)) => Ok(new_content),
        Ok(None) => {
            let entry = NewEntry {
                name: update.installed.name.as_str(),
                component_type: update.installed.component_type,
                content_id: update.content_id,
                version: update.latest_version.as_str(),
                download_url: update.download_url.as_str(),
                installed_path: update.installed.path.as_str(),
                installed_is_file,
                release_date: release_date.as_str(),
            };
            Ok(add_entry(text, &entry))
        },
    }
}

/// The number of `<stuff>` start tags in a run of events.
pub open spec fn entries_opened(events: Seq<XmlEventView>) -> nat
    decreases events.len(),
{
    if events.len() == 0 {
        0
    } else {
        entries_opened(events.drop_last()) + if events.last().kind == XmlEventKind::Start
            && events.last().name == "stuff"@ {
            1nat
        } else {
            0nat
        }
    }
}

proof fn rewrite_counts_entries(events: Seq<XmlEventView>, target: nat, fields: UpdateFieldsView)
    ensures
        rewrite(events, target, fields).opened == entries_opened(events),
    decreases events.len(),
{
    if events.len() > 0 {
        rewrite_counts_entries(events.drop_last(), target, fields);
    }
}

/// Rewriting a registry file for an entry that it does not have writes
/// every event back as it stands: the file is changed by nothing but its own
/// markup.
pub proof fn rewrite_without_target_is_verbatim(
    events: Seq<XmlEventView>,
    target: nat,
    fields: UpdateFieldsView,
)
    requires
        entries_opened(events) <= target,
    ensures
        rewritten(events, target, fields) == rendered(events),
    decreases events.len(),
{
    if events.len() > 0 {
        rewrite_without_target_is_verbatim(events.drop_last(), target, fields);
        rewrite_counts_entries(events.drop_last(), target, fields);
    }
}

/// Rewriting a registry file changes nothing before the entry that is
/// updated is opened: the events up to there are written back as they stand.
pub proof fn rewrite_keeps_what_precedes_the_target(
    events: Seq<XmlEventView>,
    n: int,
    target: nat,
    fields: UpdateFieldsView,
)
    requires
        0 <= n <= events.len(),
        entries_opened(events.take(n)) <= target,
    ensures
        rewritten(events.take(n), target, fields) == rendered(events.take(n)),
{
    rewrite_without_target_is_verbatim(events.take(n), target, fields);
}

} // verus!

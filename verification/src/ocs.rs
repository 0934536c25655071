use crate::api::{
    download_slot, link_of, parse_download_index, DownloadParts, DownloadPartsView, Meta,
    StatusCode,
};
use crate::error::Error;
use crate::text::{parse_u64, parsed_u64, str_eq};
use crate::types::{
    clone_opt, entry_views, link_views, opt_text, DownloadLink, DownloadLinkView, StoreEntry,
    StoreEntryView,
};
use crate::xml::{
    document_events, document_fails, plain_run, read_document, views_of, XmlEvent, XmlEventKind,
    XmlEventView,
};
use vstd::prelude::*;

verus! {

/// The text that escaped XML text stands for; none where an escape in it
/// is broken or unknown.
pub uninterp spec fn unescaped(raw: Seq<char>) -> Option<Seq<char>>;

/// `quick_xml::escape::unescape`: replaces the escapes of XML text by the
/// characters they stand for.
#[verifier::external_body]
pub(crate) fn unescape_text(raw: &str) -> (r: Option<String>)
    ensures
        opt_text(r) == unescaped(raw@),
{
    quick_xml::escape::unescape(raw).ok().map(|s| s.into_owned())
}

/// The texts of one download slot of a catalog entry, as far as they were given.
#[derive(Debug)]
pub struct SlotTexts {
    pub url: Option<String>,
    pub version: Option<String>,
    pub checksum: Option<String>,
    pub size: Option<String>,
}

/// The mathematical value of [`SlotTexts`].
pub struct SlotTextsView {
    pub url: Option<Seq<char>>,
    pub version: Option<Seq<char>>,
    pub checksum: Option<Seq<char>>,
    pub size: Option<Seq<char>>,
}

impl View for SlotTexts {
    type V = SlotTextsView;

    open spec fn view(&self) -> SlotTextsView {
        SlotTextsView {
            url: opt_text(self.url),
            version: opt_text(self.version),
            checksum: opt_text(self.checksum),
            size: opt_text(self.size),
        }
    }
}

/// The views of a run of slots.
pub open spec fn slot_views(slots: Seq<SlotTexts>) -> Seq<SlotTextsView> {
    slots.map_values(|s: SlotTexts| s@)
}

/// A slot of which nothing was given.
pub open spec fn blank_slot() -> SlotTextsView {
    SlotTextsView { url: None, version: None, checksum: None, size: None }
}

/// The fields of one `<content>` element, as texts.
#[derive(Debug)]
pub struct RawContent {
    pub id: Option<String>,
    pub name: Option<String>,
    pub version: Option<String>,
    pub typeid: Option<String>,
    pub changed: Option<String>,
    /// The download slots, always 64 of them.
    pub slots: Vec<SlotTexts>,
}

/// The mathematical value of a [`RawContent`].
pub struct RawContentView {
    pub id: Option<Seq<char>>,
    pub name: Option<Seq<char>>,
    pub version: Option<Seq<char>>,
    pub typeid: Option<Seq<char>>,
    pub changed: Option<Seq<char>>,
    pub slots: Seq<SlotTextsView>,
}

impl View for RawContent {
    type V = RawContentView;

    open spec fn view(&self) -> RawContentView {
        RawContentView {
            id: opt_text(self.id),
            name: opt_text(self.name),
            version: opt_text(self.version),
            typeid: opt_text(self.typeid),
            changed: opt_text(self.changed),
            slots: slot_views(self.slots@),
        }
    }
}

/// The views of a run of contents.
pub open spec fn content_views(cs: Seq<RawContent>) -> Seq<RawContentView> {
    cs.map_values(|c: RawContent| c@)
}

/// A content element of which nothing was read yet.
pub open spec fn blank_content() -> RawContentView {
    RawContentView {
        id: None,
        name: None,
        version: None,
        typeid: None,
        changed: None,
        slots: Seq::new(64, |i: int| blank_slot()),
    }
}

/// The content after the text of the field `field` was read into it. The
/// numbered fields `downloadlink`, `download_version`, `downloadmd5sum` and
/// `downloadsize` go to the slot of their number, where the content has that
/// slot; a field that the content does not know leaves it as it is.
pub open spec fn with_field(c: RawContentView, field: Seq<char>, text: Seq<char>) -> RawContentView {
    if field == "id"@ {
        RawContentView { id: Some(text), ..c }
    } else if field == "name"@ {
        RawContentView { name: Some(text), ..c }
    } else if field == "version"@ {
        RawContentView { version: Some(text), ..c }
    } else if field == "typeid"@ {
        RawContentView { typeid: Some(text), ..c }
    } else if field == "changed"@ {
        RawContentView { changed: Some(text), ..c }
    } else if download_slot(field, "downloadlink"@) is Some {
        let i = download_slot(field, "downloadlink"@)->0 as int;
        if i < c.slots.len() {
            RawContentView {
                slots: c.slots.update(i, SlotTextsView { url: Some(text), ..c.slots[i] }),
                ..c
            }
        } else {
            c
        }
    } else if download_slot(field, "download_version"@) is Some {
        let i = download_slot(field, "download_version"@)->0 as int;
        if i < c.slots.len() {
            RawContentView {
                slots: c.slots.update(i, SlotTextsView { version: Some(text), ..c.slots[i] }),
                ..c
            }
        } else {
            c
        }
    } else if download_slot(field, "downloadmd5sum"@) is Some {
        let i = download_slot(field, "downloadmd5sum"@)->0 as int;
        if i < c.slots.len() {
            RawContentView {
                slots: c.slots.update(i, SlotTextsView { checksum: Some(text), ..c.slots[i] }),
                ..c
            }
        } else {
            c
        }
    } else if download_slot(field, "downloadsize"@) is Some {
        let i = download_slot(field, "downloadsize"@)->0 as int;
        if i < c.slots.len() {
            RawContentView {
                slots: c.slots.update(i, SlotTextsView { size: Some(text), ..c.slots[i] }),
                ..c
            }
        } else {
            c
        }
    } else {
        c
    }
}

impl SlotTexts {
    fn blank() -> (r: Self)
        ensures
            r@ == blank_slot(),
    {
        SlotTexts { url: None, version: None, checksum: None, size: None }
    }

    fn duplicate(&self) -> (r: Self)
        ensures
            r@ == self@,
    {
        SlotTexts {
            url: clone_opt(&self.url),
            version: clone_opt(&self.version),
            checksum: clone_opt(&self.checksum),
            size: clone_opt(&self.size),
        }
    }
}

impl RawContent {
    /// A content element of which nothing was read yet.
    pub fn blank() -> (r: Self)
        ensures
            r@ == blank_content(),
            r.slots@.len() == 64,
    {
        let mut slots: Vec<SlotTexts> = Vec::new();
        let mut i: usize = 0;
        while i < 64
            invariant
                i <= 64,
                slots@.len() == i,
                forall|j: int| 0 <= j < i ==> slots@[j]@ == blank_slot(),
            decreases 64 - i,
        {
            slots.push(SlotTexts::blank());
            i += 1;
        }
        proof {
            assert(slot_views(slots@) =~= Seq::new(64, |i: int| blank_slot()));
        }
        RawContent { id: None, name: None, version: None, typeid: None, changed: None, slots }
    }

    /// Reads the text of a field into the content.
    pub fn take_field(&mut self, field: &str, text: String)
        ensures
            final(self)@ == with_field(old(self)@, field@, text@),
    {
        if str_eq(field, "id") {
            self.id = Some(text);
        } else if str_eq(field, "name") {
            self.name = Some(text);
        } else if str_eq(field, "version") {
            self.version = Some(text);
        } else if str_eq(field, "typeid") {
            self.typeid = Some(text);
        } else if str_eq(field, "changed") {
            self.changed = Some(text);
        } else if let Some(i) = parse_download_index(field, "downloadlink") {
            if i < self.slots.len() {
                let mut slot = self.slots[i].duplicate();
                slot.url = Some(text);
                self.slots.set(i, slot);
                proof {
                    assert(slot_views(self.slots@) =~= slot_views(old(self).slots@).update(
                        i as int,
                        slot@,
                    ));
                }
            }
        } else if let Some(i) = parse_download_index(field, "download_version") {
            if i < self.slots.len() {
                let mut slot = self.slots[i].duplicate();
                slot.version = Some(text);
                self.slots.set(i, slot);
                proof {
                    assert(slot_views(self.slots@) =~= slot_views(old(self).slots@).update(
                        i as int,
                        slot@,
                    ));
                }
            }
        } else if let Some(i) = parse_download_index(field, "downloadmd5sum") {
            if i < self.slots.len() {
                let mut slot = self.slots[i].duplicate();
                slot.checksum = Some(text);
                self.slots.set(i, slot);
                proof {
                    assert(slot_views(self.slots@) =~= slot_views(old(self).slots@).update(
                        i as int,
                        slot@,
                    ));
                }
            }
        } else if let Some(i) = parse_download_index(field, "downloadsize") {
            if i < self.slots.len() {
                let mut slot = self.slots[i].duplicate();
                slot.size = Some(text);
                self.slots.set(i, slot);
                proof {
                    assert(slot_views(self.slots@) =~= slot_views(old(self).slots@).update(
                        i as int,
                        slot@,
                    ));
                }
            }
        }
    }
}

/// Where the reading of a catalog answer stands after some of its events.
pub struct OcsScan {
    /// The names of the elements that are open, outermost first.
    pub path: Seq<Seq<char>>,
    /// The text of the status code, where it was read.
    pub status: Option<Seq<char>>,
    /// The text of the total number of entries, where it was read.
    pub total: Option<Seq<char>>,
    /// What was read of the content element that is open.
    pub current: RawContentView,
    /// The content elements that were closed, in document order.
    pub contents: Seq<RawContentView>,
    /// Whether a text that was needed could not be unescaped.
    pub broken: bool,
}

/// The state before any event.
pub open spec fn ocs_start() -> OcsScan {
    OcsScan {
        path: Seq::empty(),
        status: None,
        total: None,
        current: blank_content(),
        contents: Seq::empty(),
        broken: false,
    }
}

/// Whether the open elements are a field of the answer's `meta` element.
pub open spec fn in_meta(path: Seq<Seq<char>>, field: Seq<char>) -> bool {
    path.len() == 3 && path[1] == "meta"@ && path[2] == field
}

/// Whether the open elements are a field of a `content` element.
pub open spec fn in_content_field(path: Seq<Seq<char>>) -> bool {
    path.len() == 4 && path[1] == "data"@ && path[2] == "content"@
}

/// Whether the open elements end in a `content` element of `data`.
pub open spec fn in_content(path: Seq<Seq<char>>) -> bool {
    path.len() == 3 && path[1] == "data"@ && path[2] == "content"@
}

/// Whether a text at the open elements is one that the answer needs.
pub open spec fn is_needed(path: Seq<Seq<char>>) -> bool {
    in_meta(path, "statuscode"@) || in_meta(path, "totalitems"@) || in_content_field(path)
}

/// The state after a needed text was read.
pub open spec fn with_value(st: OcsScan, value: Seq<char>) -> OcsScan {
    if in_meta(st.path, "statuscode"@) {
        OcsScan { status: Some(value), ..st }
    } else if in_meta(st.path, "totalitems"@) {
        OcsScan { total: Some(value), ..st }
    } else if in_content_field(st.path) {
        OcsScan { current: with_field(st.current, st.path[3], value), ..st }
    } else {
        st
    }
}

/// The state after one more event.
///
/// A start tag opens an element, and a `content` start tag below `data`
/// begins a fresh content. An end tag closes the innermost element; closing
/// a `content` element records the content. Text and character data at a
/// needed place set the field of that place; text is unescaped first, and
/// text that cannot be unescaped breaks the answer.
pub open spec fn ocs_step(st: OcsScan, ev: XmlEventView) -> OcsScan {
    match ev.kind {
        XmlEventKind::Start => if st.path.len() == 2 && st.path[1] == "data"@ && ev.name
            == "content"@ {
            OcsScan { path: st.path.push(ev.name), current: blank_content(), ..st }
        } else {
            OcsScan { path: st.path.push(ev.name), ..st }
        },
        XmlEventKind::End => if st.path.len() == 0 {
            st
        } else if in_content(st.path) {
            OcsScan {
                path: st.path.drop_last(),
                contents: st.contents.push(st.current),
                current: blank_content(),
                ..st
            }
        } else {
            OcsScan { path: st.path.drop_last(), ..st }
        },
        XmlEventKind::Text => if is_needed(st.path) {
            match unescaped(ev.text) {
                Some(value) => with_value(st, value),
                None => OcsScan { broken: true, ..st },
            }
        } else {
            st
        },
        XmlEventKind::CData => if is_needed(st.path) {
            with_value(st, ev.text)
        } else {
            st
        },
        _ => st,
    }
}

/// The state after a run of events.
pub open spec fn ocs_scan(events: Seq<XmlEventView>) -> OcsScan
    decreases events.len(),
{
    if events.len() == 0 {
        ocs_start()
    } else {
        ocs_step(ocs_scan(events.drop_last()), events.last())
    }
}

/// A number of at most `max` that a text stands for.
pub open spec fn bounded(text: Seq<char>, max: u64) -> Option<u64> {
    match parsed_u64(text) {
        Some(n) => if n <= max {
            Some(n)
        } else {
            None
        },
        None => None,
    }
}

/// A text that may be missing, taken as empty where it is.
pub open spec fn or_empty(o: Option<Seq<char>>) -> Seq<char> {
    match o {
        Some(s) => s,
        None => Seq::empty(),
    }
}

/// Whether the size of a slot is no number.
pub open spec fn slot_is_bad(s: SlotTextsView) -> bool {
    s.size is Some && parsed_u64(s.size->0) is None
}

/// The parts of a slot with its size read as a number.
pub open spec fn parts_of(s: SlotTextsView) -> DownloadPartsView {
    DownloadPartsView {
        url: s.url,
        version: s.version,
        checksum: s.checksum,
        size_kb: match s.size {
            Some(t) => parsed_u64(t),
            None => None,
        },
    }
}

/// The download links of a run of slots, in the order of the slots.
pub open spec fn links_of(slots: Seq<SlotTextsView>) -> Seq<DownloadLinkView>
    decreases slots.len(),
{
    if slots.len() == 0 {
        Seq::empty()
    } else {
        match link_of(parts_of(slots.last())) {
            Some(l) => links_of(slots.drop_last()).push(l),
            None => links_of(slots.drop_last()),
        }
    }
}

/// Whether the size of one of the slots is no number.
pub open spec fn any_slot_bad(slots: Seq<SlotTextsView>) -> bool {
    exists|i: int| 0 <= i < slots.len() && slot_is_bad(#[trigger] slots[i])
}

/// The catalog entry that a content element stands for; none where its id
/// or name is missing, or its id, type or one of its sizes is no number.
pub open spec fn entry_of(c: RawContentView) -> Option<StoreEntryView> {
    if c.id is None || c.name is None || parsed_u64(c.id->0) is None || (c.typeid is Some
        && bounded(c.typeid->0, 65535) is None) || any_slot_bad(c.slots) {
        None
    } else {
        Some(
            StoreEntryView {
                id: parsed_u64(c.id->0)->0,
                name: c.name->0,
                version: or_empty(c.version),
                type_id: match c.typeid {
                    Some(t) => bounded(t, 65535)->0 as u16,
                    None => 0,
                },
                download_links: links_of(c.slots),
                changed_date: or_empty(c.changed),
            },
        )
    }
}

/// The catalog entries that a run of content elements stands for; none
/// where one of them stands for none.
pub open spec fn entries_of(cs: Seq<RawContentView>) -> Option<Seq<StoreEntryView>>
    decreases cs.len(),
{
    if cs.len() == 0 {
        Some(Seq::empty())
    } else {
        match (entries_of(cs.drop_last()), entry_of(cs.last())) {
            (Some(es), Some(e)) => Some(es.push(e)),
            _ => None,
        }
    }
}

/// What a catalog answer holds.
pub enum OcsOutcome {
    /// The entries of the answer, its status and the total number of entries.
    Entries(Seq<StoreEntryView>, StatusCode, u32),
    /// The answer cannot be read, for the reason given.
    Malformed(Seq<char>),
    /// The catalog asks to slow down.
    RateLimited,
    /// The catalog reports a failure with this code.
    Failed(u16),
}

/// Why a catalog answer cannot be read: the document is ill-formed or a
/// needed text cannot be unescaped; the status is missing, or it is no
/// number; the total is no number; or an entry is invalid. The first of
/// these that holds is the reason. None where the answer can be read.
pub open spec fn malformed_reason(st: OcsScan, fails: bool) -> Option<Seq<char>> {
    if fails || st.broken {
        Some("xml parse error: ill-formed document"@)
    } else if st.status is None {
        Some("xml parse error: missing field `statuscode`"@)
    } else if bounded(st.status->0, 65535) is None {
        Some("xml parse error: invalid statuscode"@)
    } else if st.total is Some && bounded(st.total->0, 4294967295) is None {
        Some("xml parse error: invalid totalitems"@)
    } else if entries_of(st.contents) is None {
        Some("xml parse error: invalid content"@)
    } else {
        None
    }
}

/// What the events of a catalog answer hold. Where the answer can be
/// read, a status of 200 asks to slow down, and any status but 100 and 0 is
/// a failure.
pub open spec fn decoded(events: Seq<XmlEventView>, fails: bool) -> OcsOutcome {
    let st = ocs_scan(events);
    match malformed_reason(st, fails) {
        Some(reason) => OcsOutcome::Malformed(reason),
        None => {
            let code = bounded(st.status->0, 65535)->0 as u16;
            let total = match st.total {
                Some(t) => bounded(t, 4294967295)->0 as u32,
                None => 0u32,
            };
            if code == 200 {
                OcsOutcome::RateLimited
            } else if code != 100 && code != 0 {
                OcsOutcome::Failed(code)
            } else {
                OcsOutcome::Entries(entries_of(st.contents)->0, StatusCode::of(code), total)
            }
        },
    }
}

fn parse_bounded(text: &str, max: u64) -> (r: Option<u64>)
    ensures
        r == bounded(text@, max),
{
    match parse_u64(text) {
        Some(n) => if n <= max {
            Some(n)
        } else {
            None
        },
        None => None,
    }
}

fn text_or_empty(o: &Option<String>) -> (r: String)
    ensures
        r@ == or_empty(opt_text(*o)),
{
    match o {
        Some(s) => s.clone(),
        None => String::new(),
    }
}

fn links_from(slots: &Vec<SlotTexts>) -> (r: Option<Vec<DownloadLink>>)
    ensures
        r is Some == !any_slot_bad(slot_views(slots@)),
        r matches Some(l) ==> link_views(l@) == links_of(slot_views(slots@)),
{
    let ghost all = slot_views(slots@);
    let mut links: Vec<DownloadLink> = Vec::new();
    let mut i: usize = 0;
    proof {
        assert(all.take(0) =~= Seq::<SlotTextsView>::empty());
        assert(link_views(links@) =~= Seq::<DownloadLinkView>::empty());
    }
    while i < slots.len()
        invariant
            i <= slots.len(),
            all == slot_views(slots@),
            link_views(links@) == links_of(all.take(i as int)),
            forall|j: int| 0 <= j < i ==> !slot_is_bad(#[trigger] all[j]),
        decreases slots.len() - i,
    {
        let slot = &slots[i];
        let ghost before = links@;
        proof {
            assert(all.take(i as int + 1).drop_last() =~= all.take(i as int));
            assert(all.take(i as int + 1).last() == slot@);
            assert(all[i as int] == slot@);
        }
        let size_kb = match &slot.size {
            Some(t) => match parse_u64(t.as_str()) {
                Some(n) => Some(n),
                None => {
                    return None;
                },
            },
            None => None,
        };
        let parts = DownloadParts {
            url: clone_opt(&slot.url),
            version: clone_opt(&slot.version),
            checksum: clone_opt(&slot.checksum),
            size_kb,
        };
        match parts.into_link() {
            Some(l) => {
                links.push(l);
                proof {
                    assert(link_views(links@) =~= link_views(before).push(l@));
                }
            },
            None => {},
        }
        i += 1;
    }
    proof {
        assert(all.take(i as int) =~= all);
    }
    Some(links)
}

/// The catalog entry that a content element stands for.
pub fn entry_from_content(c: &RawContent) -> (r: Option<StoreEntry>)
    ensures
        r is Some == entry_of(c@) is Some,
        r matches Some(e) ==> entry_of(c@) == Some(e@),
{
    let id = match &c.id {
        Some(t) => match parse_u64(t.as_str()) {
            Some(n) => n,
            None => {
                return None;
            },
        },
        None => {
            return None;
        },
    };
    let name = match &c.name {
        Some(n) => n.clone(),
        None => {
            return None;
        },
    };
    let type_id: u16 = match &c.typeid {
        Some(t) => match parse_bounded(t.as_str(), 65535) {
            Some(n) => n as u16,
            None => {
                return None;
            },
        },
        None => 0,
    };
    let download_links = match links_from(&c.slots) {
        Some(l) => l,
        None => {
            return None;
        },
    };
    Some(
        StoreEntry {
            id,
            name,
            version: text_or_empty(&c.version),
            type_id,
            download_links,
            changed_date: text_or_empty(&c.changed),
        },
    )
}

fn entries_from(contents: &Vec<RawContent>) -> (r: Option<Vec<StoreEntry>>)
    ensures
        r is Some == entries_of(content_views(contents@)) is Some,
        r matches Some(es) ==> entries_of(content_views(contents@)) == Some(entry_views(es@)),
{
    let ghost all = content_views(contents@);
    let mut entries: Vec<StoreEntry> = Vec::new();
    let mut i: usize = 0;
    proof {
        assert(all.take(0) =~= Seq::<RawContentView>::empty());
        assert(entry_views(entries@) =~= Seq::<StoreEntryView>::empty());
    }
    while i < contents.len()
        invariant
            i <= contents.len(),
            all == content_views(contents@),
            entries_of(all.take(i as int)) == Some(entry_views(entries@)),
        decreases contents.len() - i,
    {
        let ghost before = entries@;
        proof {
            assert(all.take(i as int + 1).drop_last() =~= all.take(i as int));
            assert(all.take(i as int + 1).last() == contents@[i as int]@);
        }
        match entry_from_content(&contents[i]) {
            Some(e) => {
                entries.push(e);
                proof {
                    assert(entry_views(entries@) =~= entry_views(before).push(e@));
                }
            },
            None => {
                proof {
                    broken_prefix_breaks_all(all, i as int + 1);
                }
                return None;
            },
        }
        i += 1;
    }
    proof {
        assert(all.take(i as int) =~= all);
    }
    Some(entries)
}

proof fn broken_prefix_breaks_all(cs: Seq<RawContentView>, n: int)
    requires
        0 <= n <= cs.len(),
        entries_of(cs.take(n)) is None,
    ensures
        entries_of(cs) is None,
    decreases cs.len() - n,
{
    if n < cs.len() {
        assert(cs.take(n + 1).drop_last() =~= cs.take(n));
        broken_prefix_breaks_all(cs, n + 1);
    } else {
        assert(cs.take(n) =~= cs);
    }
}

/// The views of a run of texts.
pub open spec fn path_views(path: Seq<String>) -> Seq<Seq<char>> {
    path.map_values(|s: String| s@)
}

fn path_is_needed(path: &Vec<String>) -> (r: bool)
    ensures
        r == is_needed(path_views(path@)),
{
    let n = path.len();
    proof {
        if n >= 3 {
            assert(path_views(path@)[1] == path@[1]@);
            assert(path_views(path@)[2] == path@[2]@);
        }
    }
    if n == 3 {
        str_eq(path[1].as_str(), "meta") && (str_eq(path[2].as_str(), "statuscode") || str_eq(
            path[2].as_str(),
            "totalitems",
        ))
    } else if n == 4 {
        str_eq(path[1].as_str(), "data") && str_eq(path[2].as_str(), "content")
    } else {
        false
    }
}

/// The raw fields of a catalog answer: its meta texts and its contents.
pub struct OcsFields {
    pub status: Option<String>,
    pub total: Option<String>,
    pub contents: Vec<RawContent>,
    pub broken: bool,
}

/// Collects the raw fields of a catalog answer from its events.
pub fn collect_fields(events: &Vec<XmlEvent>) -> (r: OcsFields)
    ensures
        opt_text(r.status) == ocs_scan(views_of(events@)).status,
        opt_text(r.total) == ocs_scan(views_of(events@)).total,
        content_views(r.contents@) == ocs_scan(views_of(events@)).contents,
        r.broken == ocs_scan(views_of(events@)).broken,
{
    let ghost all = views_of(events@);
    let mut path: Vec<String> = Vec::new();
    let mut status: Option<String> = None;
    let mut total: Option<String> = None;
    let mut current = RawContent::blank();
    let mut contents: Vec<RawContent> = Vec::new();
    let mut broken = false;
    let mut i: usize = 0;
    proof {
        assert(all.take(0) =~= Seq::<XmlEventView>::empty());
        assert(path_views(path@) =~= Seq::<Seq<char>>::empty());
        assert(content_views(contents@) =~= Seq::<RawContentView>::empty());
    }
    while i < events.len()
        invariant
            i <= events.len(),
            all == views_of(events@),
            ocs_scan(all.take(i as int)) == (OcsScan {
                path: path_views(path@),
                status: opt_text(status),
                total: opt_text(total),
                current: current@,
                contents: content_views(contents@),
                broken,
            }),
        decreases events.len() - i,
    {
        let ev = &events[i];
        let ghost path_before = path@;
        let ghost contents_before = contents@;
        proof {
            assert(all.take(i as int + 1).drop_last() =~= all.take(i as int));
            assert(all.take(i as int + 1).last() == ev@);
            if path@.len() >= 2 {
                assert(path_views(path@)[1] == path@[1]@);
            }
            if path@.len() >= 3 {
                assert(path_views(path@)[2] == path@[2]@);
            }
            if path@.len() >= 4 {
                assert(path_views(path@)[3] == path@[3]@);
            }
        }
        match ev.kind {
            XmlEventKind::Start => {
                if path.len() == 2 && str_eq(path[1].as_str(), "data") && str_eq(
                    ev.name.as_str(),
                    "content",
                ) {
                    current = RawContent::blank();
                }
                path.push(ev.name.clone());
                proof {
                    assert(path_views(path@) =~= path_views(path_before).push(ev@.name));
                }
            },
            XmlEventKind::End => {
                if path.len() > 0 {
                    if path.len() == 3 && str_eq(path[1].as_str(), "data") && str_eq(
                        path[2].as_str(),
                        "content",
                    ) {
                        let finished = current;
                        current = RawContent::blank();
                        contents.push(finished);
                        proof {
                            assert(content_views(contents@) =~= content_views(contents_before).push(
                                finished@,
                            ));
                        }
                    }
                    path.pop();
                    proof {
                        assert(path_views(path@) =~= path_views(path_before).drop_last());
                    }
                }
            },
            XmlEventKind::Text | XmlEventKind::CData => {
                if path_is_needed(&path) {
                    let value = match ev.kind {
                        XmlEventKind::Text => unescape_text(ev.text.as_str()),
                        _ => Some(ev.text.clone()),
                    };
                    match value {
                        Some(v) => {
                            if path.len() == 3 {
                                if str_eq(path[2].as_str(), "statuscode") {
                                    status = Some(v);
                                } else {
                                    total = Some(v);
                                }
                            } else {
                                current.take_field(path[3].as_str(), v);
                            }
                        },
                        None => {
                            broken = true;
                        },
                    }
                }
            },
            _ => {},
        }
        i += 1;
    }
    proof {
        assert(all.take(i as int) =~= all);
    }
    OcsFields { status, total, contents, broken }
}

/// Whether a result of decoding is what the answer holds.
pub open spec fn agrees(r: Result<(Vec<StoreEntry>, Meta), Error>, o: OcsOutcome) -> bool {
    match o {
        OcsOutcome::Entries(entries, status, total) => r matches Ok((es, meta)) && entry_views(es@)
            == entries && meta.status_code == status && meta.total_items == total,
        OcsOutcome::Malformed(reason) => r matches Err(e) && e matches Error::XmlParse(m) && m@
            == reason,
        OcsOutcome::RateLimited => r matches Err(e) && e is RateLimited,
        OcsOutcome::Failed(code) => r matches Err(e) && e matches Error::ApiError(c) && c == code,
    }
}

/// Decodes a catalog answer from its events. `failed` tells whether the
/// document was cut short by a syntax error.
pub fn decode_events(events: &Vec<XmlEvent>, failed: bool) -> (r: Result<
    (Vec<StoreEntry>, Meta),
    Error,
>)
    ensures
        agrees(r, decoded(views_of(events@), failed)),
{
    let fields = collect_fields(events);
    if failed || fields.broken {
        return Err(Error::xml_parse("xml parse error: ill-formed document"));
    }
    let code: u16 = match &fields.status {
        Some(t) => match parse_bounded(t.as_str(), 65535) {
            Some(n) => n as u16,
            None => {
                return Err(Error::xml_parse("xml parse error: invalid statuscode"));
            },
        },
        None => {
            return Err(Error::xml_parse("xml parse error: missing field `statuscode`"));
        },
    };
    let total: u32 = match &fields.total {
        Some(t) => match parse_bounded(t.as_str(), 4294967295) {
            Some(n) => n as u32,
            None => {
                return Err(Error::xml_parse("xml parse error: invalid totalitems"));
            },
        },
        None => 0,
    };
    let entries = match entries_from(&fields.contents) {
        Some(es) => es,
        None => {
            return Err(Error::xml_parse("xml parse error: invalid content"));
        },
    };
    let status = StatusCode::from_code(code);
    if status.is_rate_limited() {
        return Err(Error::RateLimited);
    }
    if !status.is_success() {
        return Err(Error::ApiError(status.as_u16()));
    }
    Ok((entries, Meta { status_code: status, total_items: total }))
}

/// Decodes a catalog answer.
pub fn parse_ocs_response(xml: &str) -> (r: Result<(Vec<StoreEntry>, Meta), Error>)
    ensures
        agrees(r, decoded(plain_run(document_events(xml@)), document_fails(xml@))),
{
    let doc = read_document(xml);
    decode_events(&doc.events, doc.failure.is_some())
}

} // verus!

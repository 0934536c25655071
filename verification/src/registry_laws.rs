use crate::evaluation::check_result;
use crate::registry::{blank_entry, raw_entries_of, scan, scan_step, with_text, RawEntryView, ScanState};
use crate::registry_write::{
    fully_escaped, markup, recorded_file, rendered, replacement_of, rewrite, rewrite_step,
    rewritten, RewriteState, UpdateFieldsView,
};
use crate::text::decimal;
use crate::types::{CheckResultView, InstalledComponentView, StoreEntryView};
use crate::xml::{XmlEventKind, XmlEventView};
use vstd::prelude::*;

verus! {

/// The event that is written for an event of the old file: a text node of
/// the entry that is updated whose element the update sets carries the new
/// value, escaped; every other event is written as it stands.
pub open spec fn written_event(
    st: RewriteState,
    ev: XmlEventView,
    target: nat,
    fields: UpdateFieldsView,
) -> XmlEventView {
    if ev.kind == XmlEventKind::Text && st.opened == target + 1 && replacement_of(
        st.element,
        fields,
    ) is Some {
        XmlEventView { text: fully_escaped(replacement_of(st.element, fields)->0), ..ev }
    } else {
        ev
    }
}

/// The events that are written when a registry file is rewritten.
pub open spec fn written_events(events: Seq<XmlEventView>, target: nat, fields: UpdateFieldsView) -> Seq<
    XmlEventView,
>
    decreases events.len(),
{
    if events.len() == 0 {
        Seq::empty()
    } else {
        written_events(events.drop_last(), target, fields).push(
            written_event(rewrite(events.drop_last(), target, fields), events.last(), target, fields),
        )
    }
}

/// The rewritten file is the markup of the events that are written.
pub proof fn rewritten_is_rendered(events: Seq<XmlEventView>, target: nat, fields: UpdateFieldsView)
    ensures
        rewritten(events, target, fields) == rendered(written_events(events, target, fields)),
        written_events(events, target, fields).len() == events.len(),
    decreases events.len(),
{
    if events.len() > 0 {
        rewritten_is_rendered(events.drop_last(), target, fields);
        let w = written_events(events, target, fields);
        assert(w.drop_last() =~= written_events(events.drop_last(), target, fields));
    }
}

/// Whether no entry is opened inside another: a `<stuff>` start tag never
/// follows one whose entry is still open.
pub open spec fn orderly(events: Seq<XmlEventView>) -> bool {
    forall|n: int|
        0 <= n < events.len() && (#[trigger] events[n]).kind == XmlEventKind::Start && events[n].name
            == "stuff"@ ==> !scan(events.take(n)).in_entry
}

/// Whether an entry is what an update makes of another: the name is kept;
/// version, id and release date are as the update gives them, or untouched
/// where the entry gave none; every installed and uninstalled file is the
/// path that the update records. What the update gives stands escaped.
pub open spec fn updates_entry(old: RawEntryView, new: RawEntryView, fields: UpdateFieldsView) -> bool {
    &&& new.name == old.name
    &&& (new.version == fully_escaped(fields.new_version) || (new.version == old.version
        && old.version.len() == 0))
    &&& (new.id_text == fully_escaped(decimal(fields.content_id as nat)) || (new.id_text
        == old.id_text && old.id_text.len() == 0))
    &&& (new.release_date == fully_escaped(fields.release_date) || (new.release_date
        == old.release_date && old.release_date.len() == 0))
    &&& new.installed_files.len() == old.installed_files.len()
    &&& forall|k: int|
        0 <= k < new.installed_files.len() ==> #[trigger] new.installed_files[k] == fully_escaped(
            recorded_file(fields.installed_path, fields.installed_is_file),
        )
    &&& new.uninstalled_files.len() == old.uninstalled_files.len()
    &&& forall|k: int|
        0 <= k < new.uninstalled_files.len() ==> #[trigger] new.uninstalled_files[k]
            == fully_escaped(recorded_file(fields.installed_path, fields.installed_is_file))
}

/// How the reading of the written events stands to the reading of the old
/// events, after the same number of events.
pub open spec fn aligned(
    old: ScanState,
    new: ScanState,
    w: RewriteState,
    target: nat,
    fields: UpdateFieldsView,
) -> bool {
    &&& new.element == old.element
    &&& w.element == old.element
    &&& new.in_entry == old.in_entry
    &&& w.opened == old.entries.len() + if old.in_entry {
        1nat
    } else {
        0nat
    }
    &&& new.entries.len() == old.entries.len()
    &&& forall|i: int|
        0 <= i < old.entries.len() && i != target ==> #[trigger] new.entries[i] == old.entries[i]
    &&& target < old.entries.len() ==> updates_entry(
        old.entries[target as int],
        new.entries[target as int],
        fields,
    )
    &&& if old.in_entry && old.entries.len() == target {
        updates_entry(old.current, new.current, fields)
    } else {
        new.current == old.current
    }
}

proof fn text_keeps_alignment(
    old: RawEntryView,
    new: RawEntryView,
    element: Seq<char>,
    text: Seq<char>,
    fields: UpdateFieldsView,
)
    requires
        updates_entry(old, new, fields),
    ensures
        replacement_of(element, fields) is Some ==> updates_entry(
            with_text(old, element, text),
            with_text(new, element, fully_escaped(replacement_of(element, fields)->0)),
            fields,
        ),
        replacement_of(element, fields) is None ==> updates_entry(
            with_text(old, element, text),
            with_text(new, element, text),
            fields,
        ),
{
    reveal_strlit("name");
    reveal_strlit("version");
    reveal_strlit("id");
    reveal_strlit("releasedate");
    reveal_strlit("installedfile");
    reveal_strlit("uninstalledfile");
    reveal_strlit("payload");
    reveal_strlit("status");
    assert("name"@.len() == 4);
    assert("version"@.len() == 7);
    assert("id"@.len() == 2);
    assert("releasedate"@.len() == 11);
    assert("installedfile"@.len() == 13);
    assert("uninstalledfile"@.len() == 15);
    assert("payload"@.len() == 7);
    assert("status"@.len() == 6);
    assert("version"@[0] == 'v');
    assert("payload"@[0] == 'p');
    let path = fully_escaped(recorded_file(fields.installed_path, fields.installed_is_file));
    if element == "installedfile"@ {
        let o = with_text(old, element, text);
        let n = with_text(new, element, path);
        assert(n.installed_files =~= new.installed_files.push(path));
        assert(o.installed_files =~= old.installed_files.push(text));
        assert forall|k: int| 0 <= k < n.installed_files.len() implies #[trigger] n.installed_files[k]
            == path by {
            if k < new.installed_files.len() {
                assert(n.installed_files[k] == new.installed_files[k]);
            }
        }
        assert(updates_entry(o, n, fields));
    } else if element == "uninstalledfile"@ {
        let o = with_text(old, element, text);
        let n = with_text(new, element, path);
        assert(n.uninstalled_files =~= new.uninstalled_files.push(path));
        assert(o.uninstalled_files =~= old.uninstalled_files.push(text));
        assert forall|k: int|
            0 <= k < n.uninstalled_files.len() implies #[trigger] n.uninstalled_files[k]
            == path by {
            if k < new.uninstalled_files.len() {
                assert(n.uninstalled_files[k] == new.uninstalled_files[k]);
            }
        }
        assert(updates_entry(o, n, fields));
    } else if element == "version"@ {
    } else if element == "id"@ {
    } else if element == "releasedate"@ {
    } else if element == "payload"@ {
        assert(with_text(old, element, text) == old);
    } else if element == "status"@ {
        assert(with_text(old, element, text) == old);
    } else if element == "name"@ {
    } else {
    }
}

proof fn scans_stay_aligned(events: Seq<XmlEventView>, target: nat, fields: UpdateFieldsView)
    requires
        orderly(events),
    ensures
        aligned(
            scan(events),
            scan(written_events(events, target, fields)),
            rewrite(events, target, fields),
            target,
            fields,
        ),
    decreases events.len(),
{
    if events.len() > 0 {
        let before = events.drop_last();
        let ev = events.last();
        assert forall|n: int|
            0 <= n < before.len() && (#[trigger] before[n]).kind == XmlEventKind::Start
                && before[n].name == "stuff"@ implies !scan(before.take(n)).in_entry by {
            assert(before[n] == events[n]);
            assert(before.take(n) =~= events.take(n));
        }
        scans_stay_aligned(before, target, fields);
        let old = scan(before);
        let new = scan(written_events(before, target, fields));
        let w = rewrite(before, target, fields);
        let written = written_events(events, target, fields);
        assert(written.drop_last() =~= written_events(before, target, fields));
        assert(written.last() == written_event(w, ev, target, fields));
        assert(events.take(events.len() - 1) =~= before);
        assert(events[events.len() - 1] == ev);
        let old2 = scan_step(old, ev);
        let new2 = scan_step(new, written.last());
        let w2 = rewrite_step(w, ev, target, fields);
        match ev.kind {
            XmlEventKind::Start => {
                if ev.name == "stuff"@ {
                    assert(!old.in_entry);
                }
            },
            XmlEventKind::End => {
                if ev.name == "stuff"@ && old.in_entry {
                    assert(new2.entries =~= new.entries.push(new.current));
                    assert(old2.entries =~= old.entries.push(old.current));
                }
            },
            XmlEventKind::Text => {
                if old.in_entry {
                    if old.entries.len() == target {
                        text_keeps_alignment(old.current, new.current, old.element, ev.text, fields);
                    }
                }
            },
            _ => {},
        }
        assert(aligned(old2, new2, w2, target, fields));
    } else {
        assert(updates_entry(blank_entry(), blank_entry(), fields));
    }
}

/// Rewriting an orderly registry file for an update changes the entry
/// that is updated and no other: the written events hold as many entries as
/// the old ones, every entry but the updated one is as it was, and the
/// updated one carries what the update gives.
pub proof fn rewrite_updates_the_target_entry(
    events: Seq<XmlEventView>,
    target: nat,
    fields: UpdateFieldsView,
)
    requires
        orderly(events),
    ensures
        rewritten(events, target, fields) == rendered(written_events(events, target, fields)),
        raw_entries_of(written_events(events, target, fields)).len() == raw_entries_of(events).len(),
        forall|i: int|
            0 <= i < raw_entries_of(events).len() && i != target ==> #[trigger] raw_entries_of(
                written_events(events, target, fields),
            )[i] == raw_entries_of(events)[i],
        target < raw_entries_of(events).len() ==> updates_entry(
            raw_entries_of(events)[target as int],
            raw_entries_of(written_events(events, target, fields))[target as int],
            fields,
        ),
{
    rewritten_is_rendered(events, target, fields);
    scans_stay_aligned(events, target, fields);
}

/// A check is repeatable: two results for the same components, catalog
/// entries and tables report the same updates.
pub proof fn check_is_repeatable(
    cs: Seq<InstalledComponentView>,
    entries: Seq<StoreEntryView>,
    fetched: Seq<(u64, StoreEntryView)>,
    table: Map<Seq<char>, u64>,
    cache: Map<Seq<char>, u64>,
    first: CheckResultView,
    second: CheckResultView,
)
    requires
        first == check_result(cs, entries, fetched, table, cache),
        second == check_result(cs, entries, fetched, table, cache),
    ensures
        first.updates == second.updates,
{
}

} // verus!

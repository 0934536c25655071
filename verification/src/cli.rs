use crate::pipeline::borrowed_views;
use crate::text::{
    chars_of, decimal, decimal_string, push_decimal, push_decimal_wide, push_str, str_eq,
    string_of,
};
use crate::types::{
    component_views, update_views, AvailableUpdate, AvailableUpdateView, InstalledComponent,
    InstalledComponentView, UpdateSummary,
};
use vstd::prelude::*;

verus! {

/// Moves the cursor up one line and clears that line.
pub const CLEAR_LINE_SEQUENCE: &'static str = "\x1b[1A\r\x1b[2K";

/// How a run of the program ended.
#[derive(Clone, Copy, Debug, PartialEq, Eq, Structural)]
pub enum ExitCode {
    Success,
    PartialFailure,
    FatalError,
}

impl ExitCode {
    /// The number that the program exits with.
    pub open spec fn number(self) -> i32 {
        match self {
            ExitCode::Success => 0,
            ExitCode::PartialFailure => 1,
            ExitCode::FatalError => 2,
        }
    }

    /// The number that the program exits with.
    pub fn as_i32(self) -> (r: i32)
        ensures
            r == self.number(),
    {
        match self {
            ExitCode::Success => 0,
            ExitCode::PartialFailure => 1,
            ExitCode::FatalError => 2,
        }
    }
}

/// The exit code for a batch of updates: a partial failure where one of
/// them failed.
pub fn exit_code_from_summary(summary: &UpdateSummary) -> (r: ExitCode)
    ensures
        r == if summary.failed@.len() > 0 {
            ExitCode::PartialFailure
        } else {
            ExitCode::Success
        },
{
    if summary.has_failures() {
        ExitCode::PartialFailure
    } else {
        ExitCode::Success
    }
}

/// The exit code for the status of a child process: a child that was
/// killed, and any status but 0 and 1, counts as a fatal error.
pub fn exit_code_from_status(code: Option<i32>) -> (r: ExitCode)
    ensures
        r == match code {
            Some(0) => ExitCode::Success,
            Some(1) => ExitCode::PartialFailure,
            _ => ExitCode::FatalError,
        },
{
    match code {
        Some(0) => ExitCode::Success,
        Some(1) => ExitCode::PartialFailure,
        _ => ExitCode::FatalError,
    }
}

/// A version as it is shown: `N/A` for a version that is empty or unknown.
pub open spec fn shown_version(version: Seq<char>) -> Seq<char> {
    if version.len() == 0 || version == "0.0.0"@ {
        "N/A"@
    } else {
        version
    }
}

/// Formats a version for display.
pub fn format_version(version: &str) -> (r: &str)
    ensures
        r@ == shown_version(version@),
{
    if version.unicode_len() == 0 || str_eq(version, "0.0.0") {
        "N/A"
    } else {
        version
    }
}

/// A size in bytes as text with a unit.
pub uninterp spec fn byte_size_of(bytes: u64) -> Seq<char>;

/// `ByteSize::to_string` of `bytesize`: a size in bytes as text with a unit.
#[verifier::external_body]
pub(crate) fn byte_size_text(bytes: u64) -> (r: String)
    ensures
        r@ == byte_size_of(bytes),
{
    bytesize::ByteSize(bytes).to_string()
}

/// Formats the size of a download for display: `-` where it is unknown.
pub fn format_download_size(size: Option<u64>) -> (r: String)
    ensures
        r@ == match size {
            Some(b) => byte_size_of(b),
            None => "-"@,
        },
{
    match size {
        Some(b) => byte_size_text(b),
        None => "-".to_owned(),
    }
}

/// A text in bold, for a terminal.
pub fn bold(s: &str) -> (r: String)
    ensures
        r@ == "\x1b[1m"@ + s@ + "\x1b[0m"@,
{
    let mut v = chars_of("\x1b[1m");
    push_str(&mut v, s);
    push_str(&mut v, "\x1b[0m");
    string_of(&v)
}

/// What is said of a number of things that are on offer: the number, the
/// name of the thing, in the plural unless there is one, and `available.`.
pub open spec fn count_text(count: nat, item_type: Seq<char>) -> Seq<char> {
    decimal(count) + " "@ + item_type + (if count == 1 {
        ""@
    } else {
        "s"@
    }) + " available."@
}

/// Says how many things are on offer.
pub fn count_message(count: usize, item_type: &str) -> (r: String)
    ensures
        r@ == count_text(count as nat, item_type@),
{
    let mut v: Vec<char> = Vec::new();
    push_decimal(&mut v, count as u64);
    push_str(&mut v, " ");
    push_str(&mut v, item_type);
    if count != 1 {
        push_str(&mut v, "s");
    }
    push_str(&mut v, " available.");
    proof {
        reveal_strlit("");
        assert(v@ =~= count_text(count as nat, item_type@));
    }
    string_of(&v)
}

/// The summary line of a batch of updates.
pub open spec fn summary_text(succeeded: nat, failed: nat, skipped: nat) -> Seq<char> {
    "Update Summary: "@ + decimal(succeeded) + " succeeded, "@ + decimal(failed) + " failed, "@
        + decimal(skipped) + " skipped ("@ + decimal(succeeded + failed + skipped) + " total)"@
}

/// The summary line of a batch of updates.
pub fn summary_line(summary: &UpdateSummary) -> (r: String)
    ensures
        r@ == summary_text(
            summary.succeeded@.len(),
            summary.failed@.len(),
            summary.skipped@.len(),
        ),
{
    let s = summary.succeeded.len() as u128;
    let f = summary.failed.len() as u128;
    let k = summary.skipped.len() as u128;
    let mut v = chars_of("Update Summary: ");
    push_decimal_wide(&mut v, s);
    push_str(&mut v, " succeeded, ");
    push_decimal_wide(&mut v, f);
    push_str(&mut v, " failed, ");
    push_decimal_wide(&mut v, k);
    push_str(&mut v, " skipped (");
    push_decimal_wide(&mut v, s + f + k);
    push_str(&mut v, " total)");
    string_of(&v)
}

/// The width of a column of names: that of the longest name, and ten at least.
pub open spec fn widest(names: Seq<Seq<char>>) -> nat
    decreases names.len(),
{
    if names.len() == 0 {
        10
    } else if names.last().len() > widest(names.drop_last()) {
        names.last().len()
    } else {
        widest(names.drop_last())
    }
}

/// The width of a column for the given names, counted in characters.
pub fn name_width(names: &Vec<String>) -> (r: usize)
    ensures
        r == widest(crate::registry::texts(names@)),
{
    let ghost all = crate::registry::texts(names@);
    let mut width: usize = 10;
    let mut i: usize = 0;
    proof {
        assert(all.take(0) =~= Seq::<Seq<char>>::empty());
    }
    while i < names.len()
        invariant
            i <= names.len(),
            all == crate::registry::texts(names@),
            width == widest(all.take(i as int)),
        decreases names.len() - i,
    {
        proof {
            assert(all.take(i as int + 1).drop_last() =~= all.take(i as int));
            assert(all.take(i as int + 1).last() == names@[i as int]@);
        }
        let n = names[i].as_str().unicode_len();
        if n > width {
            width = n;
        }
        i += 1;
    }
    proof {
        assert(all.take(i as int) =~= all);
    }
    width
}

/// A run of blanks.
pub open spec fn blanks(n: nat) -> Seq<char> {
    Seq::new(n, |i: int| ' ')
}

/// The blanks that push the time to the right edge of a row: one where
/// the row is full.
pub open spec fn row_padding(left_visible_len: nat, right_len: nat, width: nat) -> Seq<char> {
    if left_visible_len + 1 + right_len >= width {
        blanks(1)
    } else {
        blanks((width - (left_visible_len + 1 + right_len)) as nat)
    }
}

/// Calculates the blanks needed to push the time field to the right edge.
pub fn padding_between(left_visible_len: usize, right_len: usize, width: usize) -> (r: String)
    ensures
        r@ == row_padding(left_visible_len as nat, right_len as nat, width as nat),
{
    let n: usize = if left_visible_len >= width {
        1
    } else if right_len >= width - left_visible_len - 1 {
        1
    } else {
        width - left_visible_len - 1 - right_len
    };
    let mut v: Vec<char> = Vec::new();
    let mut i: usize = 0;
    while i < n
        invariant
            i <= n,
            v@ == blanks(i as nat),
        decreases n - i,
    {
        v.push(' ');
        proof {
            assert(v@ =~= blanks((i + 1) as nat));
        }
        i += 1;
    }
    string_of(&v)
}

/// The label of a stage of an update.
pub fn stage_label(stage: u8) -> (r: &'static str)
    ensures
        r@ == (if stage == 0 {
            "Backing up"@
        } else if stage == 1 {
            "Downloading"@
        } else if stage == 2 {
            "Extracting"@
        } else {
            "Installing"@
        }),
{
    if stage == 0 {
        "Backing up"
    } else if stage == 1 {
        "Downloading"
    } else if stage == 2 {
        "Extracting"
    } else {
        "Installing"
    }
}

/// The number of filled cells of the progress bar of a stage: the stage,
/// and four at most.
pub fn filled_cells(stage: u8) -> (r: usize)
    ensures
        r == (if stage < 4 {
            stage as int
        } else {
            4
        }),
{
    if stage < 4 {
        stage as usize
    } else {
        4
    }
}

/// The position of the frame of a spinner that has been turning for a
/// time: a frame lasts a tenth of a second, and there are ten of them.
pub fn spinner_index(elapsed_ms: u64) -> (r: usize)
    ensures
        r == (elapsed_ms / 100) % 10,
{
    ((elapsed_ms / 100) % 10) as usize
}

/// Whether an update is the one that a user names: by the name of its
/// component, whatever its case, by its directory name or by its catalog id.
pub open spec fn named_by(u: AvailableUpdateView, name: Seq<char>) -> bool {
    ascii_lowercased(u.installed.name) == ascii_lowercased(name) || u.installed.directory_name
        == name || decimal(u.content_id as nat) == name
}

/// A character with the letters `A` to `Z` in lower case.
pub open spec fn ascii_lower(c: char) -> char {
    if 65 <= c as u32 && c as u32 <= 90 {
        ((c as u32) + 32) as char
    } else {
        c
    }
}

/// A text with the letters `A` to `Z` in lower case.
pub open spec fn ascii_lowercased(s: Seq<char>) -> Seq<char> {
    s.map_values(|c: char| ascii_lower(c))
}

fn lower_ascii(s: &str) -> (r: Vec<char>)
    ensures
        r@ == ascii_lowercased(s@),
{
    let v = chars_of(s);
    let mut out: Vec<char> = Vec::new();
    let mut i: usize = 0;
    while i < v.len()
        invariant
            i <= v.len(),
            out@.len() == i,
            forall|j: int| 0 <= j < i ==> out@[j] == ascii_lower(v@[j]),
        decreases v.len() - i,
    {
        let c = v[i];
        let n: u32 = c as u32;
        if 65 <= n && n <= 90 {
            out.push(lower_letter(c));
        } else {
            out.push(c);
        }
        i += 1;
    }
    proof {
        assert(out@ =~= ascii_lowercased(s@));
    }
    out
}

/// `char::to_ascii_lowercase`: the lower-case form of a letter from `A` to `Z`.
#[verifier::external_body]
pub(crate) fn lower_letter(c: char) -> (r: char)
    requires
        65 <= c as u32 <= 90,
    ensures
        r == ascii_lower(c),
{
    c.to_ascii_lowercase()
}

/// Whether an update is the one that a user names.
pub fn is_named_by(update: &AvailableUpdate, name: &str) -> (r: bool)
    ensures
        r == named_by(update@, name@),
{
    let a = lower_ascii(update.installed.name.as_str());
    let b = lower_ascii(name);
    if crate::text::chars_eq(&a, &b) {
        return true;
    }
    if str_eq(update.installed.directory_name.as_str(), name) {
        return true;
    }
    let id = decimal_string(update.content_id);
    str_eq(id.as_str(), name)
}

/// The updates that a user names, in order.
pub open spec fn named_updates(updates: Seq<AvailableUpdateView>, name: Seq<char>) -> Seq<
    AvailableUpdateView,
>
    decreases updates.len(),
{
    if updates.len() == 0 {
        Seq::empty()
    } else if named_by(updates.last(), name) {
        named_updates(updates.drop_last(), name).push(updates.last())
    } else {
        named_updates(updates.drop_last(), name)
    }
}

/// The updates that a user names.
pub fn filter_by_name<'a>(updates: &'a Vec<AvailableUpdate>, name: &str) -> (r: Vec<
    &'a AvailableUpdate,
>)
    ensures
        borrowed_views(r@) == named_updates(update_views(updates@), name@),
{
    let ghost all = update_views(updates@);
    let mut kept: Vec<&'a AvailableUpdate> = Vec::new();
    let mut i: usize = 0;
    proof {
        assert(all.take(0) =~= Seq::<AvailableUpdateView>::empty());
        assert(borrowed_views(kept@) =~= Seq::<AvailableUpdateView>::empty());
    }
    while i < updates.len()
        invariant
            i <= updates.len(),
            all == update_views(updates@),
            borrowed_views(kept@) == named_updates(all.take(i as int), name@),
        decreases updates.len() - i,
    {
        let ghost before = kept@;
        proof {
            assert(all.take(i as int + 1).drop_last() =~= all.take(i as int));
            assert(all.take(i as int + 1).last() == updates@[i as int]@);
        }
        if is_named_by(&updates[i], name) {
            kept.push(&updates[i]);
            proof {
                assert(borrowed_views(kept@) =~= borrowed_views(before).push(updates@[i as int]@));
            }
        }
        i += 1;
    }
    proof {
        assert(all.take(i as int) =~= all);
    }
    kept
}

/// The summary of a run that installs nothing: every update is skipped.
pub fn dry_run_summary(updates: &Vec<AvailableUpdate>) -> (r: UpdateSummary)
    ensures
        r.succeeded@.len() == 0,
        r.failed@.len() == 0,
        r.skipped@.len() == updates@.len(),
        forall|i: int|
            0 <= i < updates@.len() ==> (#[trigger] r.skipped@[i])@ == updates@[i]@.installed.name,
{
    let mut summary = UpdateSummary::new();
    let mut i: usize = 0;
    while i < updates.len()
        invariant
            i <= updates.len(),
            summary.succeeded@.len() == 0,
            summary.failed@.len() == 0,
            summary.skipped@.len() == i,
            forall|j: int|
                0 <= j < i ==> (#[trigger] summary.skipped@[j])@ == updates@[j]@.installed.name,
        decreases updates.len() - i,
    {
        summary.add_skipped(updates[i].installed.name.clone());
        i += 1;
    }
    summary
}

/// The cells of the row that stands for an update in a table: name,
/// installed version, version on offer, catalog id, size and kind.
pub open spec fn update_cells(u: AvailableUpdateView) -> Seq<Seq<char>> {
    seq![
        u.installed.name,
        shown_version(u.installed.version),
        shown_version(u.latest_version),
        decimal(u.content_id as nat),
        match u.download_size {
            Some(b) => byte_size_of(b),
            None => "-"@,
        },
        u.installed.component_type.label(),
    ]
}

/// The row that stands for an update in a table.
pub fn update_row(update: &AvailableUpdate) -> (r: Vec<String>)
    ensures
        crate::registry::texts(r@) == update_cells(update@),
{
    let mut row: Vec<String> = Vec::new();
    row.push(update.installed.name.clone());
    row.push(format_version(update.installed.version.as_str()).to_owned());
    row.push(format_version(update.latest_version.as_str()).to_owned());
    row.push(decimal_string(update.content_id));
    row.push(format_download_size(update.download_size));
    row.push(update.installed.component_type.display_name().to_owned());
    proof {
        assert(crate::registry::texts(row@) =~= update_cells(update@));
    }
    row
}

/// The cells of the row that stands for an installed component in a
/// table: name, version and kind.
pub open spec fn component_cells(c: InstalledComponentView) -> Seq<Seq<char>> {
    seq![c.name, shown_version(c.version), c.component_type.label()]
}

/// The row that stands for an installed component in a table.
pub fn component_row(component: &InstalledComponent) -> (r: Vec<String>)
    ensures
        crate::registry::texts(r@) == component_cells(component@),
{
    let mut row: Vec<String> = Vec::new();
    row.push(component.name.clone());
    row.push(format_version(component.version.as_str()).to_owned());
    row.push(component.component_type.display_name().to_owned());
    proof {
        assert(crate::registry::texts(row@) =~= component_cells(component@));
    }
    row
}

/// The length of a text in bytes, as the machine counts it.
pub open spec fn byte_len(text: Seq<char>) -> nat {
    (vstd::utf8::encode_utf8(text).len() as usize) as nat
}

/// The frames of the spinner, in the order in which they are shown.
pub open spec fn spinner_frames() -> Seq<char> {
    seq!['⠋', '⠙', '⠹', '⠸', '⠼', '⠴', '⠦', '⠧', '⠇', '⠏']
}

/// The frame of a spinner that has been turning for a time.
pub fn spinner_frame(elapsed_ms: u64) -> (r: char)
    ensures
        r == spinner_frames()[((elapsed_ms / 100) % 10) as int],
{
    let i = spinner_index(elapsed_ms);
    if i == 0 {
        '⠋'
    } else if i == 1 {
        '⠙'
    } else if i == 2 {
        '⠹'
    } else if i == 3 {
        '⠸'
    } else if i == 4 {
        '⠼'
    } else if i == 5 {
        '⠴'
    } else if i == 6 {
        '⠦'
    } else if i == 7 {
        '⠧'
    } else if i == 8 {
        '⠇'
    } else {
        '⠏'
    }
}

/// A run of one character.
pub open spec fn repeated(c: char, n: nat) -> Seq<char> {
    Seq::new(n, |i: int| c)
}

fn push_repeated(out: &mut Vec<char>, c: char, n: usize)
    ensures
        final(out)@ == old(out)@ + repeated(c, n as nat),
{
    let mut i: usize = 0;
    proof {
        assert(out@ =~= old(out)@ + repeated(c, 0));
    }
    while i < n
        invariant
            i <= n,
            out@ == old(out)@ + repeated(c, i as nat),
        decreases n - i,
    {
        out.push(c);
        proof {
            assert(out@ =~= old(out)@ + repeated(c, (i + 1) as nat));
        }
        i += 1;
    }
}

/// The progress bar of a stage: four cells between brackets, of which as
/// many as the stage, and four at most, are filled in green.
pub open spec fn bar_of(stage: u8) -> Seq<char> {
    let filled: nat = if stage < 4 {
        stage as nat
    } else {
        4
    };
    "[\x1b[32m"@ + repeated('⣿', filled) + "\x1b[0m"@ + repeated(' ', (4 - filled) as nat) + "]"@
}

/// Draws the progress bar of a stage.
pub fn progress_bar(stage: u8) -> (r: String)
    ensures
        r@ == bar_of(stage),
{
    let filled = filled_cells(stage);
    let mut v = chars_of("[\x1b[32m");
    push_repeated(&mut v, '⣿', filled);
    push_str(&mut v, "\x1b[0m");
    push_repeated(&mut v, ' ', 4 - filled);
    push_str(&mut v, "]");
    string_of(&v)
}

/// What is seen of the row of a finished update to the left of its time.
pub open spec fn complete_left(name: Seq<char>, succeeded: bool) -> Seq<char> {
    (if succeeded {
        seq!['✓']
    } else {
        seq!['✗']
    }) + " "@ + name + " "@ + (if succeeded {
        "Updated"@
    } else {
        "Failed"@
    })
}

/// The row of a finished update: a mark and the outcome in green or red
/// around the name, and the time in cyan at the right edge.
pub open spec fn complete_row(name: Seq<char>, succeeded: bool, time: Seq<char>, width: nat) -> Seq<
    char,
> {
    let color = if succeeded {
        "\x1b[32m"@
    } else {
        "\x1b[31m"@
    };
    color + (if succeeded {
        seq!['✓']
    } else {
        seq!['✗']
    }) + "\x1b[0m"@ + " "@ + name + " "@ + color + (if succeeded {
        "Updated"@
    } else {
        "Failed"@
    }) + "\x1b[0m"@ + row_padding(byte_len(complete_left(name, succeeded)), byte_len(time), width)
        + "\x1b[36m"@ + time + "\x1b[0m"@
}

/// Draws the row of a finished update.
pub fn render_complete_row(name: &str, succeeded: bool, time_str: &str, width: usize) -> (r: String)
    ensures
        r@ == complete_row(name@, succeeded, time_str@, width as nat),
{
    let icon: char = if succeeded {
        '✓'
    } else {
        '✗'
    };
    let color: &str = if succeeded {
        "\x1b[32m"
    } else {
        "\x1b[31m"
    };
    let label: &str = if succeeded {
        "Updated"
    } else {
        "Failed"
    };
    let mut left: Vec<char> = Vec::new();
    left.push(icon);
    push_str(&mut left, " ");
    push_str(&mut left, name);
    push_str(&mut left, " ");
    push_str(&mut left, label);
    proof {
        assert(left@ =~= complete_left(name@, succeeded));
    }
    let visible = string_of(&left);
    let padding = padding_between(visible.as_str().len(), time_str.len(), width);
    let mut v = chars_of(color);
    v.push(icon);
    push_str(&mut v, "\x1b[0m");
    push_str(&mut v, " ");
    push_str(&mut v, name);
    push_str(&mut v, " ");
    push_str(&mut v, color);
    push_str(&mut v, label);
    push_str(&mut v, "\x1b[0m");
    push_str(&mut v, padding.as_str());
    push_str(&mut v, "\x1b[36m");
    push_str(&mut v, time_str);
    push_str(&mut v, "\x1b[0m");
    proof {
        assert(v@ =~= complete_row(name@, succeeded, time_str@, width as nat));
    }
    string_of(&v)
}

/// What is seen of the row of an update under way to the left of its time.
pub open spec fn progress_left(name: Seq<char>, stage: u8, elapsed_ms: u64) -> Seq<char> {
    seq![spinner_frames()[((elapsed_ms / 100) % 10) as int]] + " "@ + name + " ["@ + repeated(
        ' ',
        4,
    ) + "] "@ + (if stage == 0 {
        "Backing up"@
    } else if stage == 1 {
        "Downloading"@
    } else if stage == 2 {
        "Extracting"@
    } else {
        "Installing"@
    })
}

/// The row of an update under way: the spinner in yellow, the name, the
/// progress bar and the label of the stage, and the time in cyan at the
/// right edge.
pub open spec fn progress_row(
    name: Seq<char>,
    stage: u8,
    elapsed_ms: u64,
    time: Seq<char>,
    width: nat,
) -> Seq<char> {
    "\x1b[33m"@ + seq![spinner_frames()[((elapsed_ms / 100) % 10) as int]] + "\x1b[0m"@ + " "@
        + name + " "@ + bar_of(stage) + " "@ + (if stage == 0 {
        "Backing up"@
    } else if stage == 1 {
        "Downloading"@
    } else if stage == 2 {
        "Extracting"@
    } else {
        "Installing"@
    }) + row_padding(byte_len(progress_left(name, stage, elapsed_ms)), byte_len(time), width)
        + "\x1b[36m"@ + time + "\x1b[0m"@
}

/// Draws the row of an update under way.
pub fn render_progress_row(name: &str, stage: u8, elapsed_ms: u64, time_str: &str, width: usize) -> (r:
    String)
    ensures
        r@ == progress_row(name@, stage, elapsed_ms, time_str@, width as nat),
{
    let spinner = spinner_frame(elapsed_ms);
    let bar = progress_bar(stage);
    let label = stage_label(stage);
    let mut left: Vec<char> = Vec::new();
    left.push(spinner);
    push_str(&mut left, " ");
    push_str(&mut left, name);
    push_str(&mut left, " [");
    push_repeated(&mut left, ' ', 4);
    push_str(&mut left, "] ");
    push_str(&mut left, label);
    proof {
        assert(left@ =~= progress_left(name@, stage, elapsed_ms));
    }
    let visible = string_of(&left);
    let padding = padding_between(visible.as_str().len(), time_str.len(), width);
    let mut v = chars_of("\x1b[33m");
    v.push(spinner);
    push_str(&mut v, "\x1b[0m");
    push_str(&mut v, " ");
    push_str(&mut v, name);
    push_str(&mut v, " ");
    push_str(&mut v, bar.as_str());
    push_str(&mut v, " ");
    push_str(&mut v, label);
    push_str(&mut v, padding.as_str());
    push_str(&mut v, "\x1b[36m");
    push_str(&mut v, time_str);
    push_str(&mut v, "\x1b[0m");
    proof {
        assert(v@ =~= progress_row(name@, stage, elapsed_ms, time_str@, width as nat));
    }
    string_of(&v)
}

} // verus!

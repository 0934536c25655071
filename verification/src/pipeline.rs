use crate::config::RestartBehavior;
use crate::error::Error;
use crate::registry::texts;
use crate::text::{
    chars_of, lowercased, pieces, push_str, rows_of, split_chars, str_eq, string_of, to_lowercase,
};
use crate::types::{
    update_views, AvailableUpdate, AvailableUpdateView, ComponentType, InstalledComponent,
    InstalledComponentView, UpdateSummary,
};
use vstd::prelude::*;

verus! {

/// The MD5 digest of a run of bytes, in lower-case hexadecimal.
pub uninterp spec fn md5_hex_of(data: Seq<u8>) -> Seq<char>;

/// `md5::compute`, written with `{:x}`: the digest of the bytes in
/// lower-case hexadecimal.
#[verifier::external_body]
pub(crate) fn md5_hex(data: &[u8]) -> (r: String)
    ensures
        r@ == md5_hex_of(data@),
{
    format!("{:x}", md5::compute(data))
}

/// The checksum of a download.
pub fn checksum_of(data: &Vec<u8>) -> (r: String)
    ensures
        r@ == md5_hex_of(data@),
{
    md5_hex(data.as_slice())
}

/// Whether a digest is the expected one: the expected checksum in lower
/// case is the digest.
pub open spec fn checksum_matches(expected: Seq<char>, actual: Seq<char>) -> bool {
    actual == lowercased(expected)
}

/// Checks the digest of a download against the expected checksum, where
/// one is given. The comparison ignores the case of the expected checksum.
pub fn verify_checksum(expected: Option<&str>, actual: &str) -> (r: Result<(), Error>)
    ensures
        r is Ok == (expected matches Some(e) ==> checksum_matches(e@, actual@)),
        r matches Err(err) ==> err matches Error::ChecksumMismatch { expected: x, actual: a } && x@
            == expected->0@ && a@ == actual@,
{
    match expected {
        None => Ok(()),
        Some(e) => {
            let lower = to_lowercase(e);
            if str_eq(actual, lower.as_str()) {
                Ok(())
            } else {
                Err(Error::checksum(e, actual))
            }
        },
    }
}

/// Checks the bytes of a download against the expected checksum.
pub fn verify_download(data: &Vec<u8>, expected: Option<&str>) -> (r: Result<(), Error>)
    ensures
        r is Ok == (expected matches Some(e) ==> checksum_matches(e@, md5_hex_of(data@))),
        r matches Err(err) ==> err matches Error::ChecksumMismatch { expected: x, actual: a } && x@
            == expected->0@ && a@ == md5_hex_of(data@),
{
    let actual = checksum_of(data);
    verify_checksum(expected, actual.as_str())
}

/// The name under which a download is stored: what follows the last
/// slash of its address.
pub open spec fn file_name_in(url: Seq<char>) -> Seq<char> {
    pieces(url, '/').last()
}

/// The name under which a download is stored.
pub fn download_file_name(url: &str) -> (r: String)
    ensures
        r@ == file_name_in(url@),
{
    let v = chars_of(url);
    let parts = split_chars(&v, '/');
    let last = &parts[parts.len() - 1];
    proof {
        assert(rows_of(parts@).last() == last@);
    }
    string_of(last)
}

/// The name of the directory into which the archive of a component is unpacked.
pub fn extract_dir_name(directory_name: &str) -> (r: String)
    ensures
        r@ == "extract-"@ + directory_name@,
{
    let mut v = chars_of("extract-");
    push_str(&mut v, directory_name);
    string_of(&v)
}

/// The step of an update that is under way.
#[derive(Clone, Copy, Debug, PartialEq, Eq, Structural)]
pub enum Stage {
    /// The installed component is copied to the backup directory.
    Backup,
    /// The new revision is downloaded and its checksum verified.
    Download,
    /// The download is unpacked and installed.
    Install,
    /// The installed metadata and the registry are brought up to date.
    PostInstall,
    /// The backup is copied back after a failure.
    Restore,
}

/// What the pipeline asks for next.
#[derive(Debug)]
pub enum NextAction {
    /// Perform the step, then report how it went.
    Run(Stage),
    /// The update has ended with this result.
    Finish(Result<(), Error>),
}

/// An update of one component that is under way.
#[derive(Debug)]
pub struct Pipeline {
    /// The step that was asked for last.
    pub stage: Stage,
    /// The error for which the backup is being restored.
    pub failure: Option<Error>,
}

/// The message of the error for a failed install whose backup could not
/// be restored either.
pub open spec fn restore_failure_text(cause: Seq<char>) -> Seq<char> {
    "installation failed and restore failed: "@ + cause
}

/// Whether the step that follows a step is as the pipeline prescribes.
///
/// A failed backup ends the update with its error, for nothing was changed.
/// A failed download or install is followed by the restoring of the
/// backup; after it the update ends with the error of the failed step, or,
/// where restoring fails too, with an error that says so. A successful
/// install is followed by the bringing up to date of metadata and
/// registry, whose failure does not fail the update.
pub open spec fn follows(p: Pipeline, outcome: Result<(), Error>, next: Pipeline, action: NextAction) -> bool {
    match p.stage {
        Stage::Backup => match outcome {
            Ok(_) => action == NextAction::Run(Stage::Download) && next.stage == Stage::Download
                && next.failure is None,
            Err(e) => action == NextAction::Finish(Err(e)),
        },
        Stage::Download => match outcome {
            Ok(_) => action == NextAction::Run(Stage::Install) && next.stage == Stage::Install
                && next.failure is None,
            Err(e) => action == NextAction::Run(Stage::Restore) && next.stage == Stage::Restore
                && next.failure == Some(e),
        },
        Stage::Install => match outcome {
            Ok(_) => action == NextAction::Run(Stage::PostInstall) && next.stage
                == Stage::PostInstall && next.failure is None,
            Err(e) => action == NextAction::Run(Stage::Restore) && next.stage == Stage::Restore
                && next.failure == Some(e),
        },
        Stage::PostInstall => action == NextAction::Finish(Ok(())),
        Stage::Restore => match outcome {
            Ok(_) => match p.failure {
                Some(e) => action == NextAction::Finish(Err(e)),
                None => action matches NextAction::Finish(Err(Error::Other(_))),
            },
            Err(r) => action matches NextAction::Finish(Err(Error::Other(m))) && m@
                == restore_failure_text(r.text()),
        },
    }
}

impl Pipeline {
    /// An update that begins: the first step is the backup.
    pub fn start() -> (r: (Pipeline, NextAction))
        ensures
            r.0.stage == Stage::Backup,
            r.0.failure is None,
            r.1 == NextAction::Run(Stage::Backup),
    {
        (Pipeline { stage: Stage::Backup, failure: None }, NextAction::Run(Stage::Backup))
    }

    /// Takes the outcome of the step that was asked for last and says what follows.
    pub fn advance(self, outcome: Result<(), Error>) -> (r: (Pipeline, NextAction))
        ensures
            follows(self, outcome, r.0, r.1),
    {
        match self.stage {
            Stage::Backup => match outcome {
                Ok(_) => (
                    Pipeline { stage: Stage::Download, failure: None },
                    NextAction::Run(Stage::Download),
                ),
                Err(e) => (Pipeline { stage: Stage::Backup, failure: None }, NextAction::Finish(Err(e))),
            },
            Stage::Download => match outcome {
                Ok(_) => (
                    Pipeline { stage: Stage::Install, failure: None },
                    NextAction::Run(Stage::Install),
                ),
                Err(e) => (
                    Pipeline { stage: Stage::Restore, failure: Some(e) },
                    NextAction::Run(Stage::Restore),
                ),
            },
            Stage::Install => match outcome {
                Ok(_) => (
                    Pipeline { stage: Stage::PostInstall, failure: None },
                    NextAction::Run(Stage::PostInstall),
                ),
                Err(e) => (
                    Pipeline { stage: Stage::Restore, failure: Some(e) },
                    NextAction::Run(Stage::Restore),
                ),
            },
            Stage::PostInstall => (
                Pipeline { stage: Stage::PostInstall, failure: None },
                NextAction::Finish(Ok(())),
            ),
            Stage::Restore => match outcome {
                Ok(_) => {
                    let result = match self.failure {
                        Some(e) => Err(e),
                        None => Err(Error::other("installation failed")),
                    };
                    (Pipeline { stage: Stage::Restore, failure: None }, NextAction::Finish(result))
                },
                Err(r) => {
                    let mut msg = chars_of("installation failed and restore failed: ");
                    let cause = r.message();
                    push_str(&mut msg, cause.as_str());
                    let text = string_of(&msg);
                    (
                        Pipeline { stage: Stage::Restore, failure: None },
                        NextAction::Finish(Err(Error::other(text.as_str()))),
                    )
                },
            },
        }
    }
}

/// The pipeline never brings the registry up to date after a failure, and
/// never ends in success without having done so: the step after a failed
/// download or install is the restoring of the backup, and success follows
/// the post-install step alone.
pub proof fn failure_leads_to_restore(
    p: Pipeline,
    outcome: Result<(), Error>,
    next: Pipeline,
    action: NextAction,
)
    requires
        follows(p, outcome, next, action),
    ensures
        (p.stage == Stage::Download || p.stage == Stage::Install) && outcome is Err ==> action
            == NextAction::Run(Stage::Restore),
        action == NextAction::Run(Stage::PostInstall) ==> p.stage == Stage::Install && outcome
            is Ok,
        action == NextAction::Finish(Ok(())) ==> p.stage == Stage::PostInstall,
        p.stage == Stage::Restore ==> action matches NextAction::Finish(Err(_)),
{
}

/// Whether a component of a kind is shown by the desktop shell, which has
/// to be restarted to show the new revision.
pub open spec fn needs_restart(kind: ComponentType) -> bool {
    kind == ComponentType::PlasmaWidget || kind == ComponentType::PlasmaStyle || kind
        == ComponentType::GlobalTheme || kind == ComponentType::SplashScreen || kind
        == ComponentType::KWinSwitcher
}

/// Returns `true` if the component type requires a shell restart after updating.
pub fn requires_plasmashell_restart(component: &InstalledComponent) -> (r: bool)
    ensures
        r == needs_restart(component@.component_type),
{
    match component.component_type {
        ComponentType::PlasmaWidget => true,
        ComponentType::PlasmaStyle => true,
        ComponentType::GlobalTheme => true,
        ComponentType::SplashScreen => true,
        ComponentType::KWinSwitcher => true,
        _ => false,
    }
}

/// Whether one of the updates is of a kind that needs a restart.
pub open spec fn any_needs_restart(updates: Seq<AvailableUpdateView>) -> bool {
    exists|i: int|
        0 <= i < updates.len() && needs_restart((#[trigger] updates[i]).installed.component_type)
}

/// Returns `true` if any of the updates require a shell restart.
pub fn any_requires_restart(updates: &Vec<AvailableUpdate>) -> (r: bool)
    ensures
        r == any_needs_restart(update_views(updates@)),
{
    let mut i: usize = 0;
    while i < updates.len()
        invariant
            i <= updates.len(),
            forall|j: int|
                0 <= j < i ==> !needs_restart(
                    (#[trigger] update_views(updates@)[j]).installed.component_type,
                ),
        decreases updates.len() - i,
    {
        proof {
            assert(update_views(updates@)[i as int] == updates@[i as int]@);
        }
        if requires_plasmashell_restart(&updates[i].installed) {
            return true;
        }
        i += 1;
    }
    false
}

/// Whether one of the updates needs a restart and has succeeded: its
/// component's name is among the names of the succeeded updates.
pub open spec fn succeeded_needs_restart(
    updates: Seq<AvailableUpdateView>,
    succeeded: Seq<Seq<char>>,
) -> bool {
    exists|i: int|
        0 <= i < updates.len() && needs_restart((#[trigger] updates[i]).installed.component_type)
            && succeeded.contains(updates[i].installed.name)
}

/// What to do about the desktop shell after a batch of updates.
#[derive(Clone, Copy, Debug, PartialEq, Eq, Structural)]
pub enum RestartAction {
    /// Leave the shell alone.
    Nothing,
    /// Restart the shell.
    Restart,
    /// Ask the user whether to restart the shell.
    Ask,
}

/// What the restart policy asks for: nothing unless an update that needs a
/// restart has succeeded; then what the configured behavior says.
pub open spec fn restart_action(
    behavior: RestartBehavior,
    updates: Seq<AvailableUpdateView>,
    succeeded: Seq<Seq<char>>,
) -> RestartAction {
    if !succeeded_needs_restart(updates, succeeded) {
        RestartAction::Nothing
    } else {
        match behavior {
            RestartBehavior::Never => RestartAction::Nothing,
            RestartBehavior::Always => RestartAction::Restart,
            RestartBehavior::Prompt => RestartAction::Ask,
        }
    }
}

fn name_is_among(names: &Vec<String>, name: &str) -> (r: bool)
    ensures
        r == texts(names@).contains(name@),
{
    let mut i: usize = 0;
    while i < names.len()
        invariant
            i <= names.len(),
            forall|j: int| 0 <= j < i ==> texts(names@)[j] != name@,
        decreases names.len() - i,
    {
        proof {
            assert(texts(names@)[i as int] == names@[i as int]@);
        }
        if str_eq(names[i].as_str(), name) {
            return true;
        }
        i += 1;
    }
    false
}

/// Decides what to do about the desktop shell after a batch of updates.
pub fn restart_decision(
    behavior: RestartBehavior,
    updates: &Vec<AvailableUpdate>,
    succeeded: &Vec<String>,
) -> (r: RestartAction)
    ensures
        r == restart_action(behavior, update_views(updates@), texts(succeeded@)),
{
    let mut found = false;
    let mut i: usize = 0;
    while i < updates.len() && !found
        invariant
            i <= updates.len(),
            !found ==> forall|j: int|
                0 <= j < i ==> !(needs_restart(
                    (#[trigger] update_views(updates@)[j]).installed.component_type,
                ) && texts(succeeded@).contains(update_views(updates@)[j].installed.name)),
            found ==> succeeded_needs_restart(update_views(updates@), texts(succeeded@)),
        decreases updates.len() - i,
    {
        proof {
            assert(update_views(updates@)[i as int] == updates@[i as int]@);
        }
        if requires_plasmashell_restart(&updates[i].installed) && name_is_among(
            succeeded,
            updates[i].installed.name.as_str(),
        ) {
            found = true;
        }
        i += 1;
    }
    if !found {
        return RestartAction::Nothing;
    }
    match behavior {
        RestartBehavior::Never => RestartAction::Nothing,
        RestartBehavior::Always => RestartAction::Restart,
        RestartBehavior::Prompt => RestartAction::Ask,
    }
}

/// Whether an update is excluded: its component's directory name or name
/// is one of the excluded names.
pub open spec fn excluded_by(u: AvailableUpdateView, excluded: Seq<Seq<char>>) -> bool {
    excluded.contains(u.installed.directory_name) || excluded.contains(u.installed.name)
}

/// Whether an update is excluded by a list of names.
pub fn is_excluded(update: &AvailableUpdate, excluded: &Vec<String>) -> (r: bool)
    ensures
        r == excluded_by(update@, texts(excluded@)),
{
    name_is_among(excluded, update.installed.directory_name.as_str()) || name_is_among(
        excluded,
        update.installed.name.as_str(),
    )
}

/// The updates that are not excluded, in order.
pub open spec fn not_excluded(updates: Seq<AvailableUpdateView>, excluded: Seq<Seq<char>>) -> Seq<
    AvailableUpdateView,
>
    decreases updates.len(),
{
    if updates.len() == 0 {
        Seq::empty()
    } else if excluded_by(updates.last(), excluded) {
        not_excluded(updates.drop_last(), excluded)
    } else {
        not_excluded(updates.drop_last(), excluded).push(updates.last())
    }
}

/// The views of a run of borrowed updates.
pub open spec fn borrowed_views(updates: Seq<&AvailableUpdate>) -> Seq<AvailableUpdateView> {
    updates.map_values(|u: &AvailableUpdate| u@)
}

/// The updates that a list of excluded names leaves.
pub fn filter_excluded<'a>(updates: &'a Vec<AvailableUpdate>, excluded: &Vec<String>) -> (r: Vec<
    &'a AvailableUpdate,
>)
    ensures
        borrowed_views(r@) == not_excluded(update_views(updates@), texts(excluded@)),
{
    let ghost all = update_views(updates@);
    let mut kept: Vec<&'a AvailableUpdate> = Vec::new();
    let mut i: usize = 0;
    proof {
        assert(all.take(0) =~= Seq::<AvailableUpdateView>::empty());
        assert(borrowed_views(kept@) =~= Seq::<AvailableUpdateView>::empty());
    }
    while i < updates.len()
        invariant
            i <= updates.len(),
            all == update_views(updates@),
            borrowed_views(kept@) == not_excluded(all.take(i as int), texts(excluded@)),
        decreases updates.len() - i,
    {
        let ghost before = kept@;
        proof {
            assert(all.take(i as int + 1).drop_last() =~= all.take(i as int));
            assert(all.take(i as int + 1).last() == updates@[i as int]@);
        }
        if !is_excluded(&updates[i], excluded) {
            kept.push(&updates[i]);
            proof {
                assert(borrowed_views(kept@) =~= borrowed_views(before).push(updates@[i as int]@));
            }
        }
        i += 1;
    }
    proof {
        assert(all.take(i as int) =~= all);
    }
    kept
}

/// Records how the update of a component went: its name among the
/// succeeded ones, or among the failed ones with the text of the error.
pub fn record_update(summary: &mut UpdateSummary, name: String, outcome: Result<(), Error>)
    ensures
        outcome is Ok ==> final(summary).succeeded@ == old(summary).succeeded@.push(name),
        outcome is Ok ==> final(summary).failed == old(summary).failed,
        outcome is Err ==> final(summary).failed@.len() == old(summary).failed@.len() + 1,
        outcome is Err ==> final(summary).failed@.last().0 == name,
        outcome matches Err(e) ==> final(summary).failed@.last().1@ == e.text(),
        outcome is Err ==> final(summary).failed@.drop_last() == old(summary).failed@,
        outcome is Err ==> final(summary).succeeded == old(summary).succeeded,
        final(summary).skipped == old(summary).skipped,
{
    match outcome {
        Ok(_) => summary.add_success(name),
        Err(e) => {
            let reason = e.message();
            summary.add_failure(name, reason);
            proof {
                assert(summary.failed@.drop_last() =~= old(summary).failed@);
            }
        },
    }
}

} // verus!

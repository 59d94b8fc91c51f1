//! The workflow of one post: check for an earlier download, fetch the
//! metadata, then create the directory, download, remux, remove the
//! temporary file and set the modification time.
//!
//! The driver performs what `pending` asks for and reports the result through
//! one of the `on_` methods. A report that does not fit the current stage
//! changes nothing, and a workflow that has ended stays as it is.

use vstd::prelude::*;
use crate::batch::Outcome;
use crate::error::ErrorKind;
use crate::naming::{
    dedup_pattern, dedup_pattern_spec, final_name, final_name_spec, lemma_final_name_fits_glob,
    path_shape, temp_name, temp_name_spec,
};
use crate::pattern::{find_group, group_match};
use crate::post_info::VideoInfo;

verus! {

/// Where the workflow stands.
#[derive(Clone, Copy, Debug, PartialEq, Eq, Structural)]
pub enum Stage {
    Checking,
    Fetching,
    CreatingDir,
    Downloading,
    Remuxing,
    RemovingTemp,
    SettingTime,
    Finished(Outcome),
}

/// What the driver is to do next.
#[derive(Clone, Copy, Debug, PartialEq, Eq, Structural)]
pub enum Action {
    /// Look for a file that matches `dedup_pattern`.
    CheckPresent,
    /// Obtain the post's metadata.
    FetchInfo,
    /// Create the directory `dir`, with its parents.
    CreateDir,
    /// Write what `download_url` serves to `temp_name` in `dir`.
    Download,
    /// Remux `temp_name` into `final_name`.
    Remux,
    /// Delete `temp_name`.
    RemoveTemp,
    /// Set the modification time of `final_name` to `modified_time`.
    SetModified,
    /// Nothing: the workflow has ended.
    Stop,
}

/// The handle in a post reference: `@` and the word after it.
pub open spec fn dir_pattern() -> Seq<char> {
    "@(\\w+)"@
}

/// The digits at the end of a post reference.
pub open spec fn id_pattern() -> Seq<char> {
    "(\\d+)*$"@
}

/// The action that a stage waits for.
pub open spec fn action_of(stage: Stage) -> Action {
    match stage {
        Stage::Checking => Action::CheckPresent,
        Stage::Fetching => Action::FetchInfo,
        Stage::CreatingDir => Action::CreateDir,
        Stage::Downloading => Action::Download,
        Stage::Remuxing => Action::Remux,
        Stage::RemovingTemp => Action::RemoveTemp,
        Stage::SettingTime => Action::SetModified,
        Stage::Finished(_) => Action::Stop,
    }
}

/// The action reaches out to the network.
pub open spec fn uses_network(action: Action) -> bool {
    action is FetchInfo || action is Download
}

/// The stage after the check for an earlier download.
pub open spec fn after_present(stage: Stage, present: bool) -> Stage {
    if stage is Checking {
        if present {
            Stage::Finished(Outcome::Skipped)
        } else {
            Stage::Fetching
        }
    } else {
        stage
    }
}

/// The stage after the metadata was fetched, or was not to be had.
pub open spec fn after_info(stage: Stage, has_info: bool) -> Stage {
    if stage is Fetching {
        if has_info {
            Stage::CreatingDir
        } else {
            Stage::Finished(Outcome::Skipped)
        }
    } else {
        stage
    }
}

/// The stage after a file operation succeeded.
pub open spec fn after_done(stage: Stage) -> Stage {
    match stage {
        Stage::CreatingDir => Stage::Downloading,
        Stage::Downloading => Stage::Remuxing,
        Stage::RemovingTemp => Stage::SettingTime,
        Stage::SettingTime => Stage::Finished(Outcome::Completed),
        _ => stage,
    }
}

/// The stage after the remux tool ended with `status` (`None` where it gave
/// none): anything but zero abandons the item.
pub open spec fn after_remux(stage: Stage, status: Option<i32>) -> Stage {
    if stage is Remuxing {
        if status == Some(0i32) {
            Stage::RemovingTemp
        } else {
            Stage::Finished(Outcome::Failed(ErrorKind::RemuxFailure))
        }
    } else {
        stage
    }
}

/// The stage after a step failed with `kind`.
pub open spec fn after_error(stage: Stage, kind: ErrorKind) -> Stage {
    if stage is Finished {
        stage
    } else {
        Stage::Finished(Outcome::Failed(kind))
    }
}

/// How far a stage is from the start.
pub open spec fn rank(stage: Stage) -> nat {
    match stage {
        Stage::Checking => 0,
        Stage::Fetching => 1,
        Stage::CreatingDir => 2,
        Stage::Downloading => 3,
        Stage::Remuxing => 4,
        Stage::RemovingTemp => 5,
        Stage::SettingTime => 6,
        Stage::Finished(_) => 7,
    }
}

/// What the driver reported, as far as it decides the next stage.
#[derive(Clone, Copy, Debug, PartialEq, Eq, Structural)]
pub enum Report {
    /// Whether a file of the post is present.
    Present(bool),
    /// Whether the metadata was to be had.
    Info(bool),
    /// A file operation succeeded.
    Done,
    /// The remux tool ended with this status.
    Remuxed(Option<i32>),
    /// A step failed.
    Error(ErrorKind),
}

/// The stage after one report.
pub open spec fn step(stage: Stage, report: Report) -> Stage {
    match report {
        Report::Present(present) => after_present(stage, present),
        Report::Info(has_info) => after_info(stage, has_info),
        Report::Done => after_done(stage),
        Report::Remuxed(status) => after_remux(stage, status),
        Report::Error(kind) => after_error(stage, kind),
    }
}

/// The stage after a sequence of reports, taken in order.
pub open spec fn run(stage: Stage, reports: Seq<Report>) -> Stage
    decreases reports.len(),
{
    if reports.len() == 0 {
        stage
    } else {
        step(run(stage, reports.drop_last()), reports.last())
    }
}

/// No report moves a workflow backwards; a report that fits the stage moves
/// it forwards; a workflow that has ended stays as it ended.
pub proof fn lemma_step_advances(stage: Stage, report: Report)
    ensures
        rank(step(stage, report)) >= rank(stage),
        step(stage, report) != stage ==> rank(step(stage, report)) > rank(stage),
        stage is Finished ==> step(stage, report) == stage,
        !(stage is Finished) && report is Error ==> step(stage, report) is Finished,
{
}

/// Whatever is reported, in whatever order, a workflow never moves backwards
/// and one that has ended stays as it ended.
pub proof fn lemma_run_advances(stage: Stage, reports: Seq<Report>)
    ensures
        rank(run(stage, reports)) >= rank(stage),
        stage is Finished ==> run(stage, reports) == stage,
    decreases reports.len(),
{
    if reports.len() > 0 {
        lemma_run_advances(stage, reports.drop_last());
        lemma_step_advances(run(stage, reports.drop_last()), reports.last());
    }
}

/// Reports taken in two parts give what they give taken as one.
pub proof fn lemma_run_split(stage: Stage, first: Seq<Report>, second: Seq<Report>)
    ensures
        run(stage, first + second) == run(run(stage, first), second),
    decreases second.len(),
{
    if second.len() == 0 {
        assert(first + second =~= first);
    } else {
        lemma_run_split(stage, first, second.drop_last());
        assert((first + second).drop_last() =~= first + second.drop_last());
        assert((first + second).last() == second.last());
    }
}

/// A post whose file is present is skipped before anything is fetched: once
/// the check has found the file, the workflow has ended, and after no later
/// report does it ask for the network.
pub proof fn lemma_present_skips(later: Seq<Report>)
    ensures
        run(Stage::Checking, seq![Report::Present(true)] + later) == Stage::Finished(
            Outcome::Skipped,
        ),
        !uses_network(action_of(run(Stage::Checking, seq![Report::Present(true)] + later))),
        !uses_network(action_of(Stage::Checking)),
{
    let first = seq![Report::Present(true)];
    assert(first.drop_last() =~= Seq::<Report>::empty());
    assert(run(Stage::Checking, first) == step(run(Stage::Checking, first.drop_last()), first.last()));
    assert(run(Stage::Checking, first) == Stage::Finished(Outcome::Skipped));
    lemma_run_split(Stage::Checking, first, later);
    lemma_run_advances(Stage::Finished(Outcome::Skipped), later);
}

/// A post whose metadata never appeared is skipped, not failed, and stays
/// skipped whatever is reported later.
pub proof fn lemma_missing_info_skips(later: Seq<Report>)
    ensures
        run(Stage::Fetching, seq![Report::Info(false)] + later) == Stage::Finished(
            Outcome::Skipped,
        ),
{
    let first = seq![Report::Info(false)];
    assert(first.drop_last() =~= Seq::<Report>::empty());
    assert(run(Stage::Fetching, first) == step(run(Stage::Fetching, first.drop_last()), first.last()));
    lemma_run_split(Stage::Fetching, first, later);
    lemma_run_advances(Stage::Finished(Outcome::Skipped), later);
}

/// A remux that ends with anything but zero abandons the item for good:
/// whatever is reported before and after, the item ends as a remux failure
/// and is never completed.
pub proof fn lemma_remux_failure_is_final(before: Seq<Report>, status: Option<i32>, later: Seq<Report>)
    requires
        run(Stage::Checking, before) is Remuxing,
        status != Some(0i32),
    ensures
        run(Stage::Checking, before + seq![Report::Remuxed(status)] + later) == Stage::Finished(
            Outcome::Failed(ErrorKind::RemuxFailure),
        ),
{
    let one = seq![Report::Remuxed(status)];
    lemma_run_split(Stage::Checking, before, one);
    assert(one.drop_last() =~= Seq::<Report>::empty());
    let at = run(Stage::Checking, before);
    assert(run(at, one) == step(run(at, one.drop_last()), one.last()));
    lemma_run_split(Stage::Checking, before + one, later);
    lemma_run_advances(Stage::Finished(Outcome::Failed(ErrorKind::RemuxFailure)), later);
}

/// Until it has ended, a workflow is no further than the number of reports,
/// and it is completed only from the last step: a completed workflow has
/// taken seven reports or more, none of its steps left out.
pub proof fn lemma_completion_takes_every_step(reports: Seq<Report>)
    ensures
        !(run(Stage::Checking, reports) is Finished) ==> rank(run(Stage::Checking, reports))
            <= reports.len(),
        run(Stage::Checking, reports) == Stage::Finished(Outcome::Completed) ==> reports.len()
            >= 7,
    decreases reports.len(),
{
    if reports.len() > 0 {
        lemma_completion_takes_every_step(reports.drop_last());
        let before = run(Stage::Checking, reports.drop_last());
        lemma_run_advances(before, seq![reports.last()]);
        if run(Stage::Checking, reports) == Stage::Finished(Outcome::Completed) {
            if before is Finished {
                assert(step(before, reports.last()) == before);
            } else {
                assert(before is SettingTime);
            }
        }
    }
}

/// What fetched metadata reports to the workflow of post `id`: metadata of
/// that post, none, or, as a failure, metadata of another post.
pub open spec fn info_report(info: Option<VideoInfo>, id: Seq<char>) -> Report {
    match info {
        Some(i) => if i.id@ == id {
            Report::Info(true)
        } else {
            Report::Error(ErrorKind::ProtocolMismatch)
        },
        None => Report::Info(false),
    }
}

/// What the end of the metadata protocol reports to the workflow of post
/// `id`: its error, or what its metadata reports.
pub open spec fn fetched_report(result: Result<Option<VideoInfo>, ErrorKind>, id: Seq<char>) -> Report {
    match result {
        Ok(info) => info_report(info, id),
        Err(kind) => Report::Error(kind),
    }
}

/// The workflow of one post.
#[derive(Debug)]
pub struct Workflow {
    /// The author's handle, which names the directory.
    pub dir: String,
    pub id: String,
    pub stage: Stage,
    pub info: Option<VideoInfo>,
}

impl Workflow {
    /// From the creation of the directory on, the metadata is known, and it
    /// is that of this post: its id is the id that the earlier download is
    /// looked up by.
    pub open spec fn wf(self) -> bool {
        &&& rank(self.stage) >= 2 && !(self.stage is Finished) ==> self.info is Some
        &&& self.stage == Stage::Finished(Outcome::Completed) ==> self.info is Some
        &&& self.info is Some ==> self.info->0.wf()
        &&& self.info is Some ==> self.info->0.id@ == self.id@
    }

    /// The same post, with the same metadata.
    pub open spec fn same_post(self, other: Workflow) -> bool {
        &&& self.dir@ == other.dir@
        &&& self.id@ == other.id@
        &&& self.info == other.info
    }

    /// The workflow for the handle and the id that were found in a post
    /// reference. A reference without a handle is refused.
    pub fn from_parts(dir: Option<String>, id: Option<String>) -> (r: Result<Workflow, ErrorKind>)
        ensures
            match (dir, id) {
                (Some(d), Some(i)) => r == Ok::<Workflow, ErrorKind>(
                    Workflow { dir: d, id: i, stage: Stage::Checking, info: None },
                ),
                _ => r == Err::<Workflow, ErrorKind>(ErrorKind::ProtocolMismatch),
            },
            r is Ok ==> r->Ok_0.wf(),
    {
        match (dir, id) {
            (Some(d), Some(i)) => Ok(Workflow { dir: d, id: i, stage: Stage::Checking, info: None }),
            _ => Err(ErrorKind::ProtocolMismatch),
        }
    }

    /// The workflow for a post reference: the directory is the handle after
    /// `@`, the id the digits at the reference's end.
    pub fn new(reference: &str) -> (r: Result<Workflow, ErrorKind>)
        ensures
            match (
                group_match(dir_pattern(), reference@, 1),
                group_match(id_pattern(), reference@, 0),
            ) {
                (Some(d), Some(i)) => {
                    &&& r is Ok
                    &&& r->Ok_0.dir@ == d
                    &&& r->Ok_0.id@ == i
                    &&& r->Ok_0.stage == Stage::Checking
                    &&& r->Ok_0.info is None
                },
                _ => r == Err::<Workflow, ErrorKind>(ErrorKind::ProtocolMismatch),
            },
            r is Ok ==> r->Ok_0.wf(),
    {
        let dir = find_group("@(\\w+)", reference, 1);
        let id = find_group("(\\d+)*$", reference, 0);
        Workflow::from_parts(dir, id)
    }

    /// What the driver is to do next.
    pub fn pending(&self) -> (r: Action)
        ensures
            r == action_of(self.stage),
    {
        match self.stage {
            Stage::Checking => Action::CheckPresent,
            Stage::Fetching => Action::FetchInfo,
            Stage::CreatingDir => Action::CreateDir,
            Stage::Downloading => Action::Download,
            Stage::Remuxing => Action::Remux,
            Stage::RemovingTemp => Action::RemoveTemp,
            Stage::SettingTime => Action::SetModified,
            Stage::Finished(_) => Action::Stop,
        }
    }

    /// How the workflow ended, once it has.
    pub fn outcome(&self) -> (r: Option<Outcome>)
        ensures
            match self.stage {
                Stage::Finished(o) => r == Some(o),
                _ => r is None,
            },
    {
        match self.stage {
            Stage::Finished(o) => Some(o),
            _ => None,
        }
    }

    /// Whether a file of this post is present: if so the post is skipped.
    pub fn on_present(&mut self, present: bool)
        requires
            old(self).wf(),
        ensures
            final(self).wf(),
            final(self).stage == step(old(self).stage, Report::Present(present)),
            final(self).same_post(*old(self)),
    {
        if let Stage::Checking = self.stage {
            if present {
                self.stage = Stage::Finished(Outcome::Skipped);
            } else {
                self.stage = Stage::Fetching;
            }
        }
    }

    /// The metadata, or `None` where the post stayed missing: then the post
    /// is skipped. Metadata of another post abandons the item.
    pub fn on_info(&mut self, info: Option<VideoInfo>)
        requires
            old(self).wf(),
            info is Some ==> info->0.wf(),
        ensures
            final(self).wf(),
            final(self).stage == if old(self).stage is Fetching {
                step(old(self).stage, info_report(info, old(self).id@))
            } else {
                old(self).stage
            },
            final(self).dir@ == old(self).dir@,
            final(self).id@ == old(self).id@,
            final(self).info == if old(self).stage is Fetching && info is Some && info->0.id@
                == old(self).id@ {
                info
            } else {
                old(self).info
            },
    {
        if let Stage::Fetching = self.stage {
            match info {
                Some(i) => {
                    if i.id == self.id {
                        self.info = Some(i);
                        self.stage = Stage::CreatingDir;
                    } else {
                        self.stage = Stage::Finished(Outcome::Failed(ErrorKind::ProtocolMismatch));
                    }
                },
                None => {
                    self.stage = Stage::Finished(Outcome::Skipped);
                },
            }
        }
    }

    /// The metadata protocol has ended: its error abandons the item, and its
    /// metadata, or the lack of it, is taken as `on_info` takes it.
    pub fn on_fetched(&mut self, result: Result<Option<VideoInfo>, ErrorKind>)
        requires
            old(self).wf(),
            result is Ok && result->Ok_0 is Some ==> result->Ok_0->0.wf(),
        ensures
            final(self).wf(),
            final(self).stage == if old(self).stage is Fetching {
                step(old(self).stage, fetched_report(result, old(self).id@))
            } else {
                old(self).stage
            },
            final(self).dir@ == old(self).dir@,
            final(self).id@ == old(self).id@,
            final(self).info == if old(self).stage is Fetching && result is Ok && result->Ok_0
                is Some && result->Ok_0->0.id@ == old(self).id@ {
                result->Ok_0
            } else {
                old(self).info
            },
    {
        if let Stage::Fetching = self.stage {
            match result {
                Ok(info) => {
                    self.on_info(info);
                },
                Err(kind) => {
                    self.on_error(kind);
                },
            }
        }
    }

    /// The file operation that was asked for succeeded.
    pub fn on_done(&mut self)
        requires
            old(self).wf(),
        ensures
            final(self).wf(),
            final(self).stage == step(old(self).stage, Report::Done),
            final(self).same_post(*old(self)),
    {
        match self.stage {
            Stage::CreatingDir => {
                self.stage = Stage::Downloading;
            },
            Stage::Downloading => {
                self.stage = Stage::Remuxing;
            },
            Stage::RemovingTemp => {
                self.stage = Stage::SettingTime;
            },
            Stage::SettingTime => {
                self.stage = Stage::Finished(Outcome::Completed);
            },
            _ => {},
        }
    }

    /// The remux tool ended with `status`.
    pub fn on_remuxed(&mut self, status: Option<i32>)
        requires
            old(self).wf(),
        ensures
            final(self).wf(),
            final(self).stage == step(old(self).stage, Report::Remuxed(status)),
            final(self).same_post(*old(self)),
    {
        if let Stage::Remuxing = self.stage {
            match status {
                Some(0) => {
                    self.stage = Stage::RemovingTemp;
                },
                _ => {
                    self.stage = Stage::Finished(Outcome::Failed(ErrorKind::RemuxFailure));
                },
            }
        }
    }

    /// The step that was asked for failed: the post is abandoned.
    pub fn on_error(&mut self, kind: ErrorKind)
        requires
            old(self).wf(),
        ensures
            final(self).wf(),
            final(self).stage == step(old(self).stage, Report::Error(kind)),
            final(self).same_post(*old(self)),
    {
        match self.stage {
            Stage::Finished(_) => {},
            _ => {
                self.stage = Stage::Finished(Outcome::Failed(kind));
            },
        }
    }

    /// The glob that finds an earlier download of this post.
    pub fn dedup_pattern(&self) -> (r: String)
        ensures
            r@ == dedup_pattern_spec(self.dir@, self.id@),
    {
        dedup_pattern(self.dir.as_str(), self.id.as_str())
    }

    /// The name of the final file, once the metadata is known. In a valid
    /// workflow it holds the id that `dedup_pattern` looks for.
    pub fn final_name(&self) -> (r: Option<String>)
        ensures
            match self.info {
                Some(info) => r is Some && r->0@ == final_name_spec(
                    info.date@,
                    info.id@,
                    info.author@,
                ),
                None => r is None,
            },
            self.wf() && self.info is Some ==> r->0@ == final_name_spec(
                self.info->0.date@,
                self.id@,
                self.info->0.author@,
            ),
    {
        match &self.info {
            Some(info) => Some(
                final_name(info.date.as_str(), info.id.as_str(), info.author.as_str()),
            ),
            None => None,
        }
    }

    /// The name of the temporary file, once the metadata is known.
    pub fn temp_name(&self) -> (r: Option<String>)
        ensures
            match self.info {
                Some(info) => r is Some && r->0@ == temp_name_spec(
                    final_name_spec(info.date@, info.id@, info.author@),
                ),
                None => r is None,
            },
    {
        match self.final_name() {
            Some(name) => Some(temp_name(name.as_str())),
            None => None,
        }
    }

    /// The address to download from, once the metadata is known.
    pub fn download_url(&self) -> (r: Option<String>)
        ensures
            match self.info {
                Some(info) => r is Some && r->0@ == info.download_url@,
                None => r is None,
            },
    {
        match &self.info {
            Some(info) => Some(info.download_url.clone()),
            None => None,
        }
    }

    /// The modification time of the final file: the post's creation time, in
    /// seconds since the epoch and nanoseconds within the second.
    pub fn modified_time(&self) -> (r: Option<(i64, u32)>)
        ensures
            match self.info {
                Some(info) => r == Some(
                    (info.created_at.unix_seconds, info.created_at.nanosecond),
                ),
                None => r is None,
            },
    {
        match &self.info {
            Some(info) => Some((info.created_at.unix_seconds, info.created_at.nanosecond)),
            None => None,
        }
    }
}

/// The final file of a valid workflow, placed in its directory, has the
/// shape of the glob by which the same workflow looks for an earlier
/// download: both hold the one id of the post.
pub proof fn lemma_own_file_fits_own_glob(workflow: Workflow)
    requires
        workflow.wf(),
        workflow.info is Some,
    ensures
        dedup_pattern_spec(workflow.dir@, workflow.id@) == path_shape(
            workflow.dir@,
            workflow.id@,
            "[0-9]*"@,
            "*"@,
        ),
        workflow.dir@ + "/"@ + final_name_spec(
            workflow.info->0.date@,
            workflow.info->0.id@,
            workflow.info->0.author@,
        ) == path_shape(
            workflow.dir@,
            workflow.id@,
            workflow.info->0.date@,
            workflow.info->0.author@,
        ),
{
    lemma_final_name_fits_glob(
        workflow.dir@,
        workflow.id@,
        workflow.info->0.date@,
        workflow.info->0.author@,
    );
}

} // verus!

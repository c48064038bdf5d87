//! Archive transport: what to download where, how to unpack it, and what
//! to clean up afterwards. The host moves the bytes.

use crate::config::{Config, ConfigView, join_path, path_join, resolved};
use crate::engine::{Reply, ReplyView, Request, RequestView};
use crate::error::{Failure, FailureView, outcome_view};
use crate::text::{
    chars_of, ends_with, has_suffix, last_segment, last_segment_of, parts_view, same_chars, segments,
    split,
};
use vstd::prelude::*;

verus! {

/// How a downloaded file is made into the task's payload.
#[derive(Debug, Clone, Copy, PartialEq, Eq, Structural)]
pub enum ArtifactKind {
    /// A zip archive: every entry is extracted.
    Zip,
    /// A gzipped tar archive: unpacked in one pass.
    TarGz,
    /// A configuration file: copied as it is, and the payload is the copy.
    Config,
    /// Anything else: copied as it is.
    Plain,
}

/// The handling that a file name's suffix selects.
pub open spec fn artifact_kind(name: Seq<char>) -> ArtifactKind {
    if ends_with(name, ".conf"@) {
        ArtifactKind::Config
    } else if ends_with(name, ".zip"@) {
        ArtifactKind::Zip
    } else if ends_with(name, ".tar.gz"@) || ends_with(name, ".tgz"@) {
        ArtifactKind::TarGz
    } else {
        ArtifactKind::Plain
    }
}

/// Selects the handling of a downloaded file by the suffix of its name.
pub fn extract_archive(file_name: &str) -> (r: ArtifactKind)
    ensures
        r == artifact_kind(file_name@),
{
    if has_suffix(file_name, ".conf") {
        ArtifactKind::Config
    } else if has_suffix(file_name, ".zip") {
        ArtifactKind::Zip
    } else if has_suffix(file_name, ".tar.gz") || has_suffix(file_name, ".tgz") {
        ArtifactKind::TarGz
    } else {
        ArtifactKind::Plain
    }
}

/// The file name that a URL ends with: what follows its last slash.
pub open spec fn file_name_of(url: Seq<char>) -> Seq<char> {
    last_segment(url, '/')
}

/// Where the download of `url` into `dir` is written, or why the URL is
/// no source: it ends with no file name.
pub open spec fn download_target(url: Seq<char>, dir: Seq<char>) -> Result<Seq<char>, FailureView> {
    if file_name_of(url).len() == 0 {
        Err(FailureView::InvalidSource { url })
    } else {
        Ok(path_join(dir, file_name_of(url)))
    }
}

/// Where the download of `url` into `dir` is written.
pub fn download_file(url: &str, dir: &str) -> (r: Result<String, Failure>)
    ensures
        crate::executor::resolution_view(r) == download_target(url@, dir@),
{
    let name = last_segment_of(url, '/');
    if name.unicode_len() == 0 {
        Err(Failure::InvalidSource { url: url.to_string() })
    } else {
        Ok(join_path(dir, name))
    }
}

/// Where the download of a configuration file from `url` into `dir` is
/// written.
pub fn download_config_file(url: &str, dir: &str) -> (r: Result<String, Failure>)
    ensures
        crate::executor::resolution_view(r) == download_target(url@, dir@),
{
    download_file(url, dir)
}

/// What an HTTP status means for a download: a failure unless it lies in
/// the 2xx range.
pub open spec fn status_outcome(status: u16) -> Result<(), FailureView> {
    if 200 <= status <= 299 {
        Ok(())
    } else {
        Err(FailureView::Transport { status: Some(status), cause: "HTTP error"@ })
    }
}

/// Reads the HTTP status of a download.
pub fn check_status(status: u16) -> (r: Result<(), Failure>)
    ensures
        outcome_view(r) == status_outcome(status),
{
    if 200 <= status && status <= 299 {
        Ok(())
    } else {
        Err(Failure::Transport { status: Some(status), cause: "HTTP error".to_string() })
    }
}

/// One piece of the host's work on files.
#[derive(Debug)]
pub enum Action {
    /// Create the directory and its parents unless they exist.
    EnsureDir { path: String },
    /// Download `url` to the file `to` with one GET, within `timeout`
    /// seconds.
    Download { url: String, to: String, timeout: u64 },
    /// Extract every entry of the zip archive into the directory.
    ExtractZip { archive: String, into: String },
    /// Decompress and unpack the tar archive into the directory.
    ExtractTarGz { archive: String, into: String },
    /// Copy the file.
    Copy { from: String, to: String },
    /// Remove the file if it exists.
    RemoveFile { path: String },
    /// Remove the directory if it exists and is empty.
    RemoveDirIfEmpty { path: String },
}

/// An action as plain values.
pub enum ActionView {
    EnsureDir { path: Seq<char> },
    Download { url: Seq<char>, to: Seq<char>, timeout: u64 },
    ExtractZip { archive: Seq<char>, into: Seq<char> },
    ExtractTarGz { archive: Seq<char>, into: Seq<char> },
    Copy { from: Seq<char>, to: Seq<char> },
    RemoveFile { path: Seq<char> },
    RemoveDirIfEmpty { path: Seq<char> },
}

impl View for Action {
    type V = ActionView;

    open spec fn view(&self) -> ActionView {
        match self {
            Action::EnsureDir { path } => ActionView::EnsureDir { path: path@ },
            Action::Download { url, to, timeout } => ActionView::Download {
                url: url@,
                to: to@,
                timeout: *timeout,
            },
            Action::ExtractZip { archive, into } => ActionView::ExtractZip {
                archive: archive@,
                into: into@,
            },
            Action::ExtractTarGz { archive, into } => ActionView::ExtractTarGz {
                archive: archive@,
                into: into@,
            },
            Action::Copy { from, to } => ActionView::Copy { from: from@, to: to@ },
            Action::RemoveFile { path } => ActionView::RemoveFile { path: path@ },
            Action::RemoveDirIfEmpty { path } => ActionView::RemoveDirIfEmpty { path: path@ },
        }
    }
}

/// A step of a plan: an action, and whether its failure fails the plan.
#[derive(Debug)]
pub struct Step {
    pub action: Action,
    pub required: bool,
}

/// A step as plain values.
pub struct StepView {
    pub action: ActionView,
    pub required: bool,
}

impl View for Step {
    type V = StepView;

    open spec fn view(&self) -> StepView {
        StepView { action: self.action@, required: self.required }
    }
}

impl DeepView for Step {
    type V = StepView;

    open spec fn deep_view(&self) -> StepView {
        self@
    }
}

/// The steps that make a payload local, and where the payload then lies.
#[derive(Debug)]
pub struct FetchPlan {
    pub steps: Vec<Step>,
    pub local_path: String,
}

/// A plan as plain values.
pub struct FetchPlanView {
    pub steps: Seq<StepView>,
    pub local_path: Seq<char>,
}

impl View for FetchPlan {
    type V = FetchPlanView;

    open spec fn view(&self) -> FetchPlanView {
        FetchPlanView { steps: self.steps.deep_view(), local_path: self.local_path@ }
    }
}

/// The step that makes the downloaded `file`, called `name`, into the
/// payload below `dest`.
pub open spec fn materialize(file: Seq<char>, name: Seq<char>, dest: Seq<char>) -> ActionView {
    match artifact_kind(name) {
        ArtifactKind::Zip => ActionView::ExtractZip { archive: file, into: dest },
        ArtifactKind::TarGz => ActionView::ExtractTarGz { archive: file, into: dest },
        _ => ActionView::Copy { from: file, to: path_join(dest, name) },
    }
}

/// The plan that fetches `url` into `dest`: the file is downloaded into a
/// holding directory below `dest`, made into the payload, and removed with
/// its holding directory. Only the removals may fail without failing the
/// plan. The payload is the copy of a configuration file, and `dest` for
/// anything else.
pub open spec fn fetch_plan(url: Seq<char>, dest: Seq<char>, timeout: u64) -> Result<
    FetchPlanView,
    FailureView,
> {
    let name = file_name_of(url);
    let temp = path_join(dest, "temp"@);
    let file = path_join(temp, name);
    if name.len() == 0 {
        Err(FailureView::InvalidSource { url })
    } else {
        Ok(
            FetchPlanView {
                steps: seq![
                    StepView { action: ActionView::EnsureDir { path: temp }, required: true },
                    StepView {
                        action: ActionView::Download { url, to: file, timeout },
                        required: true,
                    },
                    StepView { action: materialize(file, name, dest), required: true },
                    StepView { action: ActionView::RemoveFile { path: file }, required: false },
                    StepView {
                        action: ActionView::RemoveDirIfEmpty { path: temp },
                        required: false,
                    },
                ],
                local_path: if artifact_kind(name) == ArtifactKind::Config {
                    path_join(dest, name)
                } else {
                    dest
                },
            },
        )
    }
}

/// The view of a plan or a failure.
pub open spec fn fetch_view(r: Result<FetchPlan, Failure>) -> Result<FetchPlanView, FailureView> {
    match r {
        Ok(p) => Ok(p@),
        Err(f) => Err(f@),
    }
}

/// Plans the fetch of `url` into `extract_dir`.
pub fn download_and_extract(url: &str, extract_dir: &str, timeout_secs: u64) -> (r: Result<
    FetchPlan,
    Failure,
>)
    ensures
        fetch_view(r) == fetch_plan(url@, extract_dir@, timeout_secs),
{
    let name = last_segment_of(url, '/');
    if name.unicode_len() == 0 {
        return Err(Failure::InvalidSource { url: url.to_string() });
    }
    let temp = join_path(extract_dir, "temp");
    let file = join_path(temp.as_str(), name);
    let kind = extract_archive(name);
    let target = join_path(extract_dir, name);
    let unpack = match kind {
        ArtifactKind::Zip => Action::ExtractZip {
            archive: file.clone(),
            into: extract_dir.to_string(),
        },
        ArtifactKind::TarGz => Action::ExtractTarGz {
            archive: file.clone(),
            into: extract_dir.to_string(),
        },
        _ => Action::Copy { from: file.clone(), to: target.clone() },
    };
    let mut steps: Vec<Step> = Vec::new();
    steps.push(Step { action: Action::EnsureDir { path: temp.clone() }, required: true });
    steps.push(
        Step {
            action: Action::Download { url: url.to_string(), to: file.clone(), timeout: timeout_secs },
            required: true,
        },
    );
    steps.push(Step { action: unpack, required: true });
    steps.push(Step { action: Action::RemoveFile { path: file }, required: false });
    steps.push(Step { action: Action::RemoveDirIfEmpty { path: temp }, required: false });
    let local_path = match kind {
        ArtifactKind::Config => target,
        _ => extract_dir.to_string(),
    };
    let plan = FetchPlan { steps, local_path };
    assert(plan@.steps =~= fetch_plan(url@, extract_dir@, timeout_secs)->Ok_0.steps);
    Ok(plan)
}

/// What the failure of a step means for its plan: nothing where the step
/// is not required.
pub open spec fn step_outcome(step: StepView, result: Result<(), FailureView>) -> Result<
    (),
    FailureView,
> {
    if step.required {
        result
    } else {
        Ok(())
    }
}

/// Judges the result of a step: the plan goes on after `Ok` and fails with
/// the failure after `Err`.
pub fn after_step(step: &Step, result: Result<(), Failure>) -> (r: Result<(), Failure>)
    ensures
        outcome_view(r) == step_outcome(step@, outcome_view(result)),
{
    if step.required {
        result
    } else {
        Ok(())
    }
}

/// What is done with one entry of a zip archive.
#[derive(Debug)]
pub enum EntryPlan {
    /// Create the directory and its parents.
    MakeDir { path: String },
    /// Create the directory the file lies in, write the file, and make it
    /// executable where `executable` holds: read and run by all, written
    /// by its owner.
    WriteFile { path: String, executable: bool },
}

/// An entry's plan as plain values.
pub enum EntryPlanView {
    MakeDir { path: Seq<char> },
    WriteFile { path: Seq<char>, executable: bool },
}

impl View for EntryPlan {
    type V = EntryPlanView;

    open spec fn view(&self) -> EntryPlanView {
        match self {
            EntryPlan::MakeDir { path } => EntryPlanView::MakeDir { path: path@ },
            EntryPlan::WriteFile { path, executable } => EntryPlanView::WriteFile {
                path: path@,
                executable: *executable,
            },
        }
    }
}

/// How deep below its start a path lies after the parts from `k` on, seen
/// from the depth `depth`: a part `..` climbs one level, and there is no
/// depth where it would climb above the start; an empty part and a part
/// `.` stay; any other part descends one level.
pub open spec fn depth_from(parts: Seq<Seq<char>>, k: nat, depth: nat) -> Option<nat>
    decreases parts.len() - k,
{
    if k >= parts.len() {
        Some(depth)
    } else if parts[k as int] == ".."@ {
        if depth == 0 {
            None
        } else {
            depth_from(parts, k + 1, (depth - 1) as nat)
        }
    } else if parts[k as int] == "."@ || parts[k as int].len() == 0 {
        depth_from(parts, k + 1, depth)
    } else {
        depth_from(parts, k + 1, depth + 1)
    }
}

/// Whether the name of an archive entry stays inside the directory it is
/// extracted into: it holds no NUL, does not start at the root, and at no
/// point climbs above where it starts.
pub open spec fn is_enclosed(name: Seq<char>) -> bool {
    &&& !name.contains('\0')
    &&& !(name.len() > 0 && name[0] == '/')
    &&& depth_from(segments(name, '/'), 0, 0) is Some
}

/// Tests whether the name of an archive entry stays inside the directory
/// it is extracted into.
pub fn enclosed_name(name: &str) -> (r: bool)
    ensures
        r == is_enclosed(name@),
{
    let v = chars_of(name);
    let mut i: usize = 0;
    while i < v.len()
        invariant
            i <= v.len(),
            v@ == name@,
            forall|k: int| 0 <= k < i ==> v@[k] != '\0',
        decreases v.len() - i,
    {
        if v[i] == '\0' {
            assert(name@.contains('\0'));
            return false;
        }
        i = i + 1;
    }
    if v.len() > 0 && v[0] == '/' {
        return false;
    }
    let parts = split(name, '/');
    let up = chars_of("..");
    let here = chars_of(".");
    let mut depth: usize = 0;
    let mut k: usize = 0;
    while k < parts.len()
        invariant
            k <= parts.len(),
            depth <= k,
            up@ == ".."@,
            here@ == "."@,
            parts_view(parts) == segments(name@, '/'),
            depth_from(parts_view(parts), 0, 0) == depth_from(
                parts_view(parts),
                k as nat,
                depth as nat,
            ),
        decreases parts.len() - k,
    {
        let part = &parts[k];
        assert(parts_view(parts)[k as int] == part@);
        assert(part@.subrange(0, part@.len() as int) =~= part@);
        if same_chars(part, 0, part.len(), &up) {
            if depth == 0 {
                return false;
            }
            depth = depth - 1;
        } else if part.len() == 0 || same_chars(part, 0, part.len(), &here) {
        } else {
            depth = depth + 1;
        }
        k = k + 1;
    }
    true
}

/// What is done with a zip entry called `name`: an entry whose name does
/// not stay inside the destination fails the extraction; a directory is
/// created; a file is written below `dest`, and made executable where its
/// name ends in `.sh`.
pub open spec fn entry_plan(dest: Seq<char>, name: Seq<char>, is_dir: bool) -> Result<
    EntryPlanView,
    FailureView,
> {
    if !is_enclosed(name) {
        Err(FailureView::Extract { detail: "Invalid file path in ZIP"@ })
    } else {
        let path = path_join(dest, name);
        if is_dir {
            Ok(EntryPlanView::MakeDir { path })
        } else {
            Ok(EntryPlanView::WriteFile { path, executable: ends_with(path, ".sh"@) })
        }
    }
}

/// The view of an entry's plan or a failure.
pub open spec fn entry_view(r: Result<EntryPlan, Failure>) -> Result<EntryPlanView, FailureView> {
    match r {
        Ok(p) => Ok(p@),
        Err(f) => Err(f@),
    }
}

/// Plans the extraction of the zip entry called `name` into `extract_dir`.
pub fn extract_zip(extract_dir: &str, name: &str, is_dir: bool) -> (r: Result<EntryPlan, Failure>)
    ensures
        entry_view(r) == entry_plan(extract_dir@, name@, is_dir),
{
    if !enclosed_name(name) {
        return Err(Failure::Extract { detail: "Invalid file path in ZIP".to_string() });
    }
    let path = join_path(extract_dir, name);
    if is_dir {
        Ok(EntryPlan::MakeDir { path })
    } else {
        let executable = has_suffix(path.as_str(), ".sh");
        Ok(EntryPlan::WriteFile { path, executable })
    }
}

/// The download of stack sources, between two steps: the source at `pos`
/// is at work.
#[derive(Debug)]
pub struct SourcesRun {
    pub pos: usize,
    pub fetching: bool,
}

/// What a step of the download of stack sources comes to.
#[derive(Debug)]
pub enum SourcesProgress {
    /// The host is asked for work; its reply continues the run.
    Ask(SourcesRun, Request),
    /// The run is over.
    Finished(Result<(), Failure>),
}

/// A sources run's progress as plain values.
pub enum SourcesProgressView {
    Ask(SourcesRun, RequestView),
    Finished(Result<(), FailureView>),
}

impl View for SourcesProgress {
    type V = SourcesProgressView;

    open spec fn view(&self) -> SourcesProgressView {
        match self {
            SourcesProgress::Ask(run, request) => SourcesProgressView::Ask(*run, request@),
            SourcesProgress::Finished(outcome) => SourcesProgressView::Finished(
                outcome_view(*outcome),
            ),
        }
    }
}

/// The step at the source at `pos`: the host is asked whether the file
/// that the source ends with lies among the stacks already; after the last
/// source the run ends well.
pub open spec fn sources_scan(c: ConfigView, pos: nat) -> SourcesProgressView {
    if pos >= c.stack_sources.len() {
        SourcesProgressView::Finished(Ok(()))
    } else {
        SourcesProgressView::Ask(
            SourcesRun { pos: pos as usize, fetching: false },
            RequestView::Exists {
                path: resolved(c, file_name_of(c.stack_sources[pos as int]), "stacks"@),
            },
        )
    }
}

/// One step of the download of stack sources: a file that is there is not
/// downloaded again; one that is not is fetched into the stacks directory;
/// a failure ends the run.
pub open spec fn sources_step(c: ConfigView, run: SourcesRun, reply: ReplyView) -> SourcesProgressView {
    if run.pos >= c.stack_sources.len() {
        SourcesProgressView::Finished(Err(FailureView::Unexpected))
    } else {
        match reply {
            ReplyView::Failed(f) => SourcesProgressView::Finished(Err(f)),
            ReplyView::Exists(found) => if run.fetching {
                SourcesProgressView::Finished(Err(FailureView::Unexpected))
            } else if found {
                sources_scan(c, (run.pos + 1) as nat)
            } else {
                SourcesProgressView::Ask(
                    SourcesRun { pos: run.pos, fetching: true },
                    RequestView::Fetch {
                        url: c.stack_sources[run.pos as int],
                        dest: c.stacks_dir,
                        timeout: c.download_timeout,
                    },
                )
            },
            ReplyView::Fetched(_) => if run.fetching {
                sources_scan(c, (run.pos + 1) as nat)
            } else {
                SourcesProgressView::Finished(Err(FailureView::Unexpected))
            },
            _ => SourcesProgressView::Finished(Err(FailureView::Unexpected)),
        }
    }
}

/// The step at the source at `pos`.
fn scan_sources(config: &Config, pos: usize) -> (r: SourcesProgress)
    ensures
        r@ == sources_scan(config@, pos as nat),
{
    if pos >= config.stack_sources.len() {
        SourcesProgress::Finished(Ok(()))
    } else {
        let name = last_segment_of(config.stack_sources[pos].as_str(), '/');
        SourcesProgress::Ask(
            SourcesRun { pos, fetching: false },
            Request::Exists { path: config.resolve_path(name, "stacks") },
        )
    }
}

/// Starts the download of the configured stack sources, in their order.
pub fn download_stacks_from_sources(config: &Config) -> (r: SourcesProgress)
    ensures
        r@ == sources_scan(config@, 0),
{
    scan_sources(config, 0)
}

/// Takes the host's reply to the request of `run` and makes the next step
/// of the download of stack sources.
pub fn resume_sources(config: &Config, run: SourcesRun, reply: Reply) -> (r: SourcesProgress)
    ensures
        r@ == sources_step(config@, run, reply@),
{
    if run.pos >= config.stack_sources.len() {
        return SourcesProgress::Finished(Err(Failure::Unexpected));
    }
    match reply {
        Reply::Failed(f) => SourcesProgress::Finished(Err(f)),
        Reply::Exists(found) => {
            if run.fetching {
                SourcesProgress::Finished(Err(Failure::Unexpected))
            } else if found {
                scan_sources(config, run.pos + 1)
            } else {
                SourcesProgress::Ask(
                    SourcesRun { pos: run.pos, fetching: true },
                    Request::Fetch {
                        url: config.stack_sources[run.pos].clone(),
                        dest: config.stacks_dir.clone(),
                        timeout: config.download_timeout,
                    },
                )
            }
        },
        Reply::Fetched(_) => {
            if run.fetching {
                scan_sources(config, run.pos + 1)
            } else {
                SourcesProgress::Finished(Err(Failure::Unexpected))
            }
        },
        _ => SourcesProgress::Finished(Err(Failure::Unexpected)),
    }
}

} // verus!

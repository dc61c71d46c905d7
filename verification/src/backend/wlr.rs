use vstd::prelude::*;

use crate::converter::{ArgView, CommandArg, arg_views, text};
use crate::error::Error;
use crate::region::{Region, wf_recorder_text};
use crate::text::{dec, push_decimal};
use super::found_on_path;

verus! {

broadcast use vstd::string::group_string_axioms;

/// The wlroots backend: slurp selects, wf-recorder records.
#[derive(Debug, Clone, Copy)]
pub struct WlrBackend;

/// The programs that the wlroots backend runs, in the order they are looked
/// for.
pub open spec fn wlr_dependencies() -> Seq<Seq<char>> {
    seq!["slurp"@, "wf-recorder"@, "ffmpeg"@]
}

impl WlrBackend {
    /// The wlroots backend.
    pub fn new() -> Self {
        WlrBackend
    }

    /// Backend name.
    pub fn name(&self) -> (n: &'static str)
        ensures
            n@ == "wlroots"@,
    {
        "wlroots"
    }

    /// Check if this backend is available: each of its programs, in order,
    /// must be on the `PATH`; the first that is not is reported. The names
    /// looked up are `wlr_dependency_names()`, and `first_missing` decides.
    pub fn is_available(&self) -> (r: Result<(), Error>)
        ensures
            r matches Err(e) ==> (e matches Error::MissingDependency { dep }
                && wlr_dependencies().contains(dep@)),
    {
        let names = wlr_dependency_names();
        let slurp = found_on_path(names[0]);
        let recorder = found_on_path(names[1]);
        let ffmpeg = found_on_path(names[2]);
        let r = first_missing((slurp, recorder, ffmpeg));
        proof {
            if r is Err {
                assert(wlr_dependencies()[0] == "slurp"@);
                assert(wlr_dependencies()[1] == "wf-recorder"@);
                assert(wlr_dependencies()[2] == "ffmpeg"@);
            }
        }
        r
    }
}

/// The names of the wlroots backend's programs, in the order they are looked
/// for.
pub fn wlr_dependency_names() -> (names: Vec<&'static str>)
    ensures
        names@.len() == 3,
        names@.map_values(|n: &'static str| n@) == wlr_dependencies(),
{
    let names = vec!["slurp", "wf-recorder", "ffmpeg"];
    assert(names@.map_values(|n: &'static str| n@) =~= wlr_dependencies());
    names
}

/// Which program, if any, the wlroots backend misses: `found` tells for
/// slurp, wf-recorder and ffmpeg, in that order, whether it is on the `PATH`.
/// All found is `Ok`; else the first missing one is reported.
pub fn first_missing(found: (bool, bool, bool)) -> (r: Result<(), Error>)
    ensures
        found.0 && found.1 && found.2 ==> r is Ok,
        !found.0 ==> (r matches Err(Error::MissingDependency { dep }) && dep@
            == wlr_dependencies()[0]),
        found.0 && !found.1 ==> (r matches Err(Error::MissingDependency { dep }) && dep@
            == wlr_dependencies()[1]),
        found.0 && found.1 && !found.2 ==> (r matches Err(Error::MissingDependency { dep }) && dep@
            == wlr_dependencies()[2]),
{
    if !found.0 {
        Err(Error::MissingDependency { dep: "slurp" })
    } else if !found.1 {
        Err(Error::MissingDependency { dep: "wf-recorder" })
    } else if !found.2 {
        Err(Error::MissingDependency { dep: "ffmpeg" })
    } else {
        Ok(())
    }
}

/// The arguments of wf-recorder: the region (when there is one), the frame
/// rate, a lossless-RGB H.264 encoder at CRF 18, and the output file.
pub open spec fn wf_recorder_arg_views(region: Option<Region>, fps: u32) -> Seq<ArgView> {
    let region_args = match region {
        Some(r) => seq![ArgView::Text("-g"@), ArgView::Text(wf_recorder_text(r))],
        None => Seq::<ArgView>::empty(),
    };
    region_args + seq![
        ArgView::Text("-r"@),
        ArgView::Text(dec(fps as nat)),
        ArgView::Text("-c"@),
        ArgView::Text("libx264rgb"@),
        ArgView::Text("-p"@),
        ArgView::Text("crf=18"@),
        ArgView::Text("-f"@),
        ArgView::OutputFile,
    ]
}

/// The arguments that wf-recorder is started with.
pub fn wf_recorder_args(region: Option<Region>, fps: u32) -> (args: Vec<CommandArg>)
    ensures
        arg_views(args@) == wf_recorder_arg_views(region, fps),
{
    let mut args: Vec<CommandArg> = Vec::new();
    if let Some(r) = region {
        args.push(text("-g"));
        args.push(CommandArg::Text(r.to_wf_recorder_arg()));
    }
    let ghost front = args@;
    let mut rate = String::new();
    push_decimal(&mut rate, fps as u64);
    let rest = vec![
        text("-r"),
        CommandArg::Text(rate),
        text("-c"),
        text("libx264rgb"),
        text("-p"),
        text("crf=18"),
        text("-f"),
        CommandArg::OutputFile,
    ];
    let ghost back = rest@;
    let mut rest = rest;
    args.append(&mut rest);
    assert(args@ =~= front + back);
    assert(arg_views(args@) =~= wf_recorder_arg_views(region, fps));
    args
}

/// What the recording loop does next.
#[derive(Debug, Clone, Copy, PartialEq, Eq)]
pub enum PollAction {
    /// Wait one poll interval, then poll again.
    Wait,
    /// Stop the recorder with SIGINT and wait for it to exit.
    Interrupt,
    /// The recorder exited successfully by itself: the recording is done.
    Finished,
    /// The recorder exited unsuccessfully by itself: the recording failed.
    Failed,
}

/// The polling loop of a recording: it polls at most `max_polls` times.
pub struct RecordLoop {
    pub polls: u64,
    pub max_polls: u64,
}

impl RecordLoop {
    /// A loop that has not polled yet.
    pub fn new(max_polls: u64) -> (l: RecordLoop)
        ensures
            l.polls == 0,
            l.max_polls == max_polls,
    {
        RecordLoop { polls: 0, max_polls }
    }

    /// One poll: when the polls are used up or a stop was requested, stop the
    /// recorder; when it has exited, report how; else wait and count the poll.
    /// `exited` is the recorder's exit (its success) if it has exited.
    pub fn step(&mut self, stop_requested: bool, exited: Option<bool>) -> (a: PollAction)
        ensures
            final(self).max_polls == old(self).max_polls,
            old(self).polls >= old(self).max_polls ==> a == PollAction::Interrupt,
            old(self).polls < old(self).max_polls ==> a == (if stop_requested {
                PollAction::Interrupt
            } else {
                match exited {
                    Some(true) => PollAction::Finished,
                    Some(false) => PollAction::Failed,
                    None => PollAction::Wait,
                }
            }),
            final(self).polls == (if a == PollAction::Wait {
                old(self).polls + 1
            } else {
                old(self).polls as int
            }),
    {
        if self.polls >= self.max_polls || stop_requested {
            return PollAction::Interrupt;
        }
        match exited {
            Some(true) => PollAction::Finished,
            Some(false) => PollAction::Failed,
            None => {
                self.polls = self.polls + 1;
                PollAction::Wait
            },
        }
    }
}

/// After the recorder was interrupted and has exited: whether the recording
/// counts as done. SIGINT makes the recorder exit unsuccessfully, which is
/// expected, except in a manual recording (no duration) that no stop request
/// ended.
pub open spec fn shutdown_ok(exit_success: bool, stop_requested: bool, manual: bool) -> bool {
    exit_success || stop_requested || !manual
}

/// A stopped recording is kept however the interrupted recorder exited, and
/// so is a successful exit and any timed recording; only a manual recording
/// whose recorder failed with no stop requested is refused.
pub proof fn lemma_shutdown_acceptance(exit_success: bool, stop_requested: bool, manual: bool)
    ensures
        stop_requested ==> shutdown_ok(exit_success, stop_requested, manual),
        exit_success ==> shutdown_ok(exit_success, stop_requested, manual),
        !manual ==> shutdown_ok(exit_success, stop_requested, manual),
        manual && !stop_requested && !exit_success ==> !shutdown_ok(
            exit_success,
            stop_requested,
            manual,
        ),
{
}

/// Executable form of `shutdown_ok`.
pub fn shutdown_outcome(exit_success: bool, stop_requested: bool, manual: bool) -> (ok: bool)
    ensures
        ok == shutdown_ok(exit_success, stop_requested, manual),
        stop_requested ==> ok,
        exit_success ==> ok,
        !manual ==> ok,
        manual && !stop_requested && !exit_success ==> !ok,
{
    proof {
        lemma_shutdown_acceptance(exit_success, stop_requested, manual);
    }
    !(!exit_success && !stop_requested && manual)
}

/// The error when the recorder exited unsuccessfully by itself; `status` is
/// how its exit status is shown.
pub fn exited_error(status: &str) -> (e: Error)
    ensures
        e matches Error::Recording(m) && m@ == "wf-recorder exited: "@ + status@,
{
    let mut m = String::from_str("wf-recorder exited: ");
    m.append(status);
    Error::Recording(m)
}

/// The error when an interrupted manual recording exited unsuccessfully.
pub fn unexpected_exit_error(status: &str) -> (e: Error)
    ensures
        e matches Error::Recording(m) && m@ == "unexpected exit: "@ + status@,
{
    let mut m = String::from_str("unexpected exit: ");
    m.append(status);
    Error::Recording(m)
}

} // verus!

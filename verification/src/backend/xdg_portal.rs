use vstd::prelude::*;

use crate::error::Error;
use crate::text::{dec, lemma_parse_dec, parse_u32, push_char, push_decimal};
use super::found_on_path;

verus! {

broadcast use vstd::string::group_string_axioms;

/// The XDG desktop portal backend: the portal selects and grants a PipeWire
/// stream, GStreamer records it.
#[derive(Debug, Clone, Copy)]
pub struct XDGPortalBackend;

/// The decimal text of a signed number.
pub open spec fn int_text(i: int) -> Seq<char> {
    if i < 0 {
        seq!['-'] + dec((-i) as nat)
    } else {
        dec(i as nat)
    }
}

/// Appends the decimal text of `i` to `s`.
fn push_int(s: &mut String, i: i32)
    ensures
        final(s)@ == old(s)@ + int_text(i as int),
{
    if i < 0 {
        push_char(s, '-');
        let magnitude = (-(i as i64)) as u64;
        push_decimal(s, magnitude);
        assert(final(s)@ =~= old(s)@ + int_text(i as int));
    } else {
        push_decimal(s, i as u64);
    }
}

/// The GStreamer pipeline that records PipeWire node `node_id`, reached
/// through the portal's file descriptor `fd`, at `fps` frames per second as
/// H.264 in MP4 to `output`.
pub open spec fn pipeline_text(fd: i32, node_id: u32, fps: u32, output: Seq<char>) -> Seq<char> {
    "pipewiresrc fd="@ + int_text(fd as int) + " path="@ + dec(node_id as nat)
        + " do-timestamp=true ! videoconvert ! videorate ! video/x-raw,framerate="@ + dec(
        fps as nat,
    ) + "/1 ! x264enc tune=zerolatency speed-preset=ultrafast ! mp4mux ! filesink location="@
        + output
}

/// The status line shown when recording starts: the node and the stream's
/// size (0 where the portal gave none).
pub open spec fn node_status_text(node_id: u32, size: Option<(i32, i32)>) -> Seq<char> {
    let (w, h) = match size {
        Some(s) => s,
        None => (0i32, 0i32),
    };
    "Recording PipeWire node "@ + dec(node_id as nat) + " ("@ + int_text(w as int) + "x"@
        + int_text(h as int) + ")"@
}

impl XDGPortalBackend {
    /// The portal backend.
    pub fn new() -> Self {
        XDGPortalBackend
    }

    /// Backend name.
    pub fn name(&self) -> (n: &'static str)
        ensures
            n@ == "xdg-desktop-portal"@,
    {
        "xdg-desktop-portal"
    }

    /// Check if this backend is available: ffmpeg must be on the `PATH`, and
    /// GStreamer must have the elements that the pipeline uses
    /// (`plugins_found`, as `gstreamer_ready` decides it). The name looked up
    /// is `portal_dependency_names()`, and `portal_availability` decides.
    pub fn is_available(&self, plugins_found: bool) -> (r: Result<(), Error>)
        ensures
            r matches Err(e) ==> ((e matches Error::MissingDependency { dep } && dep@ == "ffmpeg"@)
                || e matches Error::MissingGSPlugins),
            r matches Err(Error::MissingGSPlugins) ==> !plugins_found,
            !plugins_found ==> r is Err,
    {
        let names = portal_dependency_names();
        let ffmpeg = found_on_path(names[0]);
        portal_availability(ffmpeg, plugins_found)
    }
}

/// The programs that the portal backend runs.
pub open spec fn portal_dependencies() -> Seq<Seq<char>> {
    seq!["ffmpeg"@]
}

/// The names of the portal backend's programs.
pub fn portal_dependency_names() -> (names: Vec<&'static str>)
    ensures
        names@.len() == 1,
        names@.map_values(|n: &'static str| n@) == portal_dependencies(),
{
    let names = vec!["ffmpeg"];
    assert(names@.map_values(|n: &'static str| n@) =~= portal_dependencies());
    names
}

/// Whether the portal backend can record: a missing ffmpeg is reported
/// first, then missing GStreamer elements; with both, `Ok`.
pub fn portal_availability(ffmpeg_found: bool, plugins_found: bool) -> (r: Result<(), Error>)
    ensures
        !ffmpeg_found ==> (r matches Err(Error::MissingDependency { dep }) && dep@
            == portal_dependencies()[0]),
        ffmpeg_found && !plugins_found ==> r matches Err(Error::MissingGSPlugins),
        ffmpeg_found && plugins_found ==> r is Ok,
{
    if !ffmpeg_found {
        return Err(Error::MissingDependency { dep: "ffmpeg" });
    }
    if !plugins_found {
        return Err(Error::MissingGSPlugins);
    }
    Ok(())
}

/// The GStreamer elements whose presence is checked: the PipeWire source,
/// the H.264 encoder and the MP4 muxer.
pub open spec fn gstreamer_elements() -> Seq<Seq<char>> {
    seq!["pipewiresrc"@, "x264enc"@, "mp4mux"@]
}

/// The names of the GStreamer elements to look for.
pub fn gstreamer_element_names() -> (names: Vec<&'static str>)
    ensures
        names@.map_values(|n: &'static str| n@) == gstreamer_elements(),
{
    let names = vec!["pipewiresrc", "x264enc", "mp4mux"];
    assert(names@.map_values(|n: &'static str| n@) =~= gstreamer_elements());
    names
}

/// Whether GStreamer can run the pipeline: it initialized, and each element
/// of `gstreamer_element_names()` was found (`found[i]` for the i-th).
pub fn gstreamer_ready(initialized: bool, found: &Vec<bool>) -> (ready: bool)
    ensures
        ready == (initialized && found@.len() == gstreamer_elements().len() && forall|i: int|
            0 <= i < found@.len() ==> #[trigger] found@[i]),
{
    if !initialized || found.len() != 3 {
        return false;
    }
    for i in 0..found.len()
        invariant
            found@.len() == 3,
            forall|k: int| 0 <= k < i ==> #[trigger] found@[k],
    {
        if !found[i] {
            return false;
        }
    }
    true
}

/// The pipeline's raw-video caps carry the requested frame rate: the text
/// between `video/x-raw,framerate=` and `/1 ! x264enc` reads back as `fps`.
pub open spec fn caps_rate_is(text: Seq<char>, fps: u32) -> bool {
    exists|a: Seq<char>, d: Seq<char>, b: Seq<char>|
        text == #[trigger] around_rate(a, d, b) && parse_u32(d) == Some(fps)
}

/// `d` as the frame rate of the raw-video caps, between `a` and `b`.
pub open spec fn around_rate(a: Seq<char>, d: Seq<char>, b: Seq<char>) -> Seq<char> {
    a + "video/x-raw,framerate="@ + d + "/1 ! x264enc"@ + b
}

/// Whatever the descriptor, node and output, the pipeline records at the
/// requested frame rate.
pub proof fn lemma_pipeline_rate(fd: i32, node_id: u32, fps: u32, output: Seq<char>)
    ensures
        caps_rate_is(pipeline_text(fd, node_id, fps, output), fps),
{
    reveal_strlit(" do-timestamp=true ! videoconvert ! videorate ! video/x-raw,framerate=");
    reveal_strlit(" do-timestamp=true ! videoconvert ! videorate ! ");
    reveal_strlit("video/x-raw,framerate=");
    reveal_strlit("/1 ! x264enc tune=zerolatency speed-preset=ultrafast ! mp4mux ! filesink location=");
    reveal_strlit("/1 ! x264enc");
    reveal_strlit(" tune=zerolatency speed-preset=ultrafast ! mp4mux ! filesink location=");
    let a = "pipewiresrc fd="@ + int_text(fd as int) + " path="@ + dec(node_id as nat)
        + " do-timestamp=true ! videoconvert ! videorate ! "@;
    let d = dec(fps as nat);
    let b = " tune=zerolatency speed-preset=ultrafast ! mp4mux ! filesink location="@ + output;
    assert(" do-timestamp=true ! videoconvert ! videorate ! video/x-raw,framerate="@
        =~= " do-timestamp=true ! videoconvert ! videorate ! "@ + "video/x-raw,framerate="@);
    assert("/1 ! x264enc tune=zerolatency speed-preset=ultrafast ! mp4mux ! filesink location="@
        =~= "/1 ! x264enc"@ + " tune=zerolatency speed-preset=ultrafast ! mp4mux ! filesink location="@);
    assert(pipeline_text(fd, node_id, fps, output) =~= around_rate(a, d, b));
    lemma_parse_dec(fps);
}

/// The GStreamer pipeline description for a portal recording.
pub fn gstreamer_pipeline(fd: i32, node_id: u32, fps: u32, output: &str) -> (p: String)
    ensures
        p@ == pipeline_text(fd, node_id, fps, output@),
        caps_rate_is(p@, fps),
{
    proof {
        lemma_pipeline_rate(fd, node_id, fps, output@);
    }
    let mut p = String::from_str("pipewiresrc fd=");
    push_int(&mut p, fd);
    p.append(" path=");
    push_decimal(&mut p, node_id as u64);
    p.append(" do-timestamp=true ! videoconvert ! videorate ! video/x-raw,framerate=");
    push_decimal(&mut p, fps as u64);
    p.append("/1 ! x264enc tune=zerolatency speed-preset=ultrafast ! mp4mux ! filesink location=");
    p.append(output);
    p
}

/// The status line for the stream being recorded.
pub fn node_status(node_id: u32, size: Option<(i32, i32)>) -> (s: String)
    ensures
        s@ == node_status_text(node_id, size),
{
    let (w, h) = match size {
        Some(s) => s,
        None => (0i32, 0i32),
    };
    let mut s = String::from_str("Recording PipeWire node ");
    push_decimal(&mut s, node_id as u64);
    s.append(" (");
    push_int(&mut s, w);
    s.append("x");
    push_int(&mut s, h);
    s.append(")");
    s
}

/// What the pipeline's bus gave in one poll.
#[derive(Debug, Clone, Copy, PartialEq, Eq)]
pub enum BusMessage {
    /// No message within the poll interval.
    Nothing,
    /// The pipeline reported an error.
    Error,
    /// The stream ended.
    EndOfStream,
    /// Any other message.
    Other,
}

/// What the portal's recording loop does next.
#[derive(Debug, Clone, Copy, PartialEq, Eq)]
pub enum BusAction {
    /// Poll the bus again.
    Poll,
    /// Stop the pipeline and fail the recording.
    Fail,
    /// End the stream and shut the pipeline down: the recording is done.
    Finish,
}

/// The portal's recording loop: it polls the bus at most `max_polls` times.
pub struct BusLoop {
    pub polls: u64,
    pub max_polls: u64,
}

impl BusLoop {
    /// A loop that has not polled yet.
    pub fn new(max_polls: u64) -> (l: BusLoop)
        ensures
            l.polls == 0,
            l.max_polls == max_polls,
    {
        BusLoop { polls: 0, max_polls }
    }

    /// One poll: when the polls are used up or a stop was requested, finish;
    /// an error message fails the recording, the end of the stream finishes
    /// it; anything else counts the poll and polls again. `message` is what
    /// this poll of the bus gave.
    pub fn step(&mut self, stop_requested: bool, message: BusMessage) -> (a: BusAction)
        ensures
            final(self).max_polls == old(self).max_polls,
            old(self).polls >= old(self).max_polls ==> a == BusAction::Finish,
            old(self).polls < old(self).max_polls ==> a == (if stop_requested {
                BusAction::Finish
            } else {
                match message {
                    BusMessage::Error => BusAction::Fail,
                    BusMessage::EndOfStream => BusAction::Finish,
                    _ => BusAction::Poll,
                }
            }),
            final(self).polls == (if a == BusAction::Poll {
                old(self).polls + 1
            } else {
                old(self).polls as int
            }),
    {
        if self.polls >= self.max_polls || stop_requested {
            return BusAction::Finish;
        }
        match message {
            BusMessage::Error => BusAction::Fail,
            BusMessage::EndOfStream => BusAction::Finish,
            _ => {
                self.polls = self.polls + 1;
                BusAction::Poll
            },
        }
    }
}

/// How many times, at most, the bus is polled for the end of the stream
/// after it was requested at shutdown.
pub const EOS_WAIT_POLLS: u32 = 100;

/// Whether to poll for the end of the stream again at shutdown: not once it
/// was seen, and at most `EOS_WAIT_POLLS` times in all.
pub fn keep_waiting_for_eos(polled: u32, eos_seen: bool) -> (more: bool)
    ensures
        more == (!eos_seen && polled < EOS_WAIT_POLLS),
{
    !eos_seen && polled < EOS_WAIT_POLLS
}

/// The error when the pipeline reported one; `detail` is how it is shown.
pub fn gstreamer_error(detail: &str) -> (e: Error)
    ensures
        e matches Error::Recording(m) && m@ == "GStreamer error: "@ + detail@,
{
    let mut m = String::from_str("GStreamer error: ");
    m.append(detail);
    Error::Recording(m)
}

} // verus!

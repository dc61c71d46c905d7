use vstd::prelude::*;

verus! {

/// Domain-specific errors for wlgif operations.
#[derive(Debug)]
pub enum Error {
    /// An external program that the backend runs is not on the `PATH`.
    MissingDependency { dep: &'static str },
    /// The GStreamer elements that the portal backend needs are not installed.
    MissingGSPlugins,
    /// The user dismissed the interactive region selection.
    SelectionCancelled,
    /// A geometry string that is not `WxH+X+Y`; holds the trimmed input.
    InvalidRegion(String),
    /// The recorder failed; holds what went wrong.
    Recording(String),
    /// ffmpeg failed; holds which step.
    Conversion(String),
    /// The recorder wrote no video file.
    EmptyRecording,
}

/// The text that `Error::message` gives for each variant.
pub open spec fn error_message(e: Error) -> Seq<char> {
    match e {
        Error::MissingDependency { dep } => "missing dependency: "@ + dep@,
        Error::MissingGSPlugins => "GStreamer plugins missing"@,
        Error::SelectionCancelled => "region selection cancelled"@,
        Error::InvalidRegion(s) => "invalid region format: "@ + s@
            + "\n  expected: WxH+X+Y (e.g., 800x600+100+100)"@,
        Error::Recording(s) => "recording failed: "@ + s@,
        Error::Conversion(s) => "conversion failed: "@ + s@,
        Error::EmptyRecording => "no video data captured"@,
    }
}

impl Error {
    /// The message shown to the user for this error.
    pub fn message(&self) -> (m: String)
        ensures
            m@ == error_message(*self),
    {
        match self {
            Error::MissingDependency { dep } => {
                let mut m = String::from_str("missing dependency: ");
                m.append(dep);
                m
            },
            Error::MissingGSPlugins => String::from_str("GStreamer plugins missing"),
            Error::SelectionCancelled => String::from_str("region selection cancelled"),
            Error::InvalidRegion(s) => {
                let mut m = String::from_str("invalid region format: ");
                m.append(s.as_str());
                m.append("\n  expected: WxH+X+Y (e.g., 800x600+100+100)");
                m
            },
            Error::Recording(s) => {
                let mut m = String::from_str("recording failed: ");
                m.append(s.as_str());
                m
            },
            Error::Conversion(s) => {
                let mut m = String::from_str("conversion failed: ");
                m.append(s.as_str());
                m
            },
            Error::EmptyRecording => String::from_str("no video data captured"),
        }
    }
}

} // verus!

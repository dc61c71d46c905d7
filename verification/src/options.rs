use vstd::prelude::*;

use crate::error::Error;
use crate::region::{Region, geometry_region};
use crate::backend::BackendKind;
use crate::text::{str_eq, trim};

verus! {

broadcast use vstd::string::group_string_axioms;

/// Why the output path was refused.
#[derive(Debug)]
pub enum OutputError {
    /// The file has an extension other than `gif`; holds it.
    WrongExtension(String),
    /// The file has no extension (or one that is not valid UTF-8).
    NoExtension,
}

/// The message shown for each `OutputError`.
pub open spec fn output_error_message(e: OutputError) -> Seq<char> {
    match e {
        OutputError::WrongExtension(ext) => "output must be a .gif file, got ."@ + ext@,
        OutputError::NoExtension => "output must be a .gif file"@,
    }
}

impl OutputError {
    /// The message shown to the user for this error.
    pub fn message(&self) -> (m: String)
        ensures
            m@ == output_error_message(*self),
    {
        match self {
            OutputError::WrongExtension(ext) => {
                let mut m = String::from_str("output must be a .gif file, got .");
                m.append(ext.as_str());
                m
            },
            OutputError::NoExtension => String::from_str("output must be a .gif file"),
        }
    }
}

/// The output must be a `.gif` file: `extension` is the output path's
/// extension, when it has one that is valid UTF-8.
pub fn validate_output(extension: Option<&str>) -> (r: Result<(), OutputError>)
    ensures
        match extension {
            Some(e) => if e@ == "gif"@ {
                r is Ok
            } else {
                r matches Err(OutputError::WrongExtension(x)) && x@ == e@
            },
            None => r matches Err(OutputError::NoExtension),
        },
{
    match extension {
        Some(e) => if str_eq(e, "gif") {
            Ok(())
        } else {
            Err(OutputError::WrongExtension(String::from_str(e)))
        },
        None => Err(OutputError::NoExtension),
    }
}

/// Where the recorded region comes from.
#[derive(Debug, Clone, Copy)]
pub enum RegionChoice {
    /// The `--geometry` option named it.
    Given(Region),
    /// The portal backend asks the user with its own selection UI.
    FromPortal,
    /// The user selects it with slurp.
    SelectInteractively,
}

/// Which region to record: the geometry given on the command line, else the
/// portal's own selection when the chosen backend is the portal, else an
/// interactive selection.
pub fn get_region(geometry: Option<&str>, backend: BackendKind) -> (r: Result<RegionChoice, Error>)
    ensures
        geometry matches Some(g) ==> match geometry_region(g@) {
            Some(reg) => r matches Ok(RegionChoice::Given(x)) && x == reg,
            None => r matches Err(Error::InvalidRegion(m)) && m@ == trim(g@),
        },
        geometry is None ==> (backend is Portal ==> r matches Ok(RegionChoice::FromPortal)),
        geometry is None ==> (backend is Wlr ==> r matches Ok(RegionChoice::SelectInteractively)),
{
    match geometry {
        Some(g) => match Region::from_geometry(g) {
            Ok(reg) => Ok(RegionChoice::Given(reg)),
            Err(e) => Err(e),
        },
        None => match backend {
            BackendKind::Portal(_) => Ok(RegionChoice::FromPortal),
            BackendKind::Wlr(_) => Ok(RegionChoice::SelectInteractively),
        },
    }
}

} // verus!

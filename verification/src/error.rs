use vstd::prelude::*;

verus! {

/// The errors the pipeline can report. I/O and number-parse failures arrive
/// from the edges as plain messages, so records stay self-contained values.
#[derive(Debug, Clone)]
pub enum Error {
    StaticMsg(&'static str),
    Msg(String),
    Io(String),
    IntParse(String),
}

impl Error {
    /// The human-readable message this error carries.
    pub open spec fn spec_description(&self) -> Seq<char> {
        match self {
            Error::StaticMsg(s) => s@,
            Error::Msg(s) => s@,
            Error::Io(s) => s@,
            Error::IntParse(s) => s@,
        }
    }

    /// A human-readable message for this error.
    pub fn description(&self) -> (r: &str)
        ensures
            r@ == self.spec_description(),
    {
        match self {
            Error::StaticMsg(s) => s,
            Error::Msg(s) => s.as_str(),
            Error::Io(s) => s.as_str(),
            Error::IntParse(s) => s.as_str(),
        }
    }
}

impl From<String> for Error {
    fn from(error: String) -> (r: Self) {
        Error::Msg(error)
    }
}

impl vstd::std_specs::convert::FromSpecImpl<String> for Error {
    open spec fn obeys_from_spec() -> bool {
        true
    }

    open spec fn from_spec(t: String) -> Self {
        Error::Msg(t)
    }
}

} // verus!

use vstd::prelude::*;
use crate::error::Error;
use crate::meta::{Lit, Meta};
use crate::text::{owned, str_eq};

verus! {

/// Where the generated code is dumped.
#[derive(Clone, Debug, PartialEq, Eq)]
pub enum DebugOutput {
    StdOut,
    StdErr,
    /// A file, by its path.
    File(String),
}

impl Default for DebugOutput {
    fn default() -> (r: DebugOutput)
        ensures
            r == DebugOutput::StdOut,
    {
        DebugOutput::StdOut
    }
}

/// The `debug` option of a macro.
#[derive(Clone, Debug, PartialEq, Eq)]
pub struct Debug {
    pub debug: DebugOutput,
}

impl Default for Debug {
    fn default() -> (r: Debug)
        ensures
            r.debug == DebugOutput::StdOut,
    {
        Debug { debug: DebugOutput::StdOut }
    }
}

impl From<DebugOutput> for Debug {
    fn from(debug: DebugOutput) -> (r: Debug)
        ensures
            r.debug == debug,
    {
        Debug { debug }
    }
}

impl vstd::std_specs::convert::FromSpecImpl<DebugOutput> for Debug {
    open spec fn obeys_from_spec() -> bool {
        true
    }

    open spec fn from_spec(v: DebugOutput) -> Debug {
        Debug { debug: v }
    }
}

/// A dump target, with a file path as its characters.
pub enum Target {
    StdOut,
    StdErr,
    File(Seq<char>),
}

impl View for DebugOutput {
    type V = Target;

    open spec fn view(&self) -> Target {
        match self {
            DebugOutput::StdOut => Target::StdOut,
            DebugOutput::StdErr => Target::StdErr,
            DebugOutput::File(p) => Target::File(p@),
        }
    }
}

/// The target that a `debug = "..."` value selects.
pub open spec fn output_named(s: Seq<char>) -> Target {
    if s == "stdout"@ || s == "out"@ {
        Target::StdOut
    } else if s == "stderr"@ || s == "err"@ || s == "error"@ {
        Target::StdErr
    } else {
        Target::File(s)
    }
}

/// The `debug` option that an attribute entry sets.
pub open spec fn debug_of(item: Meta) -> Result<Target, Error> {
    match item {
        Meta::Path(_) => Ok(Target::StdOut),
        Meta::List(_, _) => Err(Error::UnexpectedList),
        Meta::NameValue(_, lit) => match lit {
            Lit::Str(s) => Ok(output_named(s@)),
            _ => Err(Error::ExpectedStrLiteral),
        },
    }
}

impl Debug {
    /// Reads the output that a `debug = "..."` value names.
    pub fn output_from_name(s: &str) -> (r: DebugOutput)
        ensures
            r@ == output_named(s@),
    {
        if str_eq(s, "stdout") || str_eq(s, "out") {
            DebugOutput::StdOut
        } else if str_eq(s, "stderr") || str_eq(s, "err") || str_eq(s, "error") {
            DebugOutput::StdErr
        } else {
            DebugOutput::File(owned(s))
        }
    }

    /// Reads the `debug` option: a bare `debug` writes to standard output,
    /// `debug = "..."` names the output, a list is refused.
    pub fn from_meta(item: &Meta) -> (r: Result<Debug, Error>)
        ensures
            match (r, debug_of(*item)) {
                (Ok(d), Ok(o)) => d.debug@ == o,
                (Err(e), Err(f)) => e == f,
                _ => false,
            },
    {
        match item {
            Meta::Path(_) => Ok(Debug::default()),
            Meta::List(_, _) => Err(Error::UnexpectedList),
            Meta::NameValue(_, lit) => match lit {
                Lit::Str(s) => Ok(Debug::from(Debug::output_from_name(s.as_str()))),
                _ => Err(Error::ExpectedStrLiteral),
            },
        }
    }
}

} // verus!

//! The commands that the command line offers, and the one place through
//! which each of them is run.

use vstd::prelude::*;
use vstd::string::StringExecFns;

verus! {

/// What was given on the command line.
#[derive(Debug)]
pub struct Args {
    pub command: Option<Commands>,
}

#[derive(Debug, Clone, Copy, PartialEq, Eq, Structural)]
pub enum Commands {
    /// Tutorial on dynamic dispatch
    Dispatch,
    /// Builder pattern
    Builder,
    /// Implementing an Object-Oriented Design Pattern with Type state
    TypeState,
    /// Smart pointers
    SmartPointers,
    /// Traits
    Traits,
    /// Conversion
    Conversion,
    /// Closures
    Closures,
    /// Challenge1
    Challenge1,
    /// PartialEq example
    PartialEq1,
}

/// Runs `mk` once and hands on what it returns, success or failure.
pub fn runner<T, E>(mut mk: impl FnMut() -> Result<T, E>) -> (outcome: Result<T, E>)
    requires
        call_requires(mk, ()),
    ensures
        call_ensures(mk, (), outcome),
{
    mk()
}

/// Which implementation of a lesson is asked for.
#[derive(Debug, Clone, Copy, PartialEq, Eq, Structural)]
pub enum Implementation {
    Default,
    Dispatch,
}

/// The implementation that `s` names, if it names one.
pub open spec fn implementation_named(s: Seq<char>) -> Option<Implementation> {
    if s == "default"@ {
        Some(Implementation::Default)
    } else if s == "dispatch"@ {
        Some(Implementation::Dispatch)
    } else {
        None
    }
}

/// The complaint about a name that stands for no implementation.
pub open spec fn unknown_implementation(s: Seq<char>) -> Seq<char> {
    "unknown implementation "@ + s
}

impl Implementation {
    /// Reads the name of an implementation. Any other text is refused, with
    /// a message that quotes it.
    pub fn parse(s: &str) -> (parsed: Result<Implementation, String>)
        ensures
            match implementation_named(s@) {
                Some(implementation) => parsed == Ok::<Implementation, String>(implementation),
                None => parsed matches Err(message) && message@ == unknown_implementation(s@),
            },
    {
        let given = String::from_str(s);
        if given == String::from_str("default") {
            Ok(Implementation::Default)
        } else if given == String::from_str("dispatch") {
            Ok(Implementation::Dispatch)
        } else {
            let mut message = String::from_str("unknown implementation ");
            message.append(s);
            Err(message)
        }
    }
}

impl std::str::FromStr for Implementation {
    type Err = String;

    fn from_str(s: &str) -> (parsed: Result<Self, String>)
        ensures
            match implementation_named(s@) {
                Some(implementation) => parsed == Ok::<Implementation, String>(implementation),
                None => parsed matches Err(message) && message@ == unknown_implementation(s@),
            },
    {
        Implementation::parse(s)
    }
}

} // verus!

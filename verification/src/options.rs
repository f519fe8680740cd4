use vstd::prelude::*;
use crate::text::text_eq;

verus! {

/// The runtime world that serves the guest's GPIO imports.
#[derive(Clone, Copy, Debug, PartialEq, Eq, Structural)]
pub enum HostImpl {
    /// Real GPIO lines of an embedded Linux board.
    Linux,
    /// A simulated world that only answers the calls.
    Sim,
}

/// An option value that the host refuses.
#[derive(Clone, Copy, Debug, PartialEq, Eq, Structural)]
pub enum OptionError {
    /// `--impl` was neither `linux` nor `sim`.
    InvalidHostImpl,
    /// `--source` was neither `rust` nor `javascript`.
    InvalidGuestLanguage,
}

impl OptionError {
    /// The message the host reports for this error.
    pub fn message(&self) -> (m: &'static str)
        ensures
            m@ == match self {
                OptionError::InvalidHostImpl => "invalid host implementation"@,
                OptionError::InvalidGuestLanguage => "invalid guest language"@,
            },
    {
        match self {
            OptionError::InvalidHostImpl => "invalid host implementation",
            OptionError::InvalidGuestLanguage => "invalid guest language",
        }
    }
}

impl HostImpl {
    /// The world that `s` names, if any.
    pub open spec fn spec_parse(s: Seq<char>) -> Option<HostImpl> {
        if s == "linux"@ {
            Some(HostImpl::Linux)
        } else if s == "sim"@ {
            Some(HostImpl::Sim)
        } else {
            None
        }
    }

    /// Reads the value of `--impl`: `linux` or `sim`, nothing else.
    pub fn from_str(s: &str) -> (r: Result<HostImpl, OptionError>)
        ensures
            match HostImpl::spec_parse(s@) {
                Some(h) => r == Ok::<HostImpl, OptionError>(h),
                None => r == Err::<HostImpl, OptionError>(OptionError::InvalidHostImpl),
            },
    {
        if text_eq(s, "linux") {
            Ok(HostImpl::Linux)
        } else if text_eq(s, "sim") {
            Ok(HostImpl::Sim)
        } else {
            Err(OptionError::InvalidHostImpl)
        }
    }
}

/// The language the guest component was written in.
#[derive(Clone, Copy, Debug, PartialEq, Eq, Structural)]
pub enum ComponentSource {
    /// A guest written in Rust.
    Rs,
    /// A guest written in JavaScript.
    Js,
}

impl ComponentSource {
    /// The name under which a guest language is shown and given on the command line.
    pub open spec fn spec_name(self) -> Seq<char> {
        match self {
            ComponentSource::Rs => "rust"@,
            ComponentSource::Js => "javascript"@,
        }
    }

    /// The language that `s` names, if any.
    pub open spec fn spec_parse(s: Seq<char>) -> Option<ComponentSource> {
        if s == "rust"@ {
            Some(ComponentSource::Rs)
        } else if s == "javascript"@ {
            Some(ComponentSource::Js)
        } else {
            None
        }
    }

    /// The language's name: `rust` or `javascript`.
    pub fn as_str(&self) -> (name: &'static str)
        ensures
            name@ == self.spec_name(),
    {
        match self {
            ComponentSource::Rs => "rust",
            ComponentSource::Js => "javascript",
        }
    }

    /// The language's name as an owned string.
    pub fn to_string(&self) -> (name: String)
        ensures
            name@ == self.spec_name(),
    {
        self.as_str().to_owned()
    }

    /// Reads the value of `--source`: `rust` or `javascript`, nothing else.
    pub fn from_str(s: &str) -> (r: Result<ComponentSource, OptionError>)
        ensures
            match ComponentSource::spec_parse(s@) {
                Some(c) => r == Ok::<ComponentSource, OptionError>(c),
                None => r == Err::<ComponentSource, OptionError>(OptionError::InvalidGuestLanguage),
            },
    {
        if text_eq(s, "rust") {
            Ok(ComponentSource::Rs)
        } else if text_eq(s, "javascript") {
            Ok(ComponentSource::Js)
        } else {
            Err(OptionError::InvalidGuestLanguage)
        }
    }
}

/// Reading back the name of a guest language gives that language again.
pub proof fn source_name_round_trip(source: ComponentSource)
    ensures
        ComponentSource::spec_parse(source.spec_name()) == Some(source),
{
    reveal_strlit("rust");
    reveal_strlit("javascript");
    assert("javascript"@.len() != "rust"@.len());
}

/// Two guest languages with the same name are the same language.
pub proof fn source_names_distinct(a: ComponentSource, b: ComponentSource)
    requires
        a.spec_name() == b.spec_name(),
    ensures
        a == b,
{
    source_name_round_trip(a);
    source_name_round_trip(b);
}

/// A name that `--impl` accepts is one of exactly two words, and they name different worlds.
pub proof fn host_names_exact(s: Seq<char>)
    ensures
        HostImpl::spec_parse(s) is Some <==> (s == "linux"@ || s == "sim"@),
        HostImpl::spec_parse("linux"@) == Some(HostImpl::Linux),
        HostImpl::spec_parse("sim"@) == Some(HostImpl::Sim),
{
    reveal_strlit("linux");
    reveal_strlit("sim");
    assert("sim"@.len() != "linux"@.len());
}

} // verus!

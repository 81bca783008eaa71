//! The chains whose runtime can be built, and what is fixed for each.

use vstd::prelude::*;
use vstd::string::*;
use crate::text::{ascii_lowercase, lowers_to};

verus! {

/// One of the four supported chains.
#[derive(Clone, Copy, Debug, PartialEq, Eq, Structural)]
pub enum Runtime {
    Darwinia,
    Crab,
    Pangoro,
    Pangolin,
}

impl Runtime {
    /// The chain's name as it is written.
    pub open spec fn spec_name(self) -> Seq<char> {
        match self {
            Runtime::Darwinia => "Darwinia"@,
            Runtime::Crab => "Crab"@,
            Runtime::Pangoro => "Pangoro"@,
            Runtime::Pangolin => "Pangolin"@,
        }
    }

    /// The chain's name as it stands in file and package names.
    pub open spec fn spec_lowercase_name(self) -> Seq<char> {
        match self {
            Runtime::Darwinia => "darwinia"@,
            Runtime::Crab => "crab"@,
            Runtime::Pangoro => "pangoro"@,
            Runtime::Pangolin => "pangolin"@,
        }
    }

    /// The name of the repository that holds the chain's source.
    pub open spec fn spec_repository(self) -> Seq<char> {
        match self {
            Runtime::Darwinia | Runtime::Crab => "darwinia"@,
            Runtime::Pangoro | Runtime::Pangolin => "darwinia-common"@,
        }
    }

    /// The address the repository is cloned from.
    pub open spec fn spec_github(self) -> Seq<char> {
        "https://github.com/darwinia-network/"@ + self.spec_repository()
    }

    /// The directory, inside its repository, under which the runtime
    /// packages lie.
    pub open spec fn spec_runtimes_dir(self) -> Seq<char> {
        match self {
            Runtime::Darwinia | Runtime::Crab => "runtime"@,
            Runtime::Pangoro | Runtime::Pangolin => "node/runtime"@,
        }
    }

    /// The directory of the chain's runtime package inside its repository.
    pub open spec fn spec_path(self) -> Seq<char> {
        self.spec_runtimes_dir() + "/"@ + self.spec_lowercase_name()
    }

    /// The chain's name as it is written.
    pub fn name(&self) -> (s: String)
        ensures
            s@ == self.spec_name(),
    {
        match self {
            Runtime::Darwinia => String::from_str("Darwinia"),
            Runtime::Crab => String::from_str("Crab"),
            Runtime::Pangoro => String::from_str("Pangoro"),
            Runtime::Pangolin => String::from_str("Pangolin"),
        }
    }

    /// The chain's name in lower case.
    pub fn lowercase_name(&self) -> (s: String)
        ensures
            s@ == self.spec_lowercase_name(),
            s@ == ascii_lowercase(self.spec_name()),
    {
        proof {
            lowercase_name_is_name_lowered(*self);
        }
        match self {
            Runtime::Darwinia => String::from_str("darwinia"),
            Runtime::Crab => String::from_str("crab"),
            Runtime::Pangoro => String::from_str("pangoro"),
            Runtime::Pangolin => String::from_str("pangolin"),
        }
    }

    /// The name of the repository that holds the chain's source.
    pub fn repository(&self) -> (s: &str)
        ensures
            s@ == self.spec_repository(),
    {
        match self {
            Runtime::Darwinia | Runtime::Crab => "darwinia",
            Runtime::Pangoro | Runtime::Pangolin => "darwinia-common",
        }
    }

    /// The address the repository is cloned from.
    pub fn github(&self) -> (s: String)
        ensures
            s@ == self.spec_github(),
    {
        String::from_str("https://github.com/darwinia-network/").concat(self.repository())
    }

    /// The directory of the chain's runtime package inside its repository.
    pub fn path(&self) -> (s: String)
        ensures
            s@ == self.spec_path(),
    {
        let runtimes_dir = match self {
            Runtime::Darwinia | Runtime::Crab => "runtime",
            Runtime::Pangoro | Runtime::Pangolin => "node/runtime",
        };
        let lowercase_name = self.lowercase_name();
        String::from_str(runtimes_dir).concat("/").concat(lowercase_name.as_str())
    }

    /// The chain that `selector` names, whatever the case of its ASCII
    /// letters; `None` where it names none of the four.
    pub fn from_name(selector: &str) -> (r: Option<Runtime>)
        ensures
            match r {
                Some(v) => ascii_lowercase(selector@) == v.spec_lowercase_name(),
                None => forall|v: Runtime| ascii_lowercase(selector@) != v.spec_lowercase_name(),
            },
    {
        if lowers_to(selector, "darwinia") {
            Some(Runtime::Darwinia)
        } else if lowers_to(selector, "crab") {
            Some(Runtime::Crab)
        } else if lowers_to(selector, "pangoro") {
            Some(Runtime::Pangoro)
        } else if lowers_to(selector, "pangolin") {
            Some(Runtime::Pangolin)
        } else {
            None
        }
    }
}

/// The lower-case name of a chain is its name with the ASCII letters in
/// lower case.
pub proof fn lowercase_name_is_name_lowered(v: Runtime)
    ensures
        v.spec_lowercase_name() == ascii_lowercase(v.spec_name()),
{
    reveal_strlit("Darwinia");
    reveal_strlit("Crab");
    reveal_strlit("Pangoro");
    reveal_strlit("Pangolin");
    reveal_strlit("darwinia");
    reveal_strlit("crab");
    reveal_strlit("pangoro");
    reveal_strlit("pangolin");
    assert(v.spec_lowercase_name() =~= ascii_lowercase(v.spec_name()));
}

/// No two chains share a lower-case name, so a selector names at most one.
pub proof fn lowercase_names_differ(v: Runtime, w: Runtime)
    requires
        v.spec_lowercase_name() == w.spec_lowercase_name(),
    ensures
        v == w,
{
    reveal_strlit("darwinia");
    reveal_strlit("crab");
    reveal_strlit("pangoro");
    reveal_strlit("pangolin");
    assert("darwinia"@.len() == 8 && "darwinia"@[0] == 'd');
    assert("crab"@.len() == 4);
    assert("pangoro"@.len() == 7);
    assert("pangolin"@.len() == 8 && "pangolin"@[0] == 'p');
}

/// Every chain has a repository, an address to clone it from and a
/// package directory, none of them empty.
pub proof fn registry_entries_are_filled(v: Runtime)
    ensures
        v.spec_repository().len() > 0,
        v.spec_github().len() > 0,
        v.spec_path().len() > 0,
{
    reveal_strlit("darwinia");
    reveal_strlit("darwinia-common");
    reveal_strlit("/");
}

} // verus!

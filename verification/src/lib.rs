//! Catalog back end: the update-ingestion pipeline and the plain data it moves.
use vstd::prelude::*;

pub mod api;
pub mod cfg;
pub mod docker;
pub mod error;
pub mod services;
pub mod stream;

verus! {

/// Name of the configuration file that the programs read at start-up.
pub const CONFIG_FILE_PATH: &'static str = "config.json";

/// A host name that may stand for this machine.
pub trait Localhost {
    /// The name as a text.
    spec fn text(&self) -> Seq<char>;

    /// Whether the name stands for this machine.
    fn is_localhost(&self) -> (local: bool)
        ensures
            local == names_this_machine(self.text()),
    ;

    /// The name.
    fn as_str(&self) -> (name: &str)
        ensures
            name@ == self.text(),
    ;
}

/// The names that stand for this machine: "localhost", "127.0.0.1" and
/// "0.0.0.0".
pub open spec fn names_this_machine(name: Seq<char>) -> bool {
    name == "localhost"@ || name == "127.0.0.1"@ || name == "0.0.0.0"@
}

/// Whether two texts are the same.
pub(crate) fn same_text(one: &str, other: &str) -> (same: bool)
    ensures
        same == (one@ == other@),
{
    String::from_str(one) == String::from_str(other)
}

impl Localhost for String {
    open spec fn text(&self) -> Seq<char> {
        self@
    }

    fn is_localhost(&self) -> (local: bool) {
        same_text(self.as_str(), "localhost") || same_text(self.as_str(), "127.0.0.1") || same_text(
            self.as_str(),
            "0.0.0.0",
        )
    }

    fn as_str(&self) -> (name: &str) {
        self.as_str()
    }
}

impl<'a> Localhost for &'a str {
    open spec fn text(&self) -> Seq<char> {
        self@
    }

    fn is_localhost(&self) -> (local: bool) {
        same_text(*self, "localhost") || same_text(*self, "127.0.0.1") || same_text(
            *self,
            "0.0.0.0",
        )
    }

    fn as_str(&self) -> (name: &str) {
        *self
    }
}

/// Body of a request that names one stored resource.
#[derive(Debug)]
pub struct ResourceIdentifierRequest {
    pub id: i32,
}

} // verus!

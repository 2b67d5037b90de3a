//! What the caller knows at the moment of a log call.

use crate::level::Level;
use vstd::prelude::*;

verus! {

/// One log call: its severity, the name of the subsystem that made it, and
/// the message, already formatted.
#[derive(Clone, Copy, Debug)]
pub struct Record<'a> {
    pub level: Level,
    pub target: &'a str,
    pub message: &'a str,
}

/// The thread that made a log call: its name, if it was given one, and its
/// identifier as text.
#[derive(Clone, Copy, Debug)]
pub struct ThreadInfo<'a> {
    pub name: Option<&'a str>,
    pub id: &'a str,
}

impl<'a> ThreadInfo<'a> {
    /// The name, or `unnamed` where there is none, then a hyphen and the
    /// identifier.
    pub open spec fn label(&self) -> Seq<char> {
        (match self.name {
            Some(name) => name@,
            None => "unnamed"@,
        }) + "-"@ + self.id@
    }

    pub fn to_label(&self) -> (r: String)
        ensures
            r@ == self.label(),
    {
        let mut out = String::new();
        match self.name {
            Some(name) => out.append(name),
            None => out.append("unnamed"),
        }
        out.append("-");
        out.append(self.id);
        out
    }
}

} // verus!

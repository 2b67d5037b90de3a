//! Deployment environments.

use crate::text::same_text;
use vstd::prelude::*;

verus! {

/// Where the process runs. `Local` is a developer's terminal; `Dev` and
/// `Prod` are hosted and have their output ingested by machines.
#[derive(Clone, Copy, PartialEq, Eq, Structural, Debug)]
pub enum FiaasEnv {
    Local,
    Dev,
    Prod,
}

impl FiaasEnv {
    /// Whether lines are rendered as JSON objects in this environment.
    pub open spec fn structured(self) -> bool {
        self != FiaasEnv::Local
    }

    /// The environment selected by a configuration token. Tokens are lower
    /// case and matched exactly; anything else selects nothing.
    pub open spec fn from_token(token: Seq<char>) -> Option<FiaasEnv> {
        if token == "local"@ {
            Some(FiaasEnv::Local)
        } else if token == "dev"@ {
            Some(FiaasEnv::Dev)
        } else if token == "prod"@ {
            Some(FiaasEnv::Prod)
        } else {
            None
        }
    }

    pub fn is_structured(self) -> (r: bool)
        ensures
            r == self.structured(),
    {
        match self {
            FiaasEnv::Local => false,
            FiaasEnv::Dev => true,
            FiaasEnv::Prod => true,
        }
    }

    pub fn parse(token: &str) -> (r: Option<FiaasEnv>)
        ensures
            r == FiaasEnv::from_token(token@),
    {
        if same_text(token, "local") {
            Some(FiaasEnv::Local)
        } else if same_text(token, "dev") {
            Some(FiaasEnv::Dev)
        } else if same_text(token, "prod") {
            Some(FiaasEnv::Prod)
        } else {
            None
        }
    }
}

} // verus!

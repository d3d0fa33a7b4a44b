//! Tracks: the compiler release channel that a request selects.
use vstd::prelude::*;
use vstd::string::*;
use crate::text::same_text;

verus! {

/// A compiler release channel, each served by its own container image.
#[derive(Clone, Copy, Debug, PartialEq, Eq, Structural)]
pub enum Branch {
    Release,
}

/// The error for a track name that no image serves.
#[derive(Debug)]
pub struct UnknownBranch {
    pub name: String,
}

/// The name under which a request selects `b`.
pub open spec fn branch_name(b: Branch) -> Seq<char> {
    match b {
        Branch::Release => "release"@,
    }
}

/// The track that the name `s` selects, if any.
pub open spec fn branch_named(s: Seq<char>) -> Option<Branch> {
    if s == "release"@ {
        Some(Branch::Release)
    } else {
        None
    }
}

/// The container image that serves `b`.
pub open spec fn branch_image(b: Branch) -> Seq<char> {
    match b {
        Branch::Release => "ponylang-playpen"@,
    }
}

impl Branch {
    /// The container image for this track.
    pub fn image(&self) -> (r: &'static str)
        ensures
            r@ == branch_image(*self),
    {
        match self {
            Branch::Release => "ponylang-playpen",
        }
    }

    /// The name of this track in requests.
    pub fn name(&self) -> (r: &'static str)
        ensures
            r@ == branch_name(*self),
    {
        match self {
            Branch::Release => "release",
        }
    }

    /// Reads a track name; a name that no track has is refused.
    pub fn parse(s: &str) -> (r: Result<Branch, UnknownBranch>)
        ensures
            r matches Ok(b) ==> branch_named(s@) == Some(b) && branch_name(b) == s@,
            r is Err <==> branch_named(s@) is None,
            r matches Err(e) ==> e.name@ == s@,
    {
        if same_text(s, "release") {
            Ok(Branch::Release)
        } else {
            Err(UnknownBranch { name: String::from_str(s) })
        }
    }
}

} // verus!

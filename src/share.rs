//! Sharing code as a gist: the file it is stored under, its description,
//! and the query that opens it again in the playground.
use vstd::prelude::*;
use vstd::string::*;
use crate::text::same_text;

verus! {

/// The file name of shared code in its gist.
pub const GIST_FILENAME: &'static str = "main.pony";

/// The description of a gist of shared code.
pub const GIST_DESCRIPTION: &'static str = "Shared via Pony Playground";

/// The view of a list of query pairs.
pub open spec fn pair_texts(v: Seq<(String, String)>) -> Seq<(Seq<char>, Seq<char>)> {
    v.map_values(|p: (String, String)| (p.0@, p.1@))
}

/// The query pairs that open gist `id` on track `branch`: the gist, and the
/// track unless it is the release track, which is the default.
pub open spec fn play_query_of(id: Seq<char>, branch: Seq<char>) -> Seq<(Seq<char>, Seq<char>)> {
    if branch == "release"@ {
        seq![("gist"@, id)]
    } else {
        seq![("gist"@, id), ("branch"@, branch)]
    }
}

/// The query pairs to append to the playground's address to open gist `id`
/// on track `branch`.
pub fn play_query(id: &str, branch: &str) -> (r: Vec<(String, String)>)
    ensures
        pair_texts(r@) == play_query_of(id@, branch@),
{
    let mut r: Vec<(String, String)> = Vec::new();
    r.push((String::from_str("gist"), String::from_str(id)));
    if !same_text(branch, "release") {
        r.push((String::from_str("branch"), String::from_str(branch)));
    }
    assert(pair_texts(r@) =~= play_query_of(id@, branch@));
    r
}

/// The description of a gist once its playground address `url` is known.
pub fn shared_description(url: &str) -> (r: String)
    ensures
        r@ == GIST_DESCRIPTION@ + " ("@ + url@ + ")"@,
{
    let mut r = String::from_str(GIST_DESCRIPTION);
    r.append(" (");
    r.append(url);
    r.append(")");
    r
}

} // verus!

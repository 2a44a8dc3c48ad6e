//! The text-assembly rule shared by every collection in the crate: parts are
//! joined by a separator, with no separator before the first part or after
//! the last.  Also the error for directive arguments that must not be empty.
use vstd::prelude::*;

verus! {

/// Error raised when a directive argument that has no meaningful empty form
/// (`plugin-types`, `report-uri`, `trusted-types`) is rendered while it
/// holds no element.
#[derive(Debug, Clone, Copy, PartialEq, Eq, Structural)]
pub enum RenderError {
    /// The collection behind the directive argument was empty.
    EmptyCollection,
}

/// The text of `parts` joined by `sep`: one separator between each adjacent
/// pair, none before the first part or after the last.  Zero parts join to
/// the empty text.
pub open spec fn join_text(parts: Seq<Seq<char>>, sep: Seq<char>) -> Seq<char>
    decreases parts.len(),
{
    if parts.len() == 0 {
        Seq::empty()
    } else if parts.len() == 1 {
        parts[0]
    } else {
        join_text(parts.drop_last(), sep) + sep + parts.last()
    }
}

/// Joining one further part onto a non-empty list appends exactly one
/// separator and then that part: parts stay in order and no separator ever
/// leads or trails.
pub proof fn lemma_join_text_snoc(parts: Seq<Seq<char>>, part: Seq<char>, sep: Seq<char>)
    requires
        parts.len() > 0,
    ensures
        join_text(parts.push(part), sep) == join_text(parts, sep) + sep + part,
{
    assert(parts.push(part).drop_last() =~= parts);
}

/// A single part joins to itself, with no separator at all.
pub proof fn lemma_join_text_single(part: Seq<char>, sep: Seq<char>)
    ensures
        join_text(seq![part], sep) == part,
{
}

/// Joins the already-rendered parts with `sep`, left to right.
pub fn join_strings(parts: &Vec<String>, sep: &str) -> (r: String)
    ensures
        r@ == join_text(parts@.map_values(|p: String| p@), sep@),
{
    let ghost texts = parts@.map_values(|p: String| p@);
    let mut r = String::new();
    let mut i: usize = 0;
    while i < parts.len()
        invariant
            i <= parts.len(),
            texts == parts@.map_values(|p: String| p@),
            r@ == join_text(texts.take(i as int), sep@),
        decreases parts.len() - i,
    {
        if i > 0 {
            r.append(sep);
        }
        r.append(parts[i].as_str());
        i = i + 1;
        proof {
            let ii = i as int;
            if ii == 1 {
                assert(texts.take(1)[0] == texts[0]);
                assert(r@ =~= texts[0]);
            } else {
                assert(texts.take(ii).drop_last() =~= texts.take(ii - 1));
                assert(texts.take(ii).last() == texts[ii - 1]);
            }
        }
    }
    proof {
        assert(texts.take(parts.len() as int) =~= texts);
    }
    r
}

} // verus!

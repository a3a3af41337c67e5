//! The text form of a `RangeVec`: its elements, one on a line, between
//! square brackets.

use std::fmt::Display;
use vstd::prelude::*;
use vstd::string::{to_string_from_display_ensures, StringExecFns};
use crate::RangeVec;

verus! {

/// The line for one element, whose own text is `text`.
pub open spec fn element_line(text: Seq<char>) -> Seq<char> {
    "    "@ + text + ",\n"@
}

/// The lines for the elements whose texts are `texts`, in order.
pub open spec fn element_lines(texts: Seq<Seq<char>>) -> Seq<char>
    decreases texts.len(),
{
    if texts.len() == 0 {
        Seq::empty()
    } else {
        element_lines(texts.drop_last()) + element_line(texts.last())
    }
}

/// The text of a vector whose elements have the texts `texts`: an opening
/// bracket on a line of its own, a line for each element, and a closing
/// bracket.
pub open spec fn rendered(texts: Seq<Seq<char>>) -> Seq<char> {
    "[\n"@ + element_lines(texts) + "]"@
}

/// The texts that `strings` hold.
pub open spec fn views_of(strings: Seq<String>) -> Seq<Seq<char>> {
    strings.map_values(|s: String| s@)
}

/// Puts the texts of the elements together into the text of the vector.
pub fn render(texts: &Vec<String>) -> (text: String)
    ensures
        text@ == rendered(views_of(texts@)),
{
    let mut text = String::new();
    text.append("[\n");
    let len = texts.len();
    let mut i: usize = 0;
    while i < len
        invariant
            len == texts@.len(),
            i <= len,
            text@ == "[\n"@ + element_lines(views_of(texts@.take(i as int))),
        decreases len - i,
    {
        let ghost before = text@;
        text.append("    ");
        text.append(texts[i].as_str());
        text.append(",\n");
        proof {
            let done = views_of(texts@.take(i as int));
            let next = views_of(texts@.take(i + 1));
            assert(next.drop_last() == done);
            assert(next.last() == texts@[i as int]@);
            assert(text@ == "[\n"@ + (element_lines(done) + element_line(texts@[i as int]@)));
        }
        i += 1;
    }
    assert(texts@.take(len as int) == texts@);
    text.append("]");
    text
}

impl<T: Display> RangeVec<T> {
    /// The text of the vector: each live element as its `Display` renders
    /// it, one on a line, in index order, between square brackets.
    pub fn to_string(&self) -> (text: String)
        ensures
            exists|texts: Seq<String>|
                {
                    &&& texts.len() == self@.len()
                    &&& forall|k: int|
                        0 <= k < texts.len() ==> to_string_from_display_ensures::<T>(
                            &self@.items[k],
                            #[trigger] texts[k],
                        )
                    &&& text@ == rendered(views_of(texts))
                },
    {
        let mut texts: Vec<String> = Vec::new();
        let len = self.buffer.len();
        let mut i: usize = 0;
        while i < len
            invariant
                len == self.buffer@.len(),
                i <= len,
                texts@.len() == i,
                forall|k: int|
                    0 <= k < i ==> to_string_from_display_ensures::<T>(
                        &self.buffer@[k],
                        #[trigger] texts@[k],
                    ),
            decreases len - i,
        {
            texts.push(self.buffer[i].to_string());
            i += 1;
        }
        render(&texts)
    }
}

} // verus!

//! Small helpers on text that the rest of the crate shares.

use vstd::prelude::*;
use vstd::std_specs::iter::IteratorSpec;

verus! {

/// Appends one character to a string.
///
/// Trusted: wraps `String::push` of the standard library, which appends the
/// given character to the end of the string.
#[verifier::external_body]
pub(crate) fn push_char(s: &mut String, c: char)
    ensures
        final(s)@ == old(s)@.push(c),
{
    s.push(c)
}

/// Whether `text` begins with `prefix`.
pub fn has_prefix(text: &str, prefix: &str) -> (b: bool)
    ensures
        b == prefix@.is_prefix_of(text@),
{
    let mut theirs = text.chars();
    let mut ours = prefix.chars();
    let ghost mut i: int = 0;
    loop
        invariant
            0 <= i <= prefix@.len(),
            i <= text@.len(),
            theirs.obeys_prophetic_iter_laws(),
            ours.obeys_prophetic_iter_laws(),
            theirs.remaining() == text@.skip(i),
            ours.remaining() == prefix@.skip(i),
            prefix@.take(i) == text@.take(i),
        decreases prefix@.len() - i,
    {
        match ours.next() {
            None => {
                assert(prefix@.skip(i).len() == 0);
                assert(prefix@.take(i) =~= prefix@);
                assert(text@.take(i) =~= text@.subrange(0, prefix@.len() as int));
                return true;
            },
            Some(wanted) => {
                assert(wanted == prefix@[i]);
                assert(prefix@.skip(i).drop_first() =~= prefix@.skip(i + 1));
                match theirs.next() {
                    None => {
                        assert(text@.skip(i).len() == 0);
                        return false;
                    },
                    Some(found) => {
                        assert(found == text@[i]);
                        assert(text@.skip(i).drop_first() =~= text@.skip(i + 1));
                        if found != wanted {
                            assert(!prefix@.is_prefix_of(text@)) by {
                                if prefix@.len() <= text@.len() {
                                    assert(text@.subrange(0, prefix@.len() as int)[i] == found);
                                }
                            }
                            return false;
                        }
                        assert(prefix@.take(i + 1) =~= prefix@.take(i).push(wanted));
                        assert(text@.take(i + 1) =~= text@.take(i).push(found));
                        proof {
                            i = i + 1;
                        }
                    },
                }
            },
        }
    }
}

/// The concatenation of `items`, with `separator` between neighbours.
pub open spec fn joined(items: Seq<Seq<char>>, separator: Seq<char>) -> Seq<char>
    decreases items.len(),
{
    if items.len() == 0 {
        Seq::empty()
    } else if items.len() == 1 {
        items[0]
    } else {
        joined(items.drop_last(), separator) + separator + items.last()
    }
}

/// Joins `items` with `separator` between neighbours.
pub fn join(items: &Vec<String>, separator: &str) -> (out: String)
    ensures
        out@ == joined(items.deep_view(), separator@),
{
    let mut out = String::new();
    let mut i: usize = 0;
    while i < items.len()
        invariant
            i <= items.len(),
            out@ == joined(items.deep_view().take(i as int), separator@),
        decreases items.len() - i,
    {
        proof {
            let before = items.deep_view().take(i as int);
            let after = items.deep_view().take(i + 1);
            assert(after.drop_last() =~= before);
            assert(after.last() == items[i as int]@);
            if i > 0 {
                assert(after.len() > 1);
            } else {
                assert(before =~= Seq::<Seq<char>>::empty());
                assert(after.len() == 1);
                assert(after[0] == items[0]@);
            }
        }
        if i > 0 {
            out.append(separator);
        }
        out.append(items[i].as_str());
        assert(out@ =~= joined(items.deep_view().take(i + 1), separator@));
        i += 1;
    }
    assert(items.deep_view().take(items.len() as int) =~= items.deep_view());
    out
}

} // verus!

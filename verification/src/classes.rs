//! Class-name lists. A component's `class` attribute is a list of tokens; the
//! builders here grow such a list while its mathematical view, a sequence of
//! character sequences, is tracked exactly.

use vstd::prelude::*;

verus! {

/// The view of a class list: each owned token as its character sequence.
pub open spec fn class_views(s: Seq<String>) -> Seq<Seq<char>> {
    s.map_values(|t: String| t@)
}

/// Append one token to a class list.
pub fn push_class(classes: &mut Vec<String>, token: &str)
    ensures
        class_views(final(classes)@) =~= class_views(old(classes)@).push(token@),
{
    let owned: String = token.to_owned();
    classes.push(owned);
    proof {
        assert(class_views(classes@) =~= class_views(old(classes)@).push(token@));
    }
}

/// Append every token of `extra` to a class list, in order.
pub fn extend_classes(classes: &mut Vec<String>, extra: &Vec<String>)
    ensures
        class_views(final(classes)@) =~= class_views(old(classes)@) + class_views(extra@),
{
    let mut i: usize = 0;
    while i < extra.len()
        invariant
            i <= extra.len(),
            class_views(classes@) =~= class_views(old(classes)@) + class_views(
                extra@.subrange(0, i as int),
            ),
        decreases extra.len() - i,
    {
        let token: String = extra[i].clone();
        let ghost prev: Seq<String> = classes@;
        classes.push(token);
        proof {
            assert(class_views(prev.push(token)) =~= class_views(prev).push(token@));
            assert(extra@.subrange(0, i as int + 1) =~= extra@.subrange(0, i as int).push(
                extra@[i as int],
            ));
            assert(class_views(classes@) =~= class_views(old(classes)@) + class_views(
                extra@.subrange(0, i as int + 1),
            ));
        }
        i = i + 1;
    }
    proof {
        assert(extra@.subrange(0, extra@.len() as int) =~= extra@);
    }
}

} // verus!

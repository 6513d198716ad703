use vstd::prelude::*;

verus! {

/// Inserts `pre` in front of the elements of `to`.
pub fn prepend<T>(to: &mut Vec<T>, pre: T)
    ensures
        final(to)@ == seq![pre] + old(to)@,
{
    let mut buf: Vec<T> = Vec::new();
    buf.push(pre);
    buf.append(to);
    *to = buf;
}

/// Removing the front element of what `prepend` made gives back the element
/// that was put in front and, behind it, the vector as it was before.
pub proof fn law_prepend_then_remove_front<T>(to: Seq<T>, pre: T)
    ensures
        (seq![pre] + to)[0] == pre,
        (seq![pre] + to).remove(0) == to,
{
    assert((seq![pre] + to).remove(0) =~= to);
}

} // verus!

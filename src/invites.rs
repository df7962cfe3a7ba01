use vstd::prelude::*;

verus! {

/// Kind number of a group welcome event.
pub const MLS_WELCOME_KIND: u16 = 444;

/// The welcome events among unwrapped gift wraps: each candidate pairs the
/// gift wrap's id with its unwrapped rumor (its kind and the rumor itself),
/// or `None` where unwrapping failed.
pub open spec fn invites_of<I, R>(candidates: Seq<(I, Option<(u16, R)>)>) -> Seq<(I, R)>
    decreases candidates.len(),
{
    if candidates.len() == 0 {
        Seq::empty()
    } else {
        let rest = invites_of(candidates.drop_last());
        let (id, unwrapped) = candidates.last();
        match unwrapped {
            Some((kind, rumor)) => if kind == MLS_WELCOME_KIND {
                rest.push((id, rumor))
            } else {
                rest
            },
            None => rest,
        }
    }
}

/// Keeps, in order, the gift wraps that unwrapped to a welcome event.
pub fn extract_invite_events<I, R>(candidates: Vec<(I, Option<(u16, R)>)>) -> (r: Vec<(I, R)>)
    ensures
        r@ == invites_of(candidates@),
{
    let ghost all = candidates@;
    let mut rest = candidates;
    let mut rev: Vec<(I, R)> = Vec::new();
    // Walk from the back so that each candidate is moved out, not copied.
    while rest.len() > 0
        invariant
            rest@ == all.take(rest@.len() as int),
            rest@.len() <= all.len(),
            invites_of(all) == invites_of(rest@) + rev@.reverse(),
        decreases rest.len(),
    {
        let ghost before = rest@;
        let (id, unwrapped) = rest.pop().unwrap();
        assert(before.drop_last() == rest@);
        match unwrapped {
            Some((kind, rumor)) => {
                if kind == MLS_WELCOME_KIND {
                    let ghost rv = rev@;
                    rev.push((id, rumor));
                    assert(rev@.reverse() =~= seq![(id, rumor)] + rv.reverse());
                    assert(invites_of(before) == invites_of(rest@).push((id, rumor)));
                    assert(invites_of(rest@).push((id, rumor)) + rv.reverse() =~= invites_of(rest@) + rev@.reverse());
                }
            },
            None => {},
        }
    }
    assert(rest@ =~= Seq::<(I, Option<(u16, R)>)>::empty());
    assert(invites_of(all) =~= rev@.reverse());
    let mut r: Vec<(I, R)> = Vec::new();
    while rev.len() > 0
        invariant
            invites_of(all) == r@ + rev@.reverse(),
        decreases rev.len(),
    {
        let ghost rv = rev@;
        let x = rev.pop().unwrap();
        let ghost rp = r@;
        r.push(x);
        assert(rv.reverse() =~= seq![x] + rev@.reverse());
        assert(rp + rv.reverse() =~= r@ + rev@.reverse());
    }
    assert(r@ + rev@.reverse() =~= r@);
    r
}

} // verus!

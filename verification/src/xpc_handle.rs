use vstd::prelude::*;

verus! {

/// What a wrapper asks of the runtime for its native object.
#[derive(Clone, Copy, Debug, PartialEq, Eq, Structural)]
pub enum HandleAction {
    /// Nothing is to be done.
    Nothing,
    /// One more reference is to be taken.
    Retain,
    /// One reference is to be given up.
    Release,
}

/// By how much an action changes the runtime's count of references.
pub open spec fn effect(action: HandleAction) -> int {
    match action {
        HandleAction::Nothing => 0,
        HandleAction::Retain => 1,
        HandleAction::Release => -1,
    }
}

/// By how much a run of actions changes the runtime's count of references.
pub open spec fn net_effect(actions: Seq<HandleAction>) -> int
    decreases actions.len(),
{
    if actions.len() == 0 {
        0
    } else {
        net_effect(actions.drop_last()) + effect(actions.last())
    }
}

/// What taking a reference of one's own on `handle` asks for: a retain, unless
/// there is no object.
pub open spec fn retain_action(handle: u64) -> HandleAction {
    if handle != 0 {
        HandleAction::Retain
    } else {
        HandleAction::Nothing
    }
}

/// What the end of a wrapper asks for: a release when it still holds its
/// reference, and nothing when it does not.
pub open spec fn release_action(held: bool) -> HandleAction {
    if held {
        HandleAction::Release
    } else {
        HandleAction::Nothing
    }
}

/// The claim of one wrapper on one native object: the handle, and whether the
/// wrapper holds a reference that it still has to give up.
#[derive(Debug, PartialEq, Eq)]
pub struct ObjectHandle {
    /// The handle of the object; 0 when there is none.
    pub handle: u64,
    /// Whether the reference of this wrapper is still to be given up.
    pub held: bool,
}

impl ObjectHandle {
    /// Takes over a reference that the caller owns. Nothing is asked of the
    /// runtime, and the caller must not give the reference up itself.
    pub fn adopt(handle: u64) -> (r: ObjectHandle)
        ensures
            r.handle == handle,
            r.held == (handle != 0),
    {
        ObjectHandle { handle, held: handle != 0 }
    }

    /// Wraps an object that somebody else owns, such as one that is lent for
    /// the time of a call: a reference of the wrapper's own has to be taken
    /// before the call returns.
    pub fn retain(handle: u64) -> (r: (ObjectHandle, HandleAction))
        ensures
            r.0.handle == handle,
            r.0.held == (handle != 0),
            r.1 == retain_action(handle),
    {
        if handle != 0 {
            (ObjectHandle { handle, held: true }, HandleAction::Retain)
        } else {
            (ObjectHandle { handle, held: false }, HandleAction::Nothing)
        }
    }

    /// Ends the claim of the wrapper: its reference is given up, once. A
    /// wrapper that has given it up asks for nothing more.
    pub fn release(&mut self) -> (r: HandleAction)
        ensures
            r == release_action(old(self).held),
            !final(self).held,
            final(self).handle == old(self).handle,
    {
        if self.held {
            self.held = false;
            HandleAction::Release
        } else {
            HandleAction::Nothing
        }
    }
}

/// What `count` wrappers ask for that each take a reference of their own on
/// `handle` and are then all ended.
pub open spec fn wrappers_actions(handle: u64, count: nat) -> Seq<HandleAction> {
    Seq::new(count, |i: int| retain_action(handle)) + Seq::new(
        count,
        |i: int| release_action(handle != 0),
    )
}

/// The net effect of a run of one action repeated.
proof fn lemma_net_effect_repeated(action: HandleAction, count: nat)
    ensures
        net_effect(Seq::new(count, |i: int| action)) == count * effect(action),
    decreases count,
{
    let all = Seq::new(count, |i: int| action);
    if count > 0 {
        let front = Seq::new((count - 1) as nat, |i: int| action);
        assert(all.drop_last() =~= front);
        lemma_net_effect_repeated(action, (count - 1) as nat);
        assert(count * effect(action) == (count - 1) * effect(action) + effect(action))
            by (nonlinear_arith);
    } else {
        assert(0 * effect(action) == 0);
    }
}

/// The net effect of two runs, one after the other.
proof fn lemma_net_effect_add(a: Seq<HandleAction>, b: Seq<HandleAction>)
    ensures
        net_effect(a + b) == net_effect(a) + net_effect(b),
    decreases b.len(),
{
    if b.len() == 0 {
        assert(a + b =~= a);
    } else {
        assert((a + b).drop_last() =~= a + b.drop_last());
        lemma_net_effect_add(a, b.drop_last());
    }
}

/// Any number of wrappers that each take a reference of their own on one
/// object and are then all ended leave the count of references where it was:
/// nothing leaks, and nothing is given up twice.
pub proof fn lemma_wrappers_balance(handle: u64, count: nat)
    ensures
        net_effect(wrappers_actions(handle, count)) == 0,
{
    let taken = Seq::new(count, |i: int| retain_action(handle));
    let given = Seq::new(count, |i: int| release_action(handle != 0));
    lemma_net_effect_add(taken, given);
    lemma_net_effect_repeated(retain_action(handle), count);
    lemma_net_effect_repeated(release_action(handle != 0), count);
    assert(count * 1 + count * (-1) == 0) by (nonlinear_arith);
    assert(count * 0 + count * 0 == 0) by (nonlinear_arith);
}

/// A wrapper gives its reference up once: after the first release a second
/// one asks for nothing.
pub proof fn lemma_released_once(held: bool)
    ensures
        release_action(false) == HandleAction::Nothing,
        effect(release_action(held)) + effect(release_action(false)) == effect(release_action(held)),
{
}

} // verus!

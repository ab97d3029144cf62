use vstd::prelude::*;
use smallvec::SmallVec;
use crate::card::QUARTER_SIZE;
use crate::state::action::ContractAction;

verus! {

/// A list of actions, kept in a `SmallVec` with room for a whole hand inline; what it
/// holds, in order, is `actions_of`.
#[verifier::external_body]
#[derive(Debug)]
pub struct ActionList {
    items: SmallVec<[ContractAction; QUARTER_SIZE]>,
}

/// The actions held by `list`, in order.
pub uninterp spec fn actions_of(list: ActionList) -> Seq<ContractAction>;

/// `SmallVec::new`: an empty list.
#[verifier::external_body]
pub(crate) fn actions_new() -> (list: ActionList)
    ensures
        actions_of(list) == Seq::<ContractAction>::empty(),
{
    ActionList { items: SmallVec::new() }
}

/// `SmallVec::push`: appends `a` at the end (past its inline capacity the list moves to
/// the heap; it fails only when its length would overflow `usize`).
#[verifier::external_body]
pub(crate) fn actions_push(list: &mut ActionList, a: ContractAction)
    requires
        actions_of(*old(list)).len() < usize::MAX,
    ensures
        actions_of(*final(list)) == actions_of(*old(list)).push(a),
{
    list.items.push(a)
}

/// `SmallVec::as_slice`: the actions held, in order.
#[verifier::external_body]
fn actions_as_slice(list: &ActionList) -> (s: &[ContractAction])
    ensures
        s@ == actions_of(*list),
{
    list.items.as_slice()
}

impl ActionList {
    /// The actions held, in order.
    pub fn as_slice(&self) -> (s: &[ContractAction])
        ensures
            s@ == actions_of(*self),
    {
        actions_as_slice(self)
    }
}

} // verus!

use vstd::prelude::*;

verus! {

/// The domain of the play of a contract for game-running frameworks: actions are
/// `ContractAction`s, updates `ContractStateUpdate`s, errors `BridgeCoreError`s, agents
/// are identified by their `Side` and rewards are `i32`.
#[derive(Debug, Clone, Copy, PartialEq, Eq, Structural)]
pub struct ContractDP {}

/// The protocol of the play of a contract: the same actions, updates, errors and agent
/// identifiers as `ContractDP`.
#[derive(Debug, Clone, Copy, PartialEq, Eq, Structural)]
pub struct ContractProtocolSpec {}

/// A processor of the play of a contract; it carries no state.
#[derive(Debug, Clone, Copy, PartialEq, Eq, Structural)]
pub struct ContractProcessor {}

/// Failures of converting an information set to or from a tensor.
#[derive(Debug, Clone, Copy, PartialEq, Eq, Structural)]
pub enum ConvertError {
    ConvertFromTensor,
    ConvertToTensor,
}

} // verus!

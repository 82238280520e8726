//! The engine's error taxonomy.
//!
//! Input-validation faults, registry consistency faults, faults surfaced
//! from the bridge, and "should never happen" faults of the submit/resume
//! protocol. Every engine operation that fails leaves the engine state
//! unchanged.

use vstd::prelude::*;

verus! {

#[derive(Debug, Clone, Copy, PartialEq, Eq, Structural)]
pub enum EngineError {
    /// The denomination string is not `factory/{engine-address}/{subdenom}`.
    NotFactoryToken,
    /// The subdenomination segment is not valid base-58 text.
    DecodeFailure,
    /// The registry holds no binding for the recovered identity.
    BindingMissing,
    /// The registry's binding for the identity differs from the claimed
    /// denomination.
    BindingMismatch,
    /// The call did not attach exactly the expected number of assets.
    WrongFundCount,
    /// No attached asset carries the bridge-fee denomination.
    MissingFeeCoin,
    /// Every attached asset carries the bridge-fee denomination, so no
    /// asset is left to bridge.
    MissingBridgingCoin,
    /// The opaque action or bridging payload could not be decoded.
    PayloadDecodeFailure,
    /// The bridge's transfer-info query failed, so no sub-call was issued.
    BridgeQueryFailed,
    /// The delayed continuation reported failure; the host should have
    /// aborted the whole transaction instead.
    ReplyFailed,
    /// The sub-call's return data could not be parsed.
    InvalidReplyData,
    /// The sub-call returned no data.
    MissingReplyData,
    /// The sub-call's return data names no wrapped-asset contract.
    MissingContract,
    /// A resumption arrived with no pending transfer recorded.
    NoPendingTransfer,
}

} // verus!

use vstd::prelude::*;

verus! {

/// Error taxonomy shared by the asset registry and the marketplace
/// coordinator. Every failure aborts the whole operation: no function
/// that returns one of these leaves any state partially updated.
#[derive(Clone, Copy, Debug, PartialEq, Eq, Structural)]
pub enum Error {
    /// An argument is outside its documented range (quantity, fee rate,
    /// string length, ...).
    InvalidInput,
    /// The requested asset has no stored record.
    NotFound,
    /// The presented authorization proof does not cover the principal
    /// that the operation demands.
    Unauthorized,
    /// The asset exists but its seller has switched it off.
    InactiveAsset,
    /// Fewer tokens are available than the purchase asks for.
    InsufficientAvailability,
    /// A checked addition or multiplication would exceed the machine range.
    ArithmeticOverflow,
    /// A checked subtraction would fall below zero.
    ArithmeticUnderflow,
    /// One-time initialization was attempted a second time.
    AlreadyInitialized,
    /// The operation needs configuration that was never installed.
    NotInitialized,
    /// The network tag is not one the coordinator recognizes.
    UnsupportedNetwork,
    /// A coordinator is configured, so the direct purchase path is closed.
    RedirectRequired,
    /// The declared seller does not match the stored asset's seller.
    SellerMismatch,
}

} // verus!

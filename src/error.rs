use vstd::prelude::*;

verus! {

/// A terminal failure of the device flow.
///
/// Waiting for the user's approval is not an error: it never reaches the
/// caller and only makes the polling loop wait and ask again.
#[derive(Debug, Clone, PartialEq, Eq)]
pub enum FlowError {
    /// The HTTP client could not be built; the flow never starts.
    Configuration(String),
    /// An endpoint answered with a status outside 200..=299.
    Rejected { status: u16, body: String },
    /// The request did not reach the provider or no reply came back.
    Transport(String),
    /// The user did not approve within the provider's window.
    Expired,
    /// The provider reported an error, with its description.
    Provider(String),
    /// A reply body did not have the expected shape.
    Parse(String),
}

} // verus!

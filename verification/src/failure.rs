//! What becomes of a failure.
//!
//! Nothing is ever retried: a failure ends the operation or the push
//! channel in which it occurred, and nothing else. Retrying is left to the
//! browser.

use vstd::prelude::*;

verus! {

/// The kinds of failure.
#[derive(Clone, Copy, Debug, PartialEq, Eq, Structural)]
pub enum Failure {
    /// The daemon could not be reached, or refused the handshake.
    Connection,
    /// The daemon answered with something malformed or unexpected.
    Protocol,
    /// A view model could not be turned into output.
    Render,
    /// A picture could not be decoded, resampled or encoded.
    Image,
}

/// Where a failure occurred.
#[derive(Clone, Copy, Debug, PartialEq, Eq, Structural)]
pub enum Origin {
    /// While a page was loaded for the first time.
    InitialLoad,
    /// In a single library read or control operation.
    Operation,
    /// In the push loop of a browser connection.
    PushChannel,
    /// While album art was retrieved.
    ArtRetrieval,
}

/// What is done about a failure.
#[derive(Clone, Copy, Debug, PartialEq, Eq, Structural)]
pub enum Handling {
    /// The page is shown with the failure on it.
    ShowOnPage,
    /// The operation is abandoned and reported as failed.
    FailOperation,
    /// The push channel is closed without a word to the browser.
    CloseChannel,
    /// The placeholder picture is shown in place of the art.
    UsePlaceholder,
}

/// How a failure is handled.
///
/// A picture that fails is always replaced by the placeholder, and
/// retrieving art never fails for the caller. A push channel closes
/// silently on any other failure. A page that is loaded for the first time
/// shows that the daemon cannot be reached. Every other failure ends the
/// operation in which it occurred.
pub open spec fn handling_of(failure: Failure, origin: Origin) -> Handling {
    if failure == Failure::Image || origin == Origin::ArtRetrieval {
        Handling::UsePlaceholder
    } else if origin == Origin::PushChannel {
        Handling::CloseChannel
    } else if failure == Failure::Connection && origin == Origin::InitialLoad {
        Handling::ShowOnPage
    } else {
        Handling::FailOperation
    }
}

/// Decides what is done about a failure.
pub fn handle(failure: Failure, origin: Origin) -> (handling: Handling)
    ensures
        handling == handling_of(failure, origin),
        failure == Failure::Image ==> handling == Handling::UsePlaceholder,
        handling == Handling::ShowOnPage ==> failure == Failure::Connection && origin
            == Origin::InitialLoad,
        handling == Handling::CloseChannel <==> origin == Origin::PushChannel && failure
            != Failure::Image,
{
    match (failure, origin) {
        (Failure::Image, _) => Handling::UsePlaceholder,
        (_, Origin::ArtRetrieval) => Handling::UsePlaceholder,
        (_, Origin::PushChannel) => Handling::CloseChannel,
        (Failure::Connection, Origin::InitialLoad) => Handling::ShowOnPage,
        _ => Handling::FailOperation,
    }
}

} // verus!

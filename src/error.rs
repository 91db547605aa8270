//! What can go wrong while serving a command.

use vstd::prelude::*;

verus! {

/// The failures a command can meet; each becomes a reply to the user.
#[derive(Clone, Copy, Debug, PartialEq, Eq, Structural)]
pub enum MapBotError {
    /// The command's argument is empty or only whitespace.
    InvalidArgument,
    /// The geocoding provider returned no candidate.
    LocationNotFound,
    /// The geocoding provider could not be reached or refused the credential.
    ProviderUnavailable,
    /// The store could not be reached or refused the credential.
    StorageUnavailable,
    /// The store rejected a write.
    StorageRejected,
}

/// Whether an error is one a store may give for a failed write.
pub open spec fn write_failure(e: MapBotError) -> bool {
    e == MapBotError::StorageUnavailable || e == MapBotError::StorageRejected
}

pub open spec fn error_message(e: MapBotError) -> Seq<char> {
    match e {
        MapBotError::InvalidArgument => "Please name a place, for example: London."@,
        MapBotError::LocationNotFound => "That place could not be found."@,
        MapBotError::ProviderUnavailable => "The map service is unavailable, please try again later."@,
        MapBotError::StorageUnavailable => "The location table is unavailable, please try again later."@,
        MapBotError::StorageRejected => "The location table refused the change."@,
    }
}

impl MapBotError {
    /// The text shown to the user for this failure.
    pub fn message(&self) -> (r: String)
        ensures
            r@ == error_message(*self),
    {
        match self {
            MapBotError::InvalidArgument => String::from_str("Please name a place, for example: London."),
            MapBotError::LocationNotFound => String::from_str("That place could not be found."),
            MapBotError::ProviderUnavailable => String::from_str(
                "The map service is unavailable, please try again later.",
            ),
            MapBotError::StorageUnavailable => String::from_str(
                "The location table is unavailable, please try again later.",
            ),
            MapBotError::StorageRejected => String::from_str("The location table refused the change."),
        }
    }
}

} // verus!

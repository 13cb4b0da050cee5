//! Fetches a photo by keyword from a photo-search service and prepares it
//! for saving: argument resolution, configuration records, the search
//! exchange and image decoding, each stated by contract.
use vstd::prelude::*;

pub mod args;
pub mod config;
pub mod json;
pub mod picture;
pub mod run;
pub mod search;
pub mod text;

verus! {

/// Every way a run can stop short of saving an image.
#[derive(Debug, Clone, Copy, PartialEq, Eq, Structural)]
pub enum Failure {
    /// The configuration record could not be created, read or parsed.
    ConfigIo,
    /// The user asked for the usage text; not a fault, but the run stops.
    HelpRequested,
    /// The search service rejected the credential.
    Authentication,
    /// The search response lacks a field the run needs.
    SearchParse,
    /// A request failed in transport.
    Network,
    /// The downloaded bytes are not an image of a known format.
    Decode,
    /// The image could not be written to its destination.
    Write,
}

} // verus!

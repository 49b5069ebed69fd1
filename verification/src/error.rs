//! What can go wrong with one object.

use vstd::prelude::*;

verus! {

/// A key from which a name or an instant cannot be derived.
#[derive(Clone, Copy, Debug, PartialEq, Eq, Structural)]
pub enum KeyError {
    /// The name has fewer pieces than the rule asks for.
    NoToken,
    /// The piece is shorter than the rule asks for.
    ShortToken,
    /// The key does not hold the marker of its embedded token.
    NoMarker,
    /// The key ends before the window behind the marker does.
    ShortWindow,
    /// The token is not a date and time, or is one that cannot be written.
    BadTimestamp,
}

/// A manifest that cannot be turned into rows.
#[derive(Clone, Copy, Debug, PartialEq, Eq, Structural)]
pub enum DecodeError {
    /// The bytes are not a feature collection.
    Malformed,
    /// The feature at this position has no geometry.
    NoGeometry(usize),
}

/// Why the processing of one object ended without success.
#[derive(Clone, Copy, Debug, PartialEq, Eq, Structural)]
pub enum IngestError {
    /// The key does not have the form its collection asks for.
    Key(KeyError),
    /// The manifest could not be decoded.
    Decode(DecodeError),
    /// The collection that the asset belongs to does not exist.
    MissingCollection,
    /// The feature that the asset belongs to does not exist.
    MissingFeature,
    /// A call to the object store or the feature store failed.
    Store,
}

} // verus!

//! Detects when the stream's in-band metadata changes.

use vstd::prelude::*;
use icy_metadata::IcyMetadata;
use icy_metadata::error::MetadataParseError;

verus! {

/// `icy_metadata::IcyMetadata`, one parsed in-band metadata block. Opaque here.
#[verifier::external_type_specification]
#[verifier::external_body]
pub struct ExIcyMetadata(IcyMetadata);

/// `icy_metadata::error::MetadataParseError`, why a block did not parse.
/// Opaque here.
#[verifier::external_type_specification]
#[verifier::external_body]
pub struct ExMetadataParseError(MetadataParseError);

/// Number of refresh signals that may wait for the display task at once.
pub const REFRESH_QUEUE_CAPACITY: usize = 10;

/// What the caller does after a metadata block was read from the stream.
#[derive(Clone, Copy, Debug, PartialEq, Eq, Structural)]
pub enum MetadataAction {
    /// The metadata differs from what was seen last: signal the display task.
    Refresh,
    /// The metadata is what was seen last: nothing to do.
    Keep,
    /// The block could not be parsed: report it, nothing else changes.
    ReportFailure,
}

/// Remembers the text of the metadata that was seen last.
pub struct MetadataTracker {
    last: String,
}

impl View for MetadataTracker {
    type V = Seq<char>;

    /// The text of the metadata that was seen last, empty before the first.
    closed spec fn view(&self) -> Seq<char> {
        self.last@
    }
}

/// Formats `metadata` with the `Debug` impl that `icy_metadata` derives for
/// `IcyMetadata`. Claimed: the text is not empty, since a derived impl writes
/// the name of the struct first. Nothing more is claimed of it: the impl prints
/// a hash map in the order in which the map is walked, so equal blocks may
/// print differently.
#[verifier::external_body]
fn metadata_text(metadata: &IcyMetadata) -> (text: String)
    ensures
        text@.len() > 0,
{
    format!("{:?}", metadata)
}

impl MetadataTracker {
    /// A tracker that has seen nothing yet.
    pub fn new() -> (tracker: Self)
        ensures
            tracker@ == Seq::<char>::empty(),
    {
        MetadataTracker { last: String::new() }
    }

    /// The text that was seen last.
    pub fn last(&self) -> (text: &str)
        ensures
            text@ == self@,
    {
        self.last.as_str()
    }

    /// Takes note of `text` and says whether it differs from what was seen last.
    pub fn observe(&mut self, text: String) -> (changed: bool)
        ensures
            final(self)@ == text@,
            changed == (old(self)@ != text@),
    {
        if self.last != text {
            self.last = text;
            true
        } else {
            false
        }
    }

    /// Decides what follows a metadata block that the stream reader handed over.
    ///
    /// A block that failed to parse leaves the tracker as it was. A parsed one
    /// is rendered and remembered, and asks for a refresh exactly when the
    /// rendering differs from the one before. The rendering is never empty, so
    /// the first parsed block on a new tracker always asks for a refresh.
    pub fn on_metadata_read(&mut self, metadata: &Result<IcyMetadata, MetadataParseError>) -> (action:
        MetadataAction)
        ensures
            metadata is Err ==> action == MetadataAction::ReportFailure && final(self)@ == old(
                self,
            )@,
            metadata is Ok ==> final(self)@.len() > 0,
            metadata is Ok ==> action == (if final(self)@ != old(self)@ {
                MetadataAction::Refresh
            } else {
                MetadataAction::Keep
            }),
            metadata is Ok && old(self)@.len() == 0 ==> action == MetadataAction::Refresh,
    {
        match metadata {
            Ok(parsed) => {
                let text = metadata_text(parsed);
                if self.observe(text) {
                    MetadataAction::Refresh
                } else {
                    MetadataAction::Keep
                }
            },
            Err(_) => MetadataAction::ReportFailure,
        }
    }
}

} // verus!

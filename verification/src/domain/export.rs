//! Typed export and recovery records.
//!
//! An exported archive is a versioned envelope whose plaintext manifest
//! lists what it contains, while all record content stays sealed.
use vstd::prelude::*;

verus! {

/// On-disk envelope format version written by this build. Version 2
/// envelopes carry the `sealing` discriminator (and, for passphrase
/// archives, the salt and derivation parameters); version 1 envelopes have
/// no discriminator, are always sealed with the workspace key, and stay
/// readable.
pub const EXPORT_FORMAT_VERSION: i64 = 2;

/// The sealing of an archive opened with the workspace key.
pub const DPAPI_SEALING: &'static str = "dpapi";

/// The sealing of an archive opened with a passphrase-derived key.
pub const PASSPHRASE_SEALING: &'static str = "passphrase";

/// Plaintext inventory of an exported archive. No record content appears
/// here.
#[derive(Clone, Debug, PartialEq, Eq)]
pub struct ExportManifest {
    pub format_version: i64,
    pub sealing: String,
    pub exported_at: String,
    pub exported_by_version: String,
    pub record_counts: ExportRecordCounts,
    pub payload_checksum: String,
    pub payload_sealed_length: usize,
}

/// How many records of each kind an archive carries.
#[derive(Clone, Copy, Debug, Default, PartialEq, Eq, Structural)]
pub struct ExportRecordCounts {
    pub projects: usize,
    pub captures: usize,
    pub decisions: usize,
    pub exclusion_rules: usize,
    pub settings: usize,
}

/// One setting carried by an archive.
#[derive(Clone, Debug, PartialEq, Eq)]
pub struct ExportedSetting {
    pub key: String,
    pub value: String,
}

/// An export or import event written to the append-only audit table.
#[derive(Clone, Copy, Debug, PartialEq, Eq, Structural)]
pub enum ExportEvent {
    ExportRequested,
    ExportCompleted,
    ExportFailed,
    ImportRequested,
    ImportCompleted,
    ImportFailed,
}

impl ExportEvent {
    /// The stored spelling of the event.
    pub open spec fn spec_name(self) -> Seq<char> {
        match self {
            ExportEvent::ExportRequested => "export_requested"@,
            ExportEvent::ExportCompleted => "export_completed"@,
            ExportEvent::ExportFailed => "export_failed"@,
            ExportEvent::ImportRequested => "import_requested"@,
            ExportEvent::ImportCompleted => "import_completed"@,
            ExportEvent::ImportFailed => "import_failed"@,
        }
    }

    pub fn as_str(&self) -> (r: &'static str)
        ensures
            r@ == self.spec_name(),
    {
        match self {
            ExportEvent::ExportRequested => "export_requested",
            ExportEvent::ExportCompleted => "export_completed",
            ExportEvent::ExportFailed => "export_failed",
            ExportEvent::ImportRequested => "import_requested",
            ExportEvent::ImportCompleted => "import_completed",
            ExportEvent::ImportFailed => "import_failed",
        }
    }
}

/// One row of the export-and-recovery audit log.
#[derive(Clone, Debug, PartialEq, Eq)]
pub struct ExportEventRecord {
    pub id: String,
    pub event_type: String,
    pub envelope_format_version: i64,
    pub record_counts: String,
    pub detail: String,
    pub created_at: String,
}

} // verus!

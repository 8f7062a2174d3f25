//! Versioned asset provisioning: on every startup, decide whether the on-disk
//! corpus store must be re-materialized from the embedded compressed payload.
//! The decision reads only the presence of the store and a sidecar version
//! marker; the marker is written after a fully successful copy, so it acts as
//! the commit record and any interrupted copy is re-provisioned on the next
//! launch.

use vstd::prelude::*;
use crate::text::{trimmed, trim_whitespace};

verus! {

/// Why a provisioning step failed; every variant is fatal to startup.
#[derive(Debug, PartialEq, Eq, Structural)]
pub enum ProvisionError {
    /// The embedded payload did not decompress as a well-formed stream.
    CorruptPayload,
}

impl ProvisionError {
    /// A descriptive message for the caller; provisioning failures are fatal
    /// to startup.
    pub fn message(&self) -> (r: String)
        ensures
            r@ == "embedded corpus payload is corrupt or truncated"@,
    {
        "embedded corpus payload is corrupt or truncated".to_owned()
    }
}

/// What a successful provisioning step asks the caller to do.
#[derive(Debug)]
pub enum ProvisionOutcome {
    /// The store is present and its marker equals the current version: nothing
    /// to do.
    AlreadyCurrent,
    /// The decompressed store image; the caller materializes it and only then
    /// overwrites the marker with the current version.
    Extracted(Vec<u8>),
}

/// The observed provisioning state: whether the materialized store exists and
/// the raw contents of the version marker file, if present.
pub struct MarkerState {
    pub store_present: bool,
    pub marker: Option<Seq<char>>,
}

/// The decision table, evaluated against the observed state: provision when
/// the store is absent, when the marker is absent, or when the marker (with
/// surrounding whitespace removed) differs from the current version; skip only
/// when the marker reads exactly as the current version.
pub open spec fn provision_needed(st: MarkerState, current: Seq<char>) -> bool {
    if !st.store_present {
        true
    } else {
        match st.marker {
            Some(m) => trimmed(m) != current,
            None => true,
        }
    }
}

/// The state an observer reads back after a step that completed successfully:
/// a provisioning step materializes the store and then writes the current
/// version as the marker; a skipped step changes nothing.
pub open spec fn state_after_success(st: MarkerState, current: Seq<char>) -> MarkerState {
    if provision_needed(st, current) {
        MarkerState { store_present: true, marker: Some(current) }
    } else {
        st
    }
}

/// Executable form of the decision table.
pub fn should_provision(store_present: bool, marker: &Option<String>, current_version: &String) -> (r:
    bool)
    ensures
        r == provision_needed(
            MarkerState { store_present, marker: marker.deep_view() },
            current_version@,
        ),
{
    if !store_present {
        true
    } else {
        match marker {
            None => true,
            Some(m) => {
                let t = trim_whitespace(m.as_str());
                !(t == *current_version)
            },
        }
    }
}

/// What the embedded payload decompresses to, if it is a well-formed stream:
/// a function of the compressed bytes alone.
pub uninterp spec fn gunzip_of(data: Seq<u8>) -> Option<Seq<u8>>;

/// Relies on `flate2::read::GzDecoder` (driven by `std::io::Read::read_to_end`):
/// decoding an in-memory gzip stream is a function of the compressed bytes
/// alone, and a corrupt or truncated stream reports an error instead of
/// returning bytes.
#[verifier::external_body]
fn gunzip(data: &[u8]) -> (r: Option<Vec<u8>>)
    ensures
        r is Some <==> gunzip_of(data@) is Some,
        r matches Some(v) ==> Some(v@) == gunzip_of(data@),
{
    let mut decoder = flate2::read::GzDecoder::new(data);
    let mut out: Vec<u8> = Vec::new();
    match std::io::Read::read_to_end(&mut decoder, &mut out) {
        Ok(_) => Some(out),
        Err(_) => None,
    }
}

/// One provisioning step over the observed state: decides from the decision
/// table and, when provisioning is needed, decompresses the embedded payload
/// for the caller to materialize. The caller writes the store image first and
/// the version marker only after the copy fully succeeded.
pub fn provision_step(
    store_present: bool,
    marker: &Option<String>,
    current_version: &String,
    payload: &[u8],
) -> (r: Result<ProvisionOutcome, ProvisionError>)
    ensures
        !provision_needed(
            MarkerState { store_present, marker: marker.deep_view() },
            current_version@,
        ) <==> (r matches Ok(ProvisionOutcome::AlreadyCurrent)),
        provision_needed(
            MarkerState { store_present, marker: marker.deep_view() },
            current_version@,
        ) ==> match gunzip_of(payload@) {
            Some(b) => r matches Ok(ProvisionOutcome::Extracted(v)) && v@ == b,
            None => r matches Err(ProvisionError::CorruptPayload),
        },
{
    if should_provision(store_present, marker, current_version) {
        match gunzip(payload) {
            Some(bytes) => Ok(ProvisionOutcome::Extracted(bytes)),
            None => Err(ProvisionError::CorruptPayload),
        }
    } else {
        Ok(ProvisionOutcome::AlreadyCurrent)
    }
}

/// Idempotence: one successful provisioning step makes the state stable, so a
/// second step with an unchanged version decides to skip and performs no
/// second decompression. The version string carries no surrounding whitespace,
/// as an application version does.
pub proof fn lemma_provision_idempotent(st: MarkerState, current: Seq<char>)
    requires
        trimmed(current) == current,
    ensures
        !provision_needed(state_after_success(st, current), current),
        state_after_success(state_after_success(st, current), current) == state_after_success(
            st,
            current,
        ),
{
}

/// Staleness: a deleted marker, or one whose trimmed contents differ from the
/// current version, forces re-extraction, and after the step the marker equals
/// the current version.
pub proof fn lemma_stale_marker_reprovisions(st: MarkerState, current: Seq<char>)
    requires
        st.marker matches Some(m) ==> trimmed(m) != current,
    ensures
        provision_needed(st, current),
        state_after_success(st, current).store_present,
        state_after_success(st, current).marker == Some(current),
{
}

/// The marker is the commit record: the decision skips only when the store is
/// present and the marker reads exactly as the current version. A crash before
/// the marker write leaves the marker absent or stale, so the next launch
/// re-provisions.
pub proof fn lemma_marker_is_commit_record(st: MarkerState, current: Seq<char>)
    ensures
        !provision_needed(st, current) <==> (st.store_present && (st.marker matches Some(m)
            && trimmed(m) == current)),
{
}

} // verus!

//! The claim lifecycle: the thin state machine that ties extraction
//! and validation to a claim record.
//!
//! Extraction drives a claim from any prior state through
//! `Processing` to `Processed` and overwrites its extracted data;
//! validation leaves the status alone but overwrites the findings
//! and the queue.  Results are recomputed whole on every run, never
//! merged, so re-running a stage on the same text is idempotent up
//! to the freshly drawn finding identifiers.  Timestamps come from
//! the caller.

use vstd::prelude::*;
use crate::parser::{spec_extract, ClaimParser};
use crate::router::{route, spec_route};
use crate::rules::{spec_findings, RulesEngine};
use crate::types::{
    Claim, ClaimStatus, ExtractedData, ExtractionView, QueueType, ValidationResult,
};

verus! {

/// The extracted field set of a claim that nothing has been
/// recovered into yet.
pub open spec fn blank_extraction() -> ExtractionView {
    ExtractionView {
        payer: None,
        patient_name: None,
        patient_id: None,
        cpt_codes: Seq::empty(),
        modifiers: Seq::empty(),
        charges: Seq::empty(),
        dates: Seq::empty(),
        provider_name: None,
        provider_npi: None,
        diagnosis_codes: Seq::empty(),
        raw_text: Seq::empty(),
    }
}

impl ExtractedData {
    /// An empty field set, for a claim that has not been processed.
    pub fn blank() -> (r: ExtractedData)
        ensures
            r@ == blank_extraction(),
    {
        let r = ExtractedData {
            payer: None,
            patient_name: None,
            patient_id: None,
            cpt_codes: Vec::new(),
            modifiers: Vec::new(),
            charges: Vec::new(),
            dates: Vec::new(),
            provider_name: None,
            provider_npi: None,
            diagnosis_codes: Vec::new(),
            raw_text: String::new(),
        };
        proof {
            assert(r@.cpt_codes =~= blank_extraction().cpt_codes);
            assert(r@.modifiers =~= blank_extraction().modifiers);
            assert(r@.charges =~= blank_extraction().charges);
            assert(r@.dates =~= blank_extraction().dates);
            assert(r@.diagnosis_codes =~= blank_extraction().diagnosis_codes);
        }
        r
    }
}

impl Claim {
    /// A freshly uploaded claim: empty extraction and findings, and a
    /// provisional queue placement that validation will overwrite.
    pub fn new_uploaded(id: u128, filename: String, file_path: String, now: u64) -> (c: Claim)
        ensures
            c.id == id,
            c.filename == filename,
            c.file_path == file_path,
            c.status == ClaimStatus::Uploaded,
            c.extracted_data@ == blank_extraction(),
            c.validation_results@.len() == 0,
            c.queue == QueueType::CriticalErrors,
            c.assigned_to is None,
            c.created_at == now,
            c.updated_at == now,
            c.comments@.len() == 0,
    {
        Claim {
            id,
            filename,
            file_path,
            status: ClaimStatus::Uploaded,
            extracted_data: ExtractedData::blank(),
            validation_results: Vec::new(),
            queue: QueueType::CriticalErrors,
            assigned_to: None,
            created_at: now,
            updated_at: now,
            comments: Vec::new(),
        }
    }

    /// Marks the claim as being processed.  Only the status and the
    /// modification timestamp change.
    pub fn begin_processing(&mut self, now: u64)
        ensures
            final(self).status == ClaimStatus::Processing,
            final(self).updated_at == now,
            final(self).id == old(self).id,
            final(self).filename == old(self).filename,
            final(self).file_path == old(self).file_path,
            final(self).extracted_data == old(self).extracted_data,
            final(self).validation_results == old(self).validation_results,
            final(self).queue == old(self).queue,
            final(self).assigned_to == old(self).assigned_to,
            final(self).created_at == old(self).created_at,
            final(self).comments == old(self).comments,
    {
        self.status = ClaimStatus::Processing;
        self.updated_at = now;
    }

    /// Runs extraction over the claim's document text: overwrites the
    /// extracted data whole and moves the claim to `Processed`.
    pub fn finish_processing(&mut self, text: &str, now: u64)
        ensures
            final(self).status == ClaimStatus::Processed,
            final(self).updated_at == now,
            final(self).extracted_data@ == spec_extract(text@),
            final(self).id == old(self).id,
            final(self).filename == old(self).filename,
            final(self).file_path == old(self).file_path,
            final(self).validation_results == old(self).validation_results,
            final(self).queue == old(self).queue,
            final(self).assigned_to == old(self).assigned_to,
            final(self).created_at == old(self).created_at,
            final(self).comments == old(self).comments,
    {
        let parser = ClaimParser::new();
        self.extracted_data = parser.parse_text(text);
        self.status = ClaimStatus::Processed;
        self.updated_at = now;
    }

    /// Runs validation over the claim's extracted data: overwrites
    /// the findings and the queue placement whole.  The status does
    /// not change.
    pub fn apply_validation(&mut self, now: u64)
        ensures
            final(self).validation_results@.map_values(|f: ValidationResult| f.content())
                == spec_findings(old(self).extracted_data@),
            final(self).queue == spec_route(spec_findings(old(self).extracted_data@)),
            final(self).updated_at == now,
            final(self).status == old(self).status,
            final(self).id == old(self).id,
            final(self).filename == old(self).filename,
            final(self).file_path == old(self).file_path,
            final(self).extracted_data == old(self).extracted_data,
            final(self).assigned_to == old(self).assigned_to,
            final(self).created_at == old(self).created_at,
            final(self).comments == old(self).comments,
    {
        let engine = RulesEngine::new();
        let results = engine.validate_claim(self);
        let queue = route(&results);
        self.validation_results = results;
        self.queue = queue;
        self.updated_at = now;
    }
}

} // verus!

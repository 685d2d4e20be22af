//! Push-to-talk transcription: which speech-to-text tier runs.
//!
//! Cloud runs first when the user opted into it: Groq, then OpenAI when
//! Groq has no key. Any cloud failure degrades to the on-device model, so
//! transcription works offline. The overlay sees only the transcript and
//! where it came from. The recordings and the calls themselves are handled
//! around this module; here each next step is decided.
use crate::cortex::stt_cloud::{CloudSttError, CloudSttProvider};
use crate::cortex::stt_local::LocalSttError;
use crate::text::joined;
use vstd::prelude::*;

verus! {

/// The transcript the overlay renders, and which tier produced it.
#[derive(Debug, Clone)]
pub struct TranscriptionResult {
    pub transcript: String,
    pub source: String,
}

/// Errors of the pipeline, from either tier.
#[derive(Debug)]
pub enum PipelineError {
    Local(LocalSttError),
    Cloud(CloudSttError),
}

impl PipelineError {
    /// The displayed text of the error.
    pub open spec fn spec_message(self) -> Seq<char> {
        match self {
            PipelineError::Local(e) => e.spec_message(),
            PipelineError::Cloud(e) => e.spec_message(),
        }
    }

    /// The displayed text of the error.
    pub fn message(&self) -> (r: String)
        ensures
            r@ == self.spec_message(),
    {
        match self {
            PipelineError::Local(e) => e.message(),
            PipelineError::Cloud(e) => e.message(),
        }
    }
}

impl From<LocalSttError> for PipelineError {
    fn from(error: LocalSttError) -> (r: Self) {
        PipelineError::Local(error)
    }
}

impl vstd::std_specs::convert::FromSpecImpl<LocalSttError> for PipelineError {
    open spec fn obeys_from_spec() -> bool {
        true
    }

    open spec fn from_spec(error: LocalSttError) -> Self {
        PipelineError::Local(error)
    }
}

impl From<CloudSttError> for PipelineError {
    fn from(error: CloudSttError) -> (r: Self) {
        PipelineError::Cloud(error)
    }
}

impl vstd::std_specs::convert::FromSpecImpl<CloudSttError> for PipelineError {
    open spec fn obeys_from_spec() -> bool {
        true
    }

    open spec fn from_spec(error: CloudSttError) -> Self {
        PipelineError::Cloud(error)
    }
}

/// The next step of a transcription.
#[derive(Debug, Clone)]
pub enum SttStep {
    /// Ask this cloud provider.
    TryCloud(CloudSttProvider),
    /// Transcribe on-device.
    RunLocal,
    /// Done.
    Finished(TranscriptionResult),
}

/// The first step: Groq when the user prefers the cloud, the on-device
/// model otherwise.
pub fn first_stt_step(prefer_cloud: bool) -> (r: SttStep)
    ensures
        prefer_cloud ==> (r matches SttStep::TryCloud(p) && p == CloudSttProvider::Groq),
        !prefer_cloud ==> (r is RunLocal),
{
    if prefer_cloud {
        SttStep::TryCloud(CloudSttProvider::Groq)
    } else {
        SttStep::RunLocal
    }
}

/// The step after asking a cloud provider: its transcript finishes the
/// request, a missing key moves on to the next provider (OpenAI after
/// Groq, then the device), and any other failure goes to the device.
pub fn after_cloud_attempt(provider: CloudSttProvider, outcome: Result<String, CloudSttError>) -> (r:
    SttStep)
    ensures
        match outcome {
            Ok(transcript) => r matches SttStep::Finished(result) && result.transcript@
                == transcript@ && result.source@ == "cloud:"@ + provider.spec_name(),
            Err(CloudSttError::NoApiKeyConfigured(_)) => if provider == CloudSttProvider::Groq {
                r matches SttStep::TryCloud(p) && p == CloudSttProvider::OpenAi
            } else {
                r is RunLocal
            },
            Err(_) => r is RunLocal,
        },
{
    match outcome {
        Ok(transcript) => SttStep::Finished(
            TranscriptionResult { transcript, source: joined("cloud:", provider.name()) },
        ),
        Err(CloudSttError::NoApiKeyConfigured(_)) => match provider {
            CloudSttProvider::Groq => SttStep::TryCloud(CloudSttProvider::OpenAi),
            CloudSttProvider::OpenAi => SttStep::RunLocal,
        },
        Err(_) => SttStep::RunLocal,
    }
}

/// The result of an on-device transcription.
pub fn local_transcription(transcript: String) -> (r: TranscriptionResult)
    ensures
        r.transcript@ == transcript@,
        r.source@ == "local:whisper-rs"@,
{
    TranscriptionResult { transcript, source: String::from_str("local:whisper-rs") }
}

} // verus!

//! On-device speech-to-text with a whisper model.
//!
//! The model is not bundled: it is downloaded once into the data directory
//! and reused. Recordings are bounded push-to-talk sessions. Running the
//! model, resampling the floating-point audio and the download itself
//! happen around this module; here the paths, the recording bounds and the
//! assembly of the transcript are decided.
use crate::text::{join_trimmed_nonblank, join_with, joined, joined_path, path_join, trimmed_nonblank};
use vstd::prelude::*;

verus! {

/// The whisper.cpp model repository.
pub const WHISPER_MODEL_HOST: &'static str = "https://huggingface.co/ggerganov/whisper.cpp/resolve/main";

/// The on-device model file.
pub const DEFAULT_MODEL_FILE: &'static str = "ggml-base.bin";

/// Longest accepted recording, in seconds; longer ones are refused rather
/// than truncated.
pub const MAX_RECORDING_SECONDS: u32 = 60;

/// The sample rate whisper works at.
pub const WHISPER_SAMPLE_RATE: u32 = 16_000;

/// A model file this small is a leftover of an interrupted download.
pub const MIN_MODEL_BYTES: u64 = 1024;

/// Errors raised by on-device transcription.
#[derive(Debug)]
pub enum LocalSttError {
    ModelDownload(String),
    /// The recording exceeded the limit, in seconds.
    TooLong(u32),
    EmptyAudio,
    Transcription(String),
}

impl LocalSttError {
    /// The displayed text of the error.
    pub open spec fn spec_message(self) -> Seq<char> {
        match self {
            LocalSttError::ModelDownload(d) => "could not download the whisper model: "@ + d@,
            LocalSttError::TooLong(limit) => "recording exceeded the "@ + (
            crate::text::decimal_text(limit as nat) + " second push-to-talk limit"@),
            LocalSttError::EmptyAudio => "the audio payload contains no samples"@,
            LocalSttError::Transcription(d) => "local transcription failed: "@ + d@,
        }
    }

    /// The displayed text of the error.
    pub fn message(&self) -> (r: String)
        ensures
            r@ == self.spec_message(),
    {
        match self {
            LocalSttError::ModelDownload(d) => joined(
                "could not download the whisper model: ",
                d.as_str(),
            ),
            LocalSttError::TooLong(limit) => {
                let seconds = crate::text::decimal(*limit as u64);
                let tail = joined(seconds.as_str(), " second push-to-talk limit");
                joined("recording exceeded the ", tail.as_str())
            },
            LocalSttError::EmptyAudio => String::from_str("the audio payload contains no samples"),
            LocalSttError::Transcription(d) => joined("local transcription failed: ", d.as_str()),
        }
    }
}

/// Where the model lives: `whisper/ggml-base.bin` under the data directory.
pub fn model_path(data_dir: &str) -> (r: String)
    ensures
        r@ == joined_path(joined_path(data_dir@, "whisper"@), DEFAULT_MODEL_FILE@),
{
    let directory = path_join(data_dir, "whisper");
    path_join(directory.as_str(), DEFAULT_MODEL_FILE)
}

/// The URL the model is downloaded from.
pub fn model_url() -> (r: String)
    ensures
        r@ == WHISPER_MODEL_HOST@ + ("/"@ + DEFAULT_MODEL_FILE@),
{
    let tail = joined("/", DEFAULT_MODEL_FILE);
    joined(WHISPER_MODEL_HOST, tail.as_str())
}

/// A usable model is on disk: a file at the model path larger than a
/// leftover stub. `model_size` is the size of that file, if it exists.
pub fn is_model_available(model_size: Option<u64>) -> (r: bool)
    ensures
        r == (model_size matches Some(n) && n > MIN_MODEL_BYTES),
{
    match model_size {
        Some(n) => n > MIN_MODEL_BYTES,
        None => false,
    }
}

/// Checks a 16 kHz recording of `sample_count` samples before it is
/// transcribed: it must hold samples and last at most 60 seconds.
pub fn check_recording(sample_count: usize) -> (r: Result<(), LocalSttError>)
    ensures
        sample_count == 0 ==> (r matches Err(LocalSttError::EmptyAudio)),
        sample_count > 0 && sample_count > MAX_RECORDING_SECONDS * WHISPER_SAMPLE_RATE ==> (r matches Err(
            LocalSttError::TooLong(limit),
        ) && limit == MAX_RECORDING_SECONDS),
        0 < sample_count <= MAX_RECORDING_SECONDS * WHISPER_SAMPLE_RATE ==> r is Ok,
{
    if sample_count == 0 {
        return Err(LocalSttError::EmptyAudio);
    }
    if sample_count as u64 > (MAX_RECORDING_SECONDS as u64) * (WHISPER_SAMPLE_RATE as u64) {
        return Err(LocalSttError::TooLong(MAX_RECORDING_SECONDS));
    }
    Ok(())
}

/// Assembles the transcript from the model's segments: each trimmed, blank
/// ones dropped, separated by single spaces.
pub fn join_segments(segments: &Vec<String>) -> (r: String)
    ensures
        r@ == join_with(trimmed_nonblank(segments@), " "@),
{
    join_trimmed_nonblank(segments, " ")
}

} // verus!

//! Optional cloud speech-to-text: Groq's free Whisper API first, OpenAI's
//! as the paid fallback.
//!
//! The audio is the only data that leaves the machine on this path, packed
//! as a 16-bit PCM WAV file in a multipart upload; the key travels only in
//! the authorization header. The upload itself, and the conversion of the
//! floating-point samples, happen around this module; here the provider is
//! parsed, the key chosen, the WAV header and the multipart body built, and
//! the replies interpreted.
use crate::text::{
    decimal, decimal_text, joined, spec_unicode_lowercase, trim_text, trimmed, unicode_lowercase,
};
use crate::bytes::{append_bytes, copy_bytes};
use vstd::prelude::*;
use vstd::utf8::encode_utf8;

verus! {

/// Groq's free Whisper endpoint.
pub const GROQ_TRANSCRIBE_URL: &'static str = "https://api.groq.com/openai/v1/audio/transcriptions";

/// OpenAI's Whisper endpoint.
pub const OPENAI_TRANSCRIBE_URL: &'static str = "https://api.openai.com/v1/audio/transcriptions";

/// A cloud speech-to-text provider.
#[derive(Debug, Clone, Copy, PartialEq, Eq, Structural)]
pub enum CloudSttProvider {
    Groq,
    OpenAi,
}

impl CloudSttProvider {
    pub open spec fn spec_name(self) -> Seq<char> {
        match self {
            CloudSttProvider::Groq => "groq"@,
            CloudSttProvider::OpenAi => "openai"@,
        }
    }

    /// The provider's name: `groq` or `openai`.
    pub fn name(&self) -> (r: &'static str)
        ensures
            r@ == self.spec_name(),
    {
        match self {
            CloudSttProvider::Groq => "groq",
            CloudSttProvider::OpenAi => "openai",
        }
    }

    /// The provider's transcription endpoint.
    pub fn transcribe_url(&self) -> (r: &'static str)
        ensures
            *self == CloudSttProvider::Groq ==> r@ == GROQ_TRANSCRIBE_URL@,
            *self == CloudSttProvider::OpenAi ==> r@ == OPENAI_TRANSCRIBE_URL@,
    {
        match self {
            CloudSttProvider::Groq => GROQ_TRANSCRIBE_URL,
            CloudSttProvider::OpenAi => OPENAI_TRANSCRIBE_URL,
        }
    }

    /// `r` is what parsing the provider name `value` gives: the provider
    /// whose name the trimmed, lower-cased text is, or the refusal that
    /// quotes that text.
    pub open spec fn parses_to(value: Seq<char>, r: Result<CloudSttProvider, String>) -> bool {
        let lower = spec_unicode_lowercase(trimmed(value));
        if lower == "groq"@ {
            r == Ok::<CloudSttProvider, String>(CloudSttProvider::Groq)
        } else if lower == "openai"@ {
            r == Ok::<CloudSttProvider, String>(CloudSttProvider::OpenAi)
        } else {
            r matches Err(m) && m@ == "unsupported cloud STT provider: "@ + lower
        }
    }

    /// Parses a provider name, ignoring surrounding white space and case.
    pub fn parse(value: &str) -> (r: Result<CloudSttProvider, String>)
        ensures
            CloudSttProvider::parses_to(value@, r),
    {
        let trimmed_value = trim_text(value);
        let lower = unicode_lowercase(trimmed_value.as_str());
        if crate::text::same_text(lower.as_str(), "groq") {
            Ok(CloudSttProvider::Groq)
        } else if crate::text::same_text(lower.as_str(), "openai") {
            Ok(CloudSttProvider::OpenAi)
        } else {
            Err(joined("unsupported cloud STT provider: ", lower.as_str()))
        }
    }
}

impl std::str::FromStr for CloudSttProvider {
    type Err = String;

    fn from_str(value: &str) -> (r: Result<CloudSttProvider, String>)
        ensures
            CloudSttProvider::parses_to(value@, r),
    {
        CloudSttProvider::parse(value)
    }
}

/// Errors raised by cloud speech-to-text.
#[derive(Debug)]
pub enum CloudSttError {
    NoApiKeyConfigured(CloudSttProvider),
    RequestFailed(CloudSttProvider, String),
    UnexpectedResponse(CloudSttProvider, String),
    ProviderUnreachable(CloudSttProvider),
}

impl CloudSttError {
    /// The displayed text of the error.
    pub open spec fn spec_message(self) -> Seq<char> {
        match self {
            CloudSttError::NoApiKeyConfigured(p) => "no "@ + (p.spec_name()
                + " API key configured; cloud speech-to-text is disabled"@),
            CloudSttError::RequestFailed(p, d) => p.spec_name() + (" transcription request failed: "@
                + d@),
            CloudSttError::UnexpectedResponse(p, d) => p.spec_name() + (
            " returned an unparseable response: "@ + d@),
            CloudSttError::ProviderUnreachable(p) => "the "@ + (p.spec_name()
                + " service could not be reached; check your connection"@),
        }
    }

    /// The displayed text of the error.
    pub fn message(&self) -> (r: String)
        ensures
            r@ == self.spec_message(),
    {
        match self {
            CloudSttError::NoApiKeyConfigured(p) => {
                let tail = joined(p.name(), " API key configured; cloud speech-to-text is disabled");
                joined("no ", tail.as_str())
            },
            CloudSttError::RequestFailed(p, d) => {
                let tail = joined(" transcription request failed: ", d.as_str());
                joined(p.name(), tail.as_str())
            },
            CloudSttError::UnexpectedResponse(p, d) => {
                let tail = joined(" returned an unparseable response: ", d.as_str());
                joined(p.name(), tail.as_str())
            },
            CloudSttError::ProviderUnreachable(p) => {
                let tail = joined(
                    p.name(),
                    " service could not be reached; check your connection",
                );
                joined("the ", tail.as_str())
            },
        }
    }
}

/// The body of a successful transcription reply.
#[derive(Debug, Clone)]
pub struct TranscriptionResponse {
    pub text: String,
}

/// The transcript a successful reply carries, trimmed.
pub fn transcript_text(response: &TranscriptionResponse) -> (r: String)
    ensures
        r@ == trimmed(response.text@),
{
    trim_text(response.text.as_str())
}

/// The error for a reply with a failure status: its body when it could be
/// read, else the status code.
pub fn status_failure(provider: CloudSttProvider, code: u16, body: Option<String>) -> (r:
    CloudSttError)
    ensures
        match body {
            Some(b) => r matches CloudSttError::RequestFailed(p, d) && p == provider && d@ == b@,
            None => r matches CloudSttError::RequestFailed(p, d) && p == provider && d@ == "HTTP "@
                + decimal_text(code as nat),
        },
{
    match body {
        Some(text) => CloudSttError::RequestFailed(provider, text),
        None => {
            let digits = decimal(code as u64);
            CloudSttError::RequestFailed(provider, joined("HTTP ", digits.as_str()))
        },
    }
}

/// The providers a cloud transcription tries, in order, each with its key:
/// Groq first whenever its key is set (non-empty), then OpenAI when its key
/// is set too.
pub open spec fn configured_attempts(groq_key: Option<&str>, openai_key: Option<&str>) -> Seq<
    (CloudSttProvider, Seq<char>),
> {
    let groq: Seq<(CloudSttProvider, Seq<char>)> = match groq_key {
        Some(k) => if k@.len() > 0 {
            seq![(CloudSttProvider::Groq, k@)]
        } else {
            Seq::empty()
        },
        None => Seq::empty(),
    };
    let openai: Seq<(CloudSttProvider, Seq<char>)> = match openai_key {
        Some(k) => if k@.len() > 0 {
            seq![(CloudSttProvider::OpenAi, k@)]
        } else {
            Seq::empty()
        },
        None => Seq::empty(),
    };
    groq + openai
}

/// Plans a cloud transcription: the providers to try, in order, with their
/// keys. An empty recording is refused first, in the name of the requested
/// provider; with no key set at all, the requested provider reports that it
/// has none.
pub fn cloud_stt_attempts(
    sample_count: usize,
    provider: CloudSttProvider,
    groq_key: Option<&str>,
    openai_key: Option<&str>,
) -> (r: Result<Vec<(CloudSttProvider, String)>, CloudSttError>)
    ensures
        sample_count == 0 ==> (r matches Err(CloudSttError::RequestFailed(p, d)) && p == provider
            && d@ == "the audio payload contains no samples"@),
        sample_count > 0 && configured_attempts(groq_key, openai_key).len() == 0 ==> (r matches Err(
            CloudSttError::NoApiKeyConfigured(p),
        ) && p == provider),
        sample_count > 0 && configured_attempts(groq_key, openai_key).len() > 0 ==> (r matches Ok(
            attempts,
        ) && attempts@.len() == configured_attempts(groq_key, openai_key).len() && forall|i: int|
            0 <= i < attempts@.len() ==> (#[trigger] attempts@[i]).0 == configured_attempts(
                groq_key,
                openai_key,
            )[i].0 && attempts@[i].1@ == configured_attempts(groq_key, openai_key)[i].1),
{
    if sample_count == 0 {
        return Err(
            CloudSttError::RequestFailed(
                provider,
                String::from_str("the audio payload contains no samples"),
            ),
        );
    }
    let mut attempts: Vec<(CloudSttProvider, String)> = Vec::new();
    if let Some(k) = groq_key {
        if !k.is_empty() {
            attempts.push((CloudSttProvider::Groq, String::from_str(k)));
        }
    }
    if let Some(k) = openai_key {
        if !k.is_empty() {
            attempts.push((CloudSttProvider::OpenAi, String::from_str(k)));
        }
    }
    if attempts.len() == 0 {
        return Err(CloudSttError::NoApiKeyConfigured(provider));
    }
    Ok(attempts)
}

/// What a cloud transcription does after one provider answered.
pub enum CloudAttempt {
    /// Ask the next provider; the first failure so far is kept.
    Next(CloudSttError),
    /// The transcription is over, with this result.
    Done(Result<String, CloudSttError>),
}

/// The step after one provider answered: a transcript ends the
/// transcription; a failure moves on to the next provider when there is
/// one, and otherwise ends it with the first failure met.
pub fn after_provider_attempt(
    first_failure: Option<CloudSttError>,
    outcome: Result<String, CloudSttError>,
    more_providers: bool,
) -> (r: CloudAttempt)
    ensures
        match outcome {
            Ok(transcript) => r matches CloudAttempt::Done(Ok(t)) && t@ == transcript@,
            Err(e) => {
                let first = match first_failure {
                    Some(f) => f,
                    None => e,
                };
                if more_providers {
                    r == CloudAttempt::Next(first)
                } else {
                    r == CloudAttempt::Done(Err::<String, CloudSttError>(first))
                }
            },
        },
{
    match outcome {
        Ok(transcript) => CloudAttempt::Done(Ok(transcript)),
        Err(e) => {
            let first = match first_failure {
                Some(f) => f,
                None => e,
            };
            if more_providers {
                CloudAttempt::Next(first)
            } else {
                CloudAttempt::Done(Err(first))
            }
        },
    }
}

/// The four little-endian bytes of a 32-bit value.
pub open spec fn le32(v: u32) -> Seq<u8> {
    seq![(v % 256) as u8, ((v / 256) % 256) as u8, ((v / 65536) % 256) as u8, (v / 16777216) as u8]
}

/// The two little-endian bytes of a 16-bit value.
pub open spec fn le16(v: u16) -> Seq<u8> {
    seq![(v % 256) as u8, (v / 256) as u8]
}

/// The 44-byte header of a mono 16-bit PCM WAV file holding `data_length`
/// bytes of samples at `sample_rate`.
pub open spec fn wav_header_bytes(data_length: u32, sample_rate: u32) -> Seq<u8> {
    seq![82u8, 73, 70, 70] + le32((36 + data_length) as u32) + seq![87u8, 65, 86, 69] + seq![
        102u8,
        109,
        116,
        32,
    ] + le32(16) + le16(1) + le16(1) + le32(sample_rate) + le32((sample_rate * 2) as u32) + le16(
        2,
    ) + le16(16) + seq![100u8, 97, 116, 97] + le32(data_length)
}

/// The value of the little-endian 16-bit field at `at`.
pub open spec fn field16(bytes: Seq<u8>, at: int) -> int {
    bytes[at] + 256 * bytes[at + 1]
}

/// The value of the little-endian 32-bit field at `at`.
pub open spec fn field32(bytes: Seq<u8>, at: int) -> int {
    bytes[at] + 256 * bytes[at + 1] + 65536 * bytes[at + 2] + 16777216 * bytes[at + 3]
}

/// The four ASCII bytes of a chunk tag at `at`.
pub open spec fn tag_at(bytes: Seq<u8>, at: int) -> Seq<u8> {
    bytes.subrange(at, at + 4)
}

proof fn lemma_le32_reads_back(v: u32)
    ensures
        le32(v)[0] + 256 * le32(v)[1] + 65536 * le32(v)[2] + 16777216 * le32(v)[3] == v,
{
    let x = v as int;
    assert(x % 256 + 256 * ((x / 256) % 256) + 65536 * ((x / 65536) % 256) + 16777216 * (x
        / 16777216) == x) by (nonlinear_arith)
        requires
            0 <= x < 0x1_0000_0000,
    ;
}

proof fn lemma_le16_reads_back(v: u16)
    ensures
        le16(v)[0] + 256 * le16(v)[1] == v,
{
}

/// The header of `sample_count` 16-bit mono samples at `sample_rate` is
/// the canonical PCM WAV header: "RIFF", the length of the rest of the
/// file, "WAVE", a 16-byte "fmt " chunk declaring PCM (format 1), one
/// channel, the sample rate, a byte rate of rate x block align, a block
/// align of channels x 16 bits / 8 = 2 bytes, 16 bits per sample, and then
/// "data" with the samples' byte length, 2 per sample.
pub proof fn lemma_wav_header_is_canonical_pcm(sample_count: nat, sample_rate: u32)
    requires
        2 * sample_count + 36 <= u32::MAX,
        sample_rate * 16 <= u32::MAX,
    ensures
        ({
            let h = wav_header_bytes((2 * sample_count) as u32, sample_rate);
            &&& h.len() == 44
            &&& tag_at(h, 0) == seq![82u8, 73, 70, 70]
            &&& field32(h, 4) == 36 + 2 * sample_count
            &&& tag_at(h, 8) == seq![87u8, 65, 86, 69]
            &&& tag_at(h, 12) == seq![102u8, 109, 116, 32]
            &&& field32(h, 16) == 16
            &&& field16(h, 20) == 1
            &&& field16(h, 22) == 1
            &&& field32(h, 24) == sample_rate
            &&& field16(h, 34) == 16
            &&& field16(h, 32) == field16(h, 22) * field16(h, 34) / 8
            &&& field32(h, 28) == sample_rate * field16(h, 32)
            &&& tag_at(h, 36) == seq![100u8, 97, 116, 97]
            &&& field32(h, 40) == 2 * sample_count
        }),
{
    let data_length = (2 * sample_count) as u32;
    let h = wav_header_bytes(data_length, sample_rate);
    lemma_le32_reads_back((36 + data_length) as u32);
    lemma_le32_reads_back(16);
    lemma_le32_reads_back(sample_rate);
    lemma_le32_reads_back((sample_rate * 2) as u32);
    lemma_le32_reads_back(data_length);
    lemma_le16_reads_back(1);
    lemma_le16_reads_back(2);
    lemma_le16_reads_back(16);
    assert(tag_at(h, 0) =~= seq![82u8, 73, 70, 70]);
    assert(tag_at(h, 8) =~= seq![87u8, 65, 86, 69]);
    assert(tag_at(h, 12) =~= seq![102u8, 109, 116, 32]);
    assert(tag_at(h, 36) =~= seq![100u8, 97, 116, 97]);
}

fn push_le32(buffer: &mut Vec<u8>, v: u32)
    ensures
        final(buffer)@ == old(buffer)@ + le32(v),
{
    buffer.push((v % 256) as u8);
    buffer.push(((v / 256) % 256) as u8);
    buffer.push(((v / 65536) % 256) as u8);
    buffer.push((v / 16777216) as u8);
    assert(buffer@ =~= old(buffer)@ + le32(v));
}

fn push_le16(buffer: &mut Vec<u8>, v: u16)
    ensures
        final(buffer)@ == old(buffer)@ + le16(v),
{
    buffer.push((v % 256) as u8);
    buffer.push((v / 256) as u8);
    assert(buffer@ =~= old(buffer)@ + le16(v));
}

fn push_tag(buffer: &mut Vec<u8>, a: u8, b: u8, c: u8, d: u8)
    ensures
        final(buffer)@ == old(buffer)@ + seq![a, b, c, d],
{
    buffer.push(a);
    buffer.push(b);
    buffer.push(c);
    buffer.push(d);
    assert(buffer@ =~= old(buffer)@ + seq![a, b, c, d]);
}

/// The RIFF/WAVE header for `sample_count` 16-bit mono samples at
/// `sample_rate`: "RIFF", the file length after this field, "WAVE", the
/// PCM format chunk, then "data" and the length of the samples.
pub fn wav_header(sample_count: usize, sample_rate: u32) -> (r: Vec<u8>)
    requires
        2 * sample_count + 36 <= u32::MAX,
        sample_rate * 16 <= u32::MAX,
    ensures
        r@ == wav_header_bytes((2 * sample_count) as u32, sample_rate),
        r@.len() == 44,
{
    let data_length: u32 = (sample_count * 2) as u32;
    let mut buffer: Vec<u8> = Vec::new();
    push_tag(&mut buffer, 82, 73, 70, 70);
    push_le32(&mut buffer, 36 + data_length);
    push_tag(&mut buffer, 87, 65, 86, 69);
    push_tag(&mut buffer, 102, 109, 116, 32);
    push_le32(&mut buffer, 16);
    push_le16(&mut buffer, 1);
    push_le16(&mut buffer, 1);
    push_le32(&mut buffer, sample_rate);
    push_le32(&mut buffer, sample_rate * 2);
    push_le16(&mut buffer, 2);
    push_le16(&mut buffer, 16);
    push_tag(&mut buffer, 100, 97, 116, 97);
    push_le32(&mut buffer, data_length);
    assert(buffer@ =~= wav_header_bytes(data_length, sample_rate));
    buffer
}

/// The header text of one multipart form part.
pub open spec fn part_head(
    boundary: Seq<char>,
    name: Seq<char>,
    filename: Option<Seq<char>>,
    content_type: Option<Seq<char>>,
) -> Seq<char> {
    let disposition = "--"@ + boundary + "\r\n"@ + "Content-Disposition: form-data; name=\""@ + name
        + "\""@;
    let with_file = match filename {
        Some(f) => disposition + "; filename=\""@ + f + "\""@,
        None => disposition,
    };
    let with_type = match content_type {
        Some(t) => with_file + "\r\n"@ + "Content-Type: "@ + t + "\r\n"@,
        None => with_file + "\r\n"@,
    };
    with_type + "\r\n"@
}

/// The bytes of one multipart form part.
pub open spec fn part_bytes(
    boundary: Seq<char>,
    name: Seq<char>,
    filename: Option<Seq<char>>,
    content_type: Option<Seq<char>>,
    body: Seq<u8>,
) -> Seq<u8> {
    encode_utf8(part_head(boundary, name, filename, content_type)) + body + encode_utf8("\r\n"@)
}

/// The bytes of a text.
fn text_bytes(text: &str) -> (r: Vec<u8>)
    ensures
        r@ == encode_utf8(text@),
{
    let bytes = text.as_bytes();
    copy_bytes(bytes, 0, bytes.len())
}

/// Appends one form part to the body.
fn write_part(
    buffer: &mut Vec<u8>,
    boundary: &str,
    name: &str,
    filename: Option<&str>,
    content_type: Option<&str>,
    body: &[u8],
)
    ensures
        final(buffer)@ == old(buffer)@ + part_bytes(
            boundary@,
            name@,
            match filename {
                Some(f) => Some(f@),
                None => None,
            },
            match content_type {
                Some(t) => Some(t@),
                None => None,
            },
            body@,
        ),
{
    let mut head = joined("--", boundary);
    head = joined(head.as_str(), "\r\n");
    head = joined(head.as_str(), "Content-Disposition: form-data; name=\"");
    head = joined(head.as_str(), name);
    head = joined(head.as_str(), "\"");
    if let Some(f) = filename {
        head = joined(head.as_str(), "; filename=\"");
        head = joined(head.as_str(), f);
        head = joined(head.as_str(), "\"");
    }
    head = joined(head.as_str(), "\r\n");
    if let Some(t) = content_type {
        head = joined(head.as_str(), "Content-Type: ");
        head = joined(head.as_str(), t);
        head = joined(head.as_str(), "\r\n");
    }
    head = joined(head.as_str(), "\r\n");
    let head_bytes = text_bytes(head.as_str());
    let end_bytes = text_bytes("\r\n");
    append_bytes(buffer, head_bytes.as_slice());
    append_bytes(buffer, body);
    append_bytes(buffer, end_bytes.as_slice());
    assert(buffer@ =~= old(buffer)@ + part_bytes(
        boundary@,
        name@,
        match filename {
            Some(f) => Some(f@),
            None => None,
        },
        match content_type {
            Some(t) => Some(t@),
            None => None,
        },
        body@,
    ));
}

/// The multipart body of a transcription upload: the model, the WAV file
/// and the language, then the closing boundary.
pub fn multipart_body(boundary: &str, wav: &[u8]) -> (r: Vec<u8>)
    ensures
        r@ == part_bytes(boundary@, "model"@, None, None, encode_utf8("whisper-1"@)) + part_bytes(
            boundary@,
            "file"@,
            Some("voice.wav"@),
            Some("audio/wav"@),
            wav@,
        ) + part_bytes(boundary@, "language"@, None, None, encode_utf8("en"@)) + encode_utf8(
            "--"@ + boundary@ + "--\r\n"@,
        ),
{
    let mut body: Vec<u8> = Vec::new();
    let model = text_bytes("whisper-1");
    let language = text_bytes("en");
    write_part(&mut body, boundary, "model", None, None, model.as_slice());
    write_part(&mut body, boundary, "file", Some("voice.wav"), Some("audio/wav"), wav);
    write_part(&mut body, boundary, "language", None, None, language.as_slice());
    let closing_head = joined("--", boundary);
    let closing = joined(closing_head.as_str(), "--\r\n");
    let closing_bytes = text_bytes(closing.as_str());
    append_bytes(&mut body, closing_bytes.as_slice());
    assert(body@ =~= part_bytes(boundary@, "model"@, None, None, encode_utf8("whisper-1"@))
        + part_bytes(boundary@, "file"@, Some("voice.wav"@), Some("audio/wav"@), wav@)
        + part_bytes(boundary@, "language"@, None, None, encode_utf8("en"@)) + encode_utf8(
        "--"@ + boundary@ + "--\r\n"@,
    ));
    body
}

/// The content type of a multipart upload with this boundary.
pub fn multipart_content_type(boundary: &str) -> (r: String)
    ensures
        r@ == "multipart/form-data; boundary="@ + boundary@,
{
    joined("multipart/form-data; boundary=", boundary)
}

} // verus!

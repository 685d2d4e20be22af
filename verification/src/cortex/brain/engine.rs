//! The brain engine: tier resolution for one request.
//!
//! | mode  | cloud key  | ollama      | tier          |
//! |-------|------------|-------------|---------------|
//! | auto  | configured | —           | cloud         |
//! | auto  | —          | reachable   | local         |
//! | auto  | —          | unreachable | deterministic |
//! | local | —          | reachable   | local         |
//! | cloud | configured | —           | cloud         |
//!
//! Every path that fails degrades to the next tier and ends, at the
//! latest, on the deterministic floor: a request never dead-ends. The
//! remote calls happen outside: [`begin_intent`] and [`execute_intent`]
//! decide, from the settings and from what each call returned, which call
//! comes next or what the answer is.
use crate::cortex::brain::cloud::{chat_request, CloudBrainError, CloudChatRequest, CloudProviderKind, prompt_with_context, CLOUD_SYSTEM_PROMPT};
use crate::cortex::brain::deterministic::{
    floor_reply_text, intent_of, normalized_transcript, parse_intent, run_floor,
    DeterministicIntent,
};
use crate::cortex::brain::local::{
    trim_trailing_slashes,
    local_system_content, ollama_url, ollama_url_text, LocalBrainError, OllamaReachability,
    LOCAL_SYSTEM_PROMPT,
};
use crate::cortex::settings::store::{
    opened_secret, provider_secret, AssistantSettings, BrainMode, CloudProvider, MaybeSealed,
    SettingsStore,
};
use crate::text::{is_blank, join_trimmed_nonblank, join_with, joined, trimmed_nonblank};
use vstd::prelude::*;

verus! {

/// The context a brain tier receives besides the transcript: recent
/// retrieval results assembled by the caller, never the whole store.
#[derive(Debug, Clone)]
pub struct BrainContext {
    pub recent_captures: Vec<String>,
}

impl Default for BrainContext {
    fn default() -> (r: BrainContext)
        ensures
            r.recent_captures@.len() == 0,
    {
        BrainContext { recent_captures: Vec::new() }
    }
}

/// Which tier answered.
#[derive(Debug, Clone, PartialEq, Eq)]
pub enum BrainTier {
    Cloud { provider: String },
    Local { model: String },
    Deterministic,
}

/// The brain's answer: which tier ran, its reply, the floor's intent when
/// the floor answered, and whether the request was answered below the tier
/// it asked for.
#[derive(Debug, Clone)]
pub struct BrainResult {
    pub tier: BrainTier,
    pub reply: String,
    pub intent: Option<DeterministicIntent>,
    pub degraded: bool,
}

/// The context text handed to a remote tier: the non-blank captures,
/// trimmed, one per line.
pub open spec fn context_text_of(captures: Seq<String>) -> Seq<char> {
    join_with(trimmed_nonblank(captures), "\n"@)
}

/// Joins the recent captures into the context text: each trimmed, blank
/// ones dropped, one per line.
pub fn context_text(context: &BrainContext) -> (r: String)
    ensures
        r@ == context_text_of(context.recent_captures@),
{
    join_trimmed_nonblank(&context.recent_captures, "\n")
}

/// `result` is the floor's answer to `transcript`.
pub open spec fn floor_result(transcript: Seq<char>, result: BrainResult, degraded: bool) -> bool {
    &&& result.tier is Deterministic
    &&& result.degraded == degraded
    &&& result.reply@.len() > 0
    &&& match result.intent {
        Some(i) => {
            &&& intent_of(normalized_transcript(transcript), i)
            &&& !(i is CurrentTime) ==> result.reply@ == floor_reply_text(i, ""@)
            &&& i is CurrentTime ==> exists|clock: Seq<char>| result.reply@
                == #[trigger] floor_reply_text(i, clock)
        },
        None => false,
    }
}

/// `result` tells the user their cloud key was rejected, with the
/// provider's reason, and carries the floor's intent.
pub open spec fn rejected_key_result(transcript: Seq<char>, reason: Seq<char>, result: BrainResult) -> bool {
    &&& result.tier is Deterministic
    &&& result.degraded
    &&& result.reply@ == "Your cloud key was rejected ("@ + (reason
        + "). Open the settings and re-enter it — until then Cortex answers with its local floor."@)
    &&& match result.intent {
        Some(i) => intent_of(normalized_transcript(transcript), i),
        None => false,
    }
}

/// Runs the floor for a request.
fn run_floor_with(transcript: &str, degraded: bool) -> (r: BrainResult)
    ensures
        floor_result(transcript@, r, degraded),
{
    let floor = run_floor(transcript);
    BrainResult {
        tier: BrainTier::Deterministic,
        reply: floor.reply,
        intent: Some(floor.intent),
        degraded,
    }
}

/// Where a request stands.
#[derive(Debug, Clone)]
pub enum BrainStage {
    /// The cloud provider was asked.
    AwaitingCloud { provider: CloudProviderKind },
    /// ollama's version endpoint was probed.
    AwaitingProbe,
    /// ollama's installed models were listed.
    AwaitingModel,
    /// The local model was asked.
    AwaitingLocal { model: String },
    /// The answer is given.
    Finished,
}

/// One request in progress.
#[derive(Debug, Clone)]
pub struct BrainState {
    pub transcript: String,
    pub context: String,
    pub mode: BrainMode,
    pub ollama_host: String,
    /// A key for the configured cloud provider is stored.
    pub cloud_configured: bool,
    pub stage: BrainStage,
}

/// What a call returned.
#[derive(Debug)]
pub enum BrainObservation {
    /// The cloud chat call and the interpretation of its reply.
    CloudReplied(Result<String, CloudBrainError>),
    /// The version probe.
    OllamaProbed(OllamaReachability),
    /// The model chosen from the installed ones.
    ModelSelected(Result<String, LocalBrainError>),
    /// The local chat call and the interpretation of its reply.
    LocalReplied(Result<String, LocalBrainError>),
}

/// What to do next.
#[derive(Debug, Clone)]
pub enum BrainAction {
    /// Send this chat request to the cloud provider.
    CallCloud(CloudChatRequest),
    /// Probe ollama's version endpoint at this URL.
    ProbeOllama { url: String },
    /// List ollama's installed models at this URL and choose one.
    ListModels { url: String },
    /// Send a chat request to ollama.
    CallLocal { url: String, model: String, system_content: String, transcript: String },
    /// The request is answered.
    Finish(BrainResult),
}

/// The observation is the kind the stage waits for.
pub open spec fn fits(stage: BrainStage, observation: BrainObservation) -> bool {
    match stage {
        BrainStage::AwaitingCloud { .. } => observation is CloudReplied,
        BrainStage::AwaitingProbe => observation is OllamaProbed,
        BrainStage::AwaitingModel => observation is ModelSelected,
        BrainStage::AwaitingLocal { .. } => observation is LocalReplied,
        BrainStage::Finished => false,
    }
}

/// `next` continues the same request as `state`.
pub open spec fn same_request(state: BrainState, next: BrainState) -> bool {
    &&& next.transcript@ == state.transcript@
    &&& next.context@ == state.context@
    &&& next.mode == state.mode
    &&& next.ollama_host@ == state.ollama_host@
    &&& next.cloud_configured == state.cloud_configured
}

/// Moves on without the cloud tier: local mode lists the models, auto
/// mode probes ollama first, cloud mode falls to the floor.
pub open spec fn without_cloud(state: BrainState, next: BrainState, action: BrainAction) -> bool {
    match state.mode {
        BrainMode::Local => next.stage is AwaitingModel && (action matches BrainAction::ListModels {
            url,
        } && url@ == ollama_url_text(state.ollama_host@, "/api/tags"@)),
        BrainMode::Auto => next.stage is AwaitingProbe && (action matches BrainAction::ProbeOllama {
            url,
        } && url@ == ollama_url_text(state.ollama_host@, "/api/version"@)),
        BrainMode::Cloud => next.stage is Finished && (action matches BrainAction::Finish(r)
            && floor_result(state.transcript@, r, true)),
    }
}

/// `request` is the cloud chat request for this provider, key, transcript
/// and context.
pub open spec fn is_chat_request(
    request: CloudChatRequest,
    provider: CloudProviderKind,
    key: Seq<char>,
    transcript: Seq<char>,
    context: Seq<char>,
) -> bool {
    &&& request.endpoint@ == provider.spec_endpoint()
    &&& request.model@ == provider.spec_model()
    &&& request.authorization@ == "Bearer "@ + key
    &&& request.system_content@ == prompt_with_context(CLOUD_SYSTEM_PROMPT@, context)
    &&& request.user_content@ == transcript
}

/// The step from `state` on `observation` to `next` and `action`.
pub open spec fn brain_step(
    state: BrainState,
    observation: BrainObservation,
    next: BrainState,
    action: BrainAction,
) -> bool {
    &&& same_request(state, next)
    &&& match state.stage {
        BrainStage::AwaitingCloud { provider } => match observation {
            BrainObservation::CloudReplied(Ok(reply)) => {
                &&& next.stage is Finished
                &&& action matches BrainAction::Finish(r)
                &&& r.tier matches BrainTier::Cloud { provider: name }
                &&& name@ == provider.spec_name()
                &&& r.reply@ == reply@
                &&& r.intent is None
                &&& !r.degraded
            },
            BrainObservation::CloudReplied(Err(CloudBrainError::NoKey(reason))) => {
                &&& next.stage is Finished
                &&& action matches BrainAction::Finish(r)
                &&& rejected_key_result(state.transcript@, reason@, r)
            },
            _ => without_cloud(state, next, action),
        },
        BrainStage::AwaitingProbe => match observation {
            BrainObservation::OllamaProbed(OllamaReachability::Reachable) => {
                &&& next.stage is AwaitingModel
                &&& action matches BrainAction::ListModels { url }
                &&& url@ == ollama_url_text(state.ollama_host@, "/api/tags"@)
            },
            _ => {
                &&& next.stage is Finished
                &&& action matches BrainAction::Finish(r)
                &&& floor_result(state.transcript@, r, true)
            },
        },
        BrainStage::AwaitingModel => match observation {
            BrainObservation::ModelSelected(Ok(model)) => {
                &&& next.stage matches BrainStage::AwaitingLocal { model: m }
                &&& m@ == model@
                &&& action matches BrainAction::CallLocal { url, model: m2, system_content, transcript }
                &&& url@ == ollama_url_text(state.ollama_host@, "/api/chat"@)
                &&& m2@ == model@
                &&& system_content@ == prompt_with_context(LOCAL_SYSTEM_PROMPT@, state.context@)
                &&& transcript@ == state.transcript@
            },
            _ => {
                &&& next.stage is Finished
                &&& action matches BrainAction::Finish(r)
                &&& floor_result(state.transcript@, r, true)
            },
        },
        BrainStage::AwaitingLocal { model } => match observation {
            BrainObservation::LocalReplied(Ok(reply)) => {
                &&& next.stage is Finished
                &&& action matches BrainAction::Finish(r)
                &&& r.tier matches BrainTier::Local { model: m }
                &&& m@ == model@
                &&& r.reply@ == reply@
                &&& r.intent is None
                &&& r.degraded == (state.mode != BrainMode::Local)
            },
            _ => {
                &&& next.stage is Finished
                &&& action matches BrainAction::Finish(r)
                &&& floor_result(state.transcript@, r, true)
            },
        },
        BrainStage::Finished => false,
    }
}

/// An observation as the library's reply interpreters produce it: a reply
/// that reached the brain is never empty.
pub open spec fn well_formed_observation(observation: BrainObservation) -> bool {
    match observation {
        BrainObservation::CloudReplied(Ok(reply)) => reply@.len() > 0,
        BrainObservation::LocalReplied(Ok(reply)) => reply@.len() > 0,
        _ => true,
    }
}

/// A request in progress is coherent: the cloud is asked only outside
/// local mode and with a key configured, and a request is finished exactly
/// when it has been answered.
pub open spec fn coherent(state: BrainState, action: BrainAction) -> bool {
    &&& state.stage is AwaitingCloud ==> state.mode != BrainMode::Local && state.cloud_configured
    &&& (state.stage is Finished <==> action is Finish)
}

/// An answer to the request of `state`: never empty; the floor's answers
/// are degraded and carry the floor's intent for the transcript; a model's
/// answers carry no intent; a cloud answer is not degraded and comes only
/// outside local mode and with a cloud key configured; a local answer is degraded unless local mode asked
/// for it.
pub open spec fn sound_answer(state: BrainState, result: BrainResult) -> bool {
    &&& result.reply@.len() > 0
    &&& match result.tier {
        BrainTier::Deterministic => result.degraded && (result.intent matches Some(i) && intent_of(
            normalized_transcript(state.transcript@),
            i,
        )),
        BrainTier::Cloud { .. } => result.intent is None && !result.degraded && state.mode
            != BrainMode::Local && state.cloud_configured,
        BrainTier::Local { .. } => result.intent is None && result.degraded == (state.mode
            != BrainMode::Local),
    }
}

/// The brain never dead-ends: from a coherent request, every step on an
/// observation it waits for keeps the request coherent, and whenever the
/// step answers, the answer is sound.
pub proof fn lemma_brain_step_keeps_requests_sound(
    state: BrainState,
    action: BrainAction,
    observation: BrainObservation,
    next: BrainState,
    next_action: BrainAction,
)
    requires
        coherent(state, action),
        fits(state.stage, observation),
        well_formed_observation(observation),
        brain_step(state, observation, next, next_action),
    ensures
        coherent(next, next_action),
        same_request(state, next),
        next_action matches BrainAction::Finish(r) ==> sound_answer(next, r),
{
    reveal_strlit("Your cloud key was rejected (");
}

/// A cloud failure other than a rejected key degrades the request by one
/// tier: auto mode probes ollama's version endpoint on the configured host,
/// local mode lists ollama's installed models there, and only cloud mode
/// answers from the floor, marked degraded.
pub proof fn lemma_cloud_failure_degrades_one_tier(
    state: BrainState,
    observation: BrainObservation,
    next: BrainState,
    action: BrainAction,
)
    requires
        state.stage is AwaitingCloud,
        observation matches BrainObservation::CloudReplied(Err(e)) && !(e is NoKey),
        brain_step(state, observation, next, action),
    ensures
        state.mode == BrainMode::Auto ==> next.stage is AwaitingProbe && (action matches BrainAction::ProbeOllama {
            url,
        } && url@ == trim_trailing_slashes(state.ollama_host@) + "/api/version"@),
        state.mode == BrainMode::Local ==> next.stage is AwaitingModel && (action matches BrainAction::ListModels {
            url,
        } && url@ == trim_trailing_slashes(state.ollama_host@) + "/api/tags"@),
        state.mode == BrainMode::Cloud ==> next.stage is Finished && (action matches BrainAction::Finish(
            r,
        ) && r.tier is Deterministic && r.degraded),
{
}

/// Moves on without the cloud tier.
fn continue_without_cloud(state: BrainState) -> (r: (BrainState, BrainAction))
    requires
        !(state.stage is Finished),
    ensures
        same_request(state, r.0),
        without_cloud(state, r.0, r.1),
{
    match state.mode {
        BrainMode::Local => {
            let url = ollama_url(state.ollama_host.as_str(), "/api/tags");
            (BrainState { stage: BrainStage::AwaitingModel, ..state }, BrainAction::ListModels { url })
        },
        BrainMode::Auto => {
            let url = ollama_url(state.ollama_host.as_str(), "/api/version");
            (
                BrainState { stage: BrainStage::AwaitingProbe, ..state },
                BrainAction::ProbeOllama { url },
            )
        },
        BrainMode::Cloud => {
            let result = run_floor_with(state.transcript.as_str(), true);
            (BrainState { stage: BrainStage::Finished, ..state }, BrainAction::Finish(result))
        },
    }
}

/// The answer telling the user their cloud key was rejected.
fn rejected_key(transcript: &str, reason: &str) -> (r: BrainResult)
    ensures
        rejected_key_result(transcript@, reason@, r),
{
    let tail = joined(
        reason,
        "). Open the settings and re-enter it — until then Cortex answers with its local floor.",
    );
    BrainResult {
        tier: BrainTier::Deterministic,
        reply: joined("Your cloud key was rejected (", tail.as_str()),
        intent: Some(parse_intent(transcript)),
        degraded: true,
    }
}

/// Starts a request. The cloud tier is tried when a key for the configured
/// provider is present and the mode is cloud or auto; the key is opened
/// from its sealed form here and goes only into the authorization header.
/// Otherwise, or when the key does not open, the request moves on without
/// the cloud tier.
pub fn begin_intent(
    transcript: &str,
    context: &BrainContext,
    settings: &AssistantSettings,
    settings_store: &SettingsStore,
) -> (r: (BrainState, BrainAction))
    ensures
        coherent(r.0, r.1),
        r.1 matches BrainAction::Finish(result) ==> sound_answer(r.0, result),
        r.0.transcript@ == transcript@,
        r.0.context@ == context_text_of(context.recent_captures@),
        r.0.mode == settings.brain_mode,
        r.0.ollama_host@ == settings.ollama_host@,
        r.0.cloud_configured == settings.spec_cloud_configured(),
        ({
            let try_cloud = settings.spec_cloud_configured() && (settings.brain_mode
                == BrainMode::Cloud || settings.brain_mode == BrainMode::Auto);
            let provider = match settings.cloud_provider {
                CloudProvider::Groq => CloudProviderKind::Groq,
                CloudProvider::OpenAi => CloudProviderKind::OpenAi,
            };
            if !try_cloud {
                without_cloud(r.0, r.0, r.1)
            } else {
                match provider_secret(*settings) {
                    MaybeSealed::Sealed(raw) => match opened_secret(
                        settings_store.vault_key(),
                        raw@,
                    ) {
                        Some(key) => if is_blank(key) {
                            r.0.stage is Finished && (r.1 matches BrainAction::Finish(result)
                                && rejected_key_result(
                                transcript@,
                                "configure a cloud API key in the settings before using the cloud brain"@,
                                result,
                            ))
                        } else {
                            r.0.stage == (BrainStage::AwaitingCloud { provider })
                                && (r.1 matches BrainAction::CallCloud(request) && is_chat_request(
                                request,
                                provider,
                                key,
                                transcript@,
                                r.0.context@,
                            ))
                        },
                        None => without_cloud(r.0, r.0, r.1),
                    },
                    MaybeSealed::Absent => false,
                }
            }
        }),
{
    let context_text = context_text(context);
    let provider = match settings.cloud_provider {
        CloudProvider::Groq => CloudProviderKind::Groq,
        CloudProvider::OpenAi => CloudProviderKind::OpenAi,
    };
    let state = BrainState {
        transcript: String::from_str(transcript),
        context: context_text,
        mode: settings.brain_mode,
        ollama_host: settings.ollama_host.clone(),
        cloud_configured: settings.cloud_configured(),
        stage: BrainStage::AwaitingProbe,
    };
    let try_cloud = settings.cloud_configured() && (match settings.brain_mode {
        BrainMode::Cloud => true,
        BrainMode::Auto => true,
        BrainMode::Local => false,
    });
    if try_cloud {
        let sealed_key = match settings.cloud_provider {
            CloudProvider::Groq => settings.groq_key(),
            CloudProvider::OpenAi => settings.openai_key(),
        };
        if let Ok(Some(api_key)) = settings_store.open_secret(sealed_key) {
            match chat_request(provider, api_key.as_str(), transcript, state.context.as_str()) {
                Ok(request) => {
                    return (
                        BrainState { stage: BrainStage::AwaitingCloud { provider }, ..state },
                        BrainAction::CallCloud(request),
                    );
                },
                Err(CloudBrainError::NoKey(reason)) => {
                    let result = rejected_key(transcript, reason.as_str());
                    proof {
                        reveal_strlit("Your cloud key was rejected (");
                    }
                    return (
                        BrainState { stage: BrainStage::Finished, ..state },
                        BrainAction::Finish(result),
                    );
                },
                Err(_) => {},
            }
        }
    }
    continue_without_cloud(state)
}

/// Decides the next step of a request from what the last call returned:
/// a cloud reply answers it, a rejected key is reported with the floor's
/// intent, any other cloud failure moves on to the local tier (auto and
/// local modes) or the floor; a reachable ollama has its models listed, a
/// chosen model is asked, and its reply answers the request. Every other
/// failure lands on the floor.
pub fn execute_intent(state: BrainState, observation: BrainObservation) -> (r: (
    BrainState,
    BrainAction,
))
    requires
        fits(state.stage, observation),
    ensures
        brain_step(state, observation, r.0, r.1),
{
    let ghost old_state = state;
    match state.stage {
        BrainStage::AwaitingCloud { provider } => match observation {
            BrainObservation::CloudReplied(Ok(reply)) => {
                let result = BrainResult {
                    tier: BrainTier::Cloud { provider: String::from_str(provider.name()) },
                    reply,
                    intent: None,
                    degraded: false,
                };
                (BrainState { stage: BrainStage::Finished, ..state }, BrainAction::Finish(result))
            },
            BrainObservation::CloudReplied(Err(CloudBrainError::NoKey(reason))) => {
                let result = rejected_key(state.transcript.as_str(), reason.as_str());
                (BrainState { stage: BrainStage::Finished, ..state }, BrainAction::Finish(result))
            },
            _ => continue_without_cloud(state),
        },
        BrainStage::AwaitingProbe => match observation {
            BrainObservation::OllamaProbed(OllamaReachability::Reachable) => {
                let url = ollama_url(state.ollama_host.as_str(), "/api/tags");
                (
                    BrainState { stage: BrainStage::AwaitingModel, ..state },
                    BrainAction::ListModels { url },
                )
            },
            _ => {
                let result = run_floor_with(state.transcript.as_str(), true);
                (BrainState { stage: BrainStage::Finished, ..state }, BrainAction::Finish(result))
            },
        },
        BrainStage::AwaitingModel => match observation {
            BrainObservation::ModelSelected(Ok(model)) => {
                let url = ollama_url(state.ollama_host.as_str(), "/api/chat");
                let system_content = local_system_content(state.context.as_str());
                let transcript = state.transcript.clone();
                let chosen = model.clone();
                (
                    BrainState { stage: BrainStage::AwaitingLocal { model: chosen }, ..state },
                    BrainAction::CallLocal { url, model, system_content, transcript },
                )
            },
            _ => {
                let result = run_floor_with(state.transcript.as_str(), true);
                (BrainState { stage: BrainStage::Finished, ..state }, BrainAction::Finish(result))
            },
        },
        BrainStage::AwaitingLocal { model } => match observation {
            BrainObservation::LocalReplied(Ok(reply)) => {
                let degraded = match state.mode {
                    BrainMode::Local => false,
                    _ => true,
                };
                let result = BrainResult {
                    tier: BrainTier::Local { model },
                    reply,
                    intent: None,
                    degraded,
                };
                (BrainState { stage: BrainStage::Finished, ..state }, BrainAction::Finish(result))
            },
            _ => {
                let result = run_floor_with(state.transcript.as_str(), true);
                (BrainState { stage: BrainStage::Finished, ..state }, BrainAction::Finish(result))
            },
        },
        BrainStage::Finished => {
            let result = run_floor_with(state.transcript.as_str(), true);
            (BrainState { stage: BrainStage::Finished, ..state }, BrainAction::Finish(result))
        },
    }
}

/// Reachability summary for the overlay.
#[derive(Debug, Clone)]
pub struct BrainStatus {
    pub ollama_reachable: bool,
    pub cloud_configured: bool,
    pub brain_mode: BrainMode,
    pub selected_model: Option<String>,
}

/// The status the overlay shows, from the settings and what the probe of
/// ollama found: the model ollama would run is reported only when ollama
/// is reachable.
pub fn probe_status(
    settings: &AssistantSettings,
    reachability: OllamaReachability,
    selected_model: Option<String>,
) -> (r: BrainStatus)
    ensures
        r.ollama_reachable == (reachability == OllamaReachability::Reachable),
        r.cloud_configured == settings.spec_cloud_configured(),
        r.brain_mode == settings.brain_mode,
        reachability == OllamaReachability::Reachable ==> r.selected_model == selected_model,
        reachability == OllamaReachability::Unreachable ==> r.selected_model is None,
{
    let ollama_reachable = match reachability {
        OllamaReachability::Reachable => true,
        OllamaReachability::Unreachable => false,
    };
    BrainStatus {
        ollama_reachable,
        cloud_configured: settings.cloud_configured(),
        brain_mode: settings.brain_mode,
        selected_model: if ollama_reachable {
            selected_model
        } else {
            None
        },
    }
}

} // verus!

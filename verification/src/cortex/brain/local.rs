//! The local brain: an ollama model on this machine.
//!
//! An unreachable ollama is a tier signal, not a user error: the engine
//! falls through to the deterministic floor. The HTTP exchanges happen
//! around this module; here the URLs are formed, the model chosen from the
//! installed ones, and the replies interpreted.
use crate::cortex::brain::cloud::{prompt_with_context, system_content};
use crate::text::{
    chars_contain, chars_of, has_infix, has_prefix, joined, trim_text, trimmed,
};
use vstd::prelude::*;

verus! {

/// Whether ollama answered at the configured host.
#[derive(Debug, Clone, Copy, PartialEq, Eq, Structural)]
pub enum OllamaReachability {
    Reachable,
    Unreachable,
}

/// Errors raised by the local brain.
#[derive(Debug)]
pub enum LocalBrainError {
    Unreachable(String),
    NoModel(String),
    Generation(String),
}

impl LocalBrainError {
    /// The displayed text of the error.
    pub open spec fn spec_message(self) -> Seq<char> {
        match self {
            LocalBrainError::Unreachable(d) => "ollama is not reachable: "@ + d@,
            LocalBrainError::NoModel(d) => "no suitable local model: "@ + d@,
            LocalBrainError::Generation(d) => "local generation failed: "@ + d@,
        }
    }

    /// The displayed text of the error.
    pub fn message(&self) -> (r: String)
        ensures
            r@ == self.spec_message(),
    {
        match self {
            LocalBrainError::Unreachable(d) => joined("ollama is not reachable: ", d.as_str()),
            LocalBrainError::NoModel(d) => joined("no suitable local model: ", d.as_str()),
            LocalBrainError::Generation(d) => joined("local generation failed: ", d.as_str()),
        }
    }
}

/// The system prompt of the local tier.
pub const LOCAL_SYSTEM_PROMPT: &'static str = "You are Cortex, the local reasoning half of Aura, a privacy-first personal assistant. You run entirely on this user's machine. Answer briefly and directly (under 120 words). You may act on the user's local memory (captures, notes, projects) when asked to retrieve or save something — describe what you would do; never claim to have performed destructive actions. You never collect data beyond this conversation.";

/// Drops trailing `/` characters (`str::trim_end_matches('/')`).
pub open spec fn trim_trailing_slashes(s: Seq<char>) -> Seq<char>
    decreases s.len(),
{
    if s.len() > 0 && s.last() == '/' {
        trim_trailing_slashes(s.drop_last())
    } else {
        s
    }
}

/// The URL of an ollama API path on a host, however many slashes the host
/// ends with.
pub open spec fn ollama_url_text(host: Seq<char>, path: Seq<char>) -> Seq<char> {
    trim_trailing_slashes(host) + path
}

/// Forms the URL of an ollama API path on the configured host.
pub fn ollama_url(host: &str, path: &str) -> (r: String)
    ensures
        r@ == ollama_url_text(host@, path@),
{
    let chars = chars_of(host);
    let mut end: usize = chars.len();
    assert(chars@.subrange(0, end as int) =~= chars@);
    while end > 0 && chars[end - 1] == '/'
        invariant
            end <= chars@.len(),
            trim_trailing_slashes(chars@) == trim_trailing_slashes(chars@.subrange(0, end as int)),
        decreases end,
    {
        proof {
            assert(chars@.subrange(0, end as int).drop_last() =~= chars@.subrange(0, end - 1));
        }
        end = end - 1;
    }
    let kept = crate::text::copy_range(chars.as_slice(), 0, end);
    let base = crate::text::string_of(kept.as_slice());
    joined(base.as_str(), path)
}

/// A version probe body shows a live ollama: it is a JSON object.
pub open spec fn answers_like_ollama(body: Option<Seq<char>>) -> bool {
    match body {
        Some(b) => has_prefix(trimmed(b), "{"@),
        None => false,
    }
}

/// The reachability verdict for a version probe: the body of the answer,
/// or `None` when no answer could be read.
pub fn reachability_of(body: Option<&str>) -> (r: OllamaReachability)
    ensures
        r == (if answers_like_ollama(
            match body {
                Some(b) => Some(b@),
                None => None,
            },
        ) {
            OllamaReachability::Reachable
        } else {
            OllamaReachability::Unreachable
        }),
{
    match body {
        Some(text) => {
            let trimmed_body = trim_text(text);
            let chars = chars_of(trimmed_body.as_str());
            let brace = chars_of("{");
            if crate::text::chars_start_with(chars.as_slice(), brace.as_slice()) {
                OllamaReachability::Reachable
            } else {
                OllamaReachability::Unreachable
            }
        },
        None => OllamaReachability::Unreachable,
    }
}

/// An 8B-class (or larger) model, preferred on roomy machines.
pub open spec fn is_roomy_model(name: Seq<char>) -> bool {
    has_infix(name, "8b"@) || has_infix(name, "70b"@) || has_infix(name, "14b"@)
}

/// A compact model, the floor for smaller machines.
pub open spec fn is_compact_model(name: Seq<char>) -> bool {
    has_infix(name, "3b"@) || has_infix(name, "1.5b"@) || has_infix(name, "qwen"@)
}

/// `i` is the first index of a roomy model.
pub open spec fn is_first_roomy(names: Seq<String>, i: int) -> bool {
    &&& 0 <= i < names.len()
    &&& is_roomy_model(names[i]@)
    &&& forall|j: int| 0 <= j < i ==> !is_roomy_model(#[trigger] names[j]@)
}

/// `i` is the first index of a compact model.
pub open spec fn is_first_compact(names: Seq<String>, i: int) -> bool {
    &&& 0 <= i < names.len()
    &&& is_compact_model(names[i]@)
    &&& forall|j: int| 0 <= j < i ==> !is_compact_model(#[trigger] names[j]@)
}

/// No installed model is roomy.
pub open spec fn no_roomy_model(names: Seq<String>) -> bool {
    forall|j: int| 0 <= j < names.len() ==> !is_roomy_model(#[trigger] names[j]@)
}

/// No installed model is compact.
pub open spec fn no_compact_model(names: Seq<String>) -> bool {
    forall|j: int| 0 <= j < names.len() ==> !is_compact_model(#[trigger] names[j]@)
}

/// `model` is the model chosen among `names`, for `reason`: the first
/// 8B-class one, else the first compact one, else the first installed one.
pub open spec fn model_choice(names: Seq<String>, model: Seq<char>, reason: Seq<char>) -> bool {
    ||| reason == "roomy machine class selected"@ && exists|i: int|
        is_first_roomy(names, i) && #[trigger] names[i]@ == model
    ||| reason == "compact floor model selected"@ && no_roomy_model(names) && exists|i: int|
        is_first_compact(names, i) && #[trigger] names[i]@ == model
    ||| reason == "only installed model selected"@ && no_roomy_model(names) && no_compact_model(
        names,
    ) && names.len() > 0 && names[0]@ == model
}

/// An 8B-class model always wins: when some installed model's name
/// mentions 8b, 70b or 14b, the choice is the first such model, for the
/// roomy machine class.
pub proof fn lemma_first_roomy_class_model_is_chosen(
    names: Seq<String>,
    model: Seq<char>,
    reason: Seq<char>,
    i: int,
)
    requires
        model_choice(names, model, reason),
        0 <= i < names.len(),
        has_infix(names[i]@, "8b"@) || has_infix(names[i]@, "70b"@) || has_infix(names[i]@, "14b"@),
        forall|j: int|
            0 <= j < i ==> !(has_infix(#[trigger] names[j]@, "8b"@) || has_infix(names[j]@, "70b"@)
                || has_infix(names[j]@, "14b"@)),
    ensures
        model == names[i]@,
        reason == "roomy machine class selected"@,
{
    assert(is_roomy_model(names[i]@));
    let k = choose|k: int| is_first_roomy(names, k) && #[trigger] names[k]@ == model;
    if k < i {
        assert(is_roomy_model(names[k]@));
    }
    if i < k {
        assert(!is_roomy_model(names[i]@));
    }
}

fn is_roomy(name: &str) -> (r: bool)
    ensures
        r == is_roomy_model(name@),
{
    let chars = chars_of(name);
    let a = chars_of("8b");
    let b = chars_of("70b");
    let c = chars_of("14b");
    chars_contain(chars.as_slice(), a.as_slice()) || chars_contain(chars.as_slice(), b.as_slice())
        || chars_contain(chars.as_slice(), c.as_slice())
}

fn is_compact(name: &str) -> (r: bool)
    ensures
        r == is_compact_model(name@),
{
    let chars = chars_of(name);
    let a = chars_of("3b");
    let b = chars_of("1.5b");
    let c = chars_of("qwen");
    chars_contain(chars.as_slice(), a.as_slice()) || chars_contain(chars.as_slice(), b.as_slice())
        || chars_contain(chars.as_slice(), c.as_slice())
}

/// Chooses among the installed models: the first 8B-class one, else the
/// first compact one, else the first installed one. Gives the model name
/// and why it was chosen; with nothing installed there is nothing to run.
pub fn choose_model(names: &Vec<String>) -> (r: Result<(String, String), LocalBrainError>)
    ensures
        match r {
            Ok((model, reason)) => model_choice(names@, model@, reason@),
            Err(e) => names@.len() == 0 && (e matches LocalBrainError::NoModel(m) && m@
                == "install a model (`ollama pull llama3.2:3b`) before using the local brain"@),
        },
        names@.len() > 0 ==> r is Ok,
{
    let mut i: usize = 0;
    while i < names.len()
        invariant
            i <= names@.len(),
            forall|j: int| 0 <= j < i ==> !is_roomy_model(#[trigger] names@[j]@),
        decreases names.len() - i,
    {
        if is_roomy(names[i].as_str()) {
            assert(is_first_roomy(names@, i as int));
            return Ok(
                (names[i].clone(), String::from_str("roomy machine class selected")),
            );
        }
        i = i + 1;
    }
    let mut k: usize = 0;
    while k < names.len()
        invariant
            k <= names@.len(),
            no_roomy_model(names@),
            forall|j: int| 0 <= j < k ==> !is_compact_model(#[trigger] names@[j]@),
        decreases names.len() - k,
    {
        if is_compact(names[k].as_str()) {
            assert(is_first_compact(names@, k as int));
            return Ok(
                (names[k].clone(), String::from_str("compact floor model selected")),
            );
        }
        k = k + 1;
    }
    if names.len() > 0 {
        return Ok((names[0].clone(), String::from_str("only installed model selected")));
    }
    Err(
        LocalBrainError::NoModel(
            String::from_str(
                "install a model (`ollama pull llama3.2:3b`) before using the local brain",
            ),
        ),
    )
}

/// The system message of a local chat request.
pub fn local_system_content(context: &str) -> (r: String)
    ensures
        r@ == prompt_with_context(LOCAL_SYSTEM_PROMPT@, context@),
{
    system_content(LOCAL_SYSTEM_PROMPT, context)
}

/// Interprets a decoded ollama chat reply: its error, if it reported one,
/// and the message content, if any. An empty reply is a failure.
pub fn interpret_local_reply(error: Option<String>, content: Option<String>) -> (r: Result<
    String,
    LocalBrainError,
>)
    ensures
        match error {
            Some(m) => r matches Err(LocalBrainError::Generation(d)) && d@ == m@,
            None => {
                let text = match content {
                    Some(c) => trimmed(c@),
                    None => Seq::<char>::empty(),
                };
                if text.len() == 0 {
                    r matches Err(LocalBrainError::Generation(d)) && d@
                        == "the local model returned an empty reply"@
                } else {
                    r matches Ok(reply) && reply@ == text
                }
            },
        },
{
    if let Some(message) = error {
        return Err(LocalBrainError::Generation(message));
    }
    let text = match content {
        Some(c) => trim_text(c.as_str()),
        None => String::new(),
    };
    if text.as_str().is_empty() {
        return Err(
            LocalBrainError::Generation(String::from_str("the local model returned an empty reply")),
        );
    }
    Ok(text)
}

} // verus!

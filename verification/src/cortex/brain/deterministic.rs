//! The deterministic floor: a keyword parser that answers the few intents it
//! can recognize from the transcript alone, and never dead-ends.
//!
//! Patterns are prefix (and a few infix) matches on the trimmed, lower-cased
//! transcript; the first matching rule wins, note markers before memory
//! queries before identity and time questions.
use crate::text::{
    all_white_space, lemma_trimmed_ignores_surrounding_white_space, chars_contain, chars_of, chars_start_with, copy_range, has_infix, has_prefix, joined,
    spec_unicode_lowercase, string_of, trim_chars, trim_text, trimmed, unicode_lowercase,
};
use crate::time::local_clock_hh_mm;
use vstd::prelude::*;

verus! {

/// Intents the floor recognizes.
#[derive(Debug, Clone, PartialEq, Eq)]
pub enum DeterministicIntent {
    /// "note …", "remember …", "save this …", "capture …": the rest is a note.
    SaveNote { content: String },
    /// "what did i …", "find …", "search my …", "look up my …", "show my …":
    /// a read-only memory query.
    QueryMemory { query: String },
    /// "who are you", "what is aura", "what are you".
    Identity,
    /// "time", "what time …", "… current time …".
    CurrentTime,
    /// Nothing matched.
    Unrecognized,
}

/// The floor's answer: the intent and a reply the overlay shows verbatim.
#[derive(Debug, Clone)]
pub struct DeterministicResult {
    pub intent: DeterministicIntent,
    pub reply: String,
}

/// The separators dropped between a note marker and the note.
pub open spec fn is_note_separator(c: char) -> bool {
    c == ':' || c == ' ' || c == '-'
}

/// Drops leading note separators.
pub open spec fn trim_note_separators(s: Seq<char>) -> Seq<char>
    decreases s.len(),
{
    if s.len() > 0 && is_note_separator(s[0]) {
        trim_note_separators(s.drop_first())
    } else {
        s
    }
}

/// The note markers, in the order they are tried.
pub open spec fn note_markers() -> Seq<Seq<char>> {
    seq!["note"@, "remember"@, "save this"@, "capture"@]
}

/// The memory-query triggers, in the order they are tried.
pub open spec fn query_triggers() -> Seq<Seq<char>> {
    seq!["what did i"@, "find"@, "search my"@, "look up my"@, "show my"@]
}

/// What follows `prefix` in `text`, trimmed.
pub open spec fn rest_after(text: Seq<char>, prefix: Seq<char>) -> Seq<char> {
    trimmed(text.subrange(prefix.len() as int, text.len() as int))
}

/// The note the first applicable marker (from index `from` on) captures:
/// a marker applies when the text starts with it and something other than
/// separators follows.
pub open spec fn first_note(lower: Seq<char>, from: nat) -> Option<Seq<char>>
    decreases 4 - from,
{
    if from >= 4 {
        None
    } else if has_prefix(lower, note_markers()[from as int]) && trim_note_separators(
        rest_after(lower, note_markers()[from as int]),
    ).len() > 0 {
        Some(trim_note_separators(rest_after(lower, note_markers()[from as int])))
    } else {
        first_note(lower, from + 1)
    }
}

/// The query after the first trigger (from index `from` on) the text
/// starts with.
pub open spec fn first_query(lower: Seq<char>, from: nat) -> Option<Seq<char>>
    decreases 5 - from,
{
    if from >= 5 {
        None
    } else if has_prefix(lower, query_triggers()[from as int]) {
        Some(rest_after(lower, query_triggers()[from as int]))
    } else {
        first_query(lower, from + 1)
    }
}

/// The text asks who the assistant is.
pub open spec fn asks_identity(lower: Seq<char>) -> bool {
    has_infix(lower, "who are you"@) || has_prefix(lower, "what is aura"@) || has_prefix(
        lower,
        "what are you"@,
    )
}

/// The text asks for the time.
pub open spec fn asks_time(lower: Seq<char>) -> bool {
    has_prefix(lower, "time"@) || has_prefix(lower, "what time"@) || has_infix(
        lower,
        "current time"@,
    )
}

/// `intent` is what the floor recognizes in the trimmed, lower-cased text
/// `lower`.
pub open spec fn intent_of(lower: Seq<char>, intent: DeterministicIntent) -> bool {
    if lower.len() == 0 {
        intent is Unrecognized
    } else {
        match first_note(lower, 0) {
            Some(note) => intent matches DeterministicIntent::SaveNote { content } && content@
                == note,
            None => match first_query(lower, 0) {
                Some(q) => intent matches DeterministicIntent::QueryMemory { query } && query@
                    == q,
                None => if asks_identity(lower) {
                    intent is Identity
                } else if asks_time(lower) {
                    intent is CurrentTime
                } else {
                    intent is Unrecognized
                },
            },
        }
    }
}

/// The text the floor recognizes intents in: the transcript trimmed, then
/// lower-cased.
pub open spec fn normalized_transcript(transcript: Seq<char>) -> Seq<char> {
    spec_unicode_lowercase(trimmed(transcript))
}

/// The floor's reply to an intent; `clock` is the local `HH:MM` time, used
/// by the time answer only.
pub open spec fn floor_reply_text(intent: DeterministicIntent, clock: Seq<char>) -> Seq<char> {
    match intent {
        DeterministicIntent::SaveNote { content } => "Cortex captured a note: “"@ + (content@
            + "” — saved to your local memory."@),
        DeterministicIntent::QueryMemory { query } => "Cortex would search your memory for “"@
            + (query@ + "” — the memory tools arrive in the next build."@),
        DeterministicIntent::Identity => "I'm Aura — your Neural Cortex. Local-first by default, cloud when you opt in."@,
        DeterministicIntent::CurrentTime => "It's "@ + (clock + " on your machine."@),
        DeterministicIntent::Unrecognized => "Cortex heard you, but that's not something it can answer yet — the full brain ships in this build; try a simpler phrasing or bring ollama online."@,
    }
}

proof fn lemma_trim_separators_skip(s: Seq<char>, i: int)
    requires
        0 <= i < s.len(),
        is_note_separator(s[i]),
    ensures
        trim_note_separators(s.subrange(i, s.len() as int)) == trim_note_separators(
            s.subrange(i + 1, s.len() as int),
        ),
{
    assert(s.subrange(i, s.len() as int).drop_first() =~= s.subrange(i + 1, s.len() as int));
}

/// Drops leading note separators from a run of characters.
fn trim_separator_chars(chars: &[char]) -> (r: Vec<char>)
    ensures
        r@ == trim_note_separators(chars@),
{
    let n = chars.len();
    let mut lo: usize = 0;
    assert(chars@.subrange(0, n as int) =~= chars@);
    while lo < n && (chars[lo] == ':' || chars[lo] == ' ' || chars[lo] == '-')
        invariant
            lo <= n == chars@.len(),
            trim_note_separators(chars@) == trim_note_separators(
                chars@.subrange(lo as int, n as int),
            ),
        decreases n - lo,
    {
        proof {
            lemma_trim_separators_skip(chars@, lo as int);
        }
        lo = lo + 1;
    }
    copy_range(chars, lo, n)
}

/// The characters of a marker or trigger.
fn pattern_chars(text: &str) -> (r: Vec<char>)
    ensures
        r@ == text@,
{
    chars_of(text)
}

/// The note captured after `marker`, if the text starts with it and
/// something other than separators follows.
fn note_after(lower: &[char], marker: &str) -> (r: Option<Vec<char>>)
    ensures
        has_prefix(lower@, marker@) && trim_note_separators(rest_after(lower@, marker@)).len() > 0
            ==> (r matches Some(v) && v@ == trim_note_separators(rest_after(lower@, marker@))),
        !(has_prefix(lower@, marker@) && trim_note_separators(rest_after(lower@, marker@)).len()
            > 0) ==> r is None,
{
    let m = pattern_chars(marker);
    if !chars_start_with(lower, m.as_slice()) {
        return None;
    }
    let rest = copy_range(lower, m.len(), lower.len());
    let trimmed_rest = trim_chars(rest.as_slice());
    let content = trim_separator_chars(trimmed_rest.as_slice());
    if content.len() == 0 {
        None
    } else {
        Some(content)
    }
}

/// The query after `trigger`, if the text starts with it.
fn query_after(lower: &[char], trigger: &str) -> (r: Option<Vec<char>>)
    ensures
        has_prefix(lower@, trigger@) ==> (r matches Some(v) && v@ == rest_after(lower@, trigger@)),
        !has_prefix(lower@, trigger@) ==> r is None,
{
    let t = pattern_chars(trigger);
    if !chars_start_with(lower, t.as_slice()) {
        return None;
    }
    let rest = copy_range(lower, t.len(), lower.len());
    Some(trim_chars(rest.as_slice()))
}

/// Recognizes the intent in text that is already trimmed and lower-cased.
pub fn parse_normalized_intent(lower: &str) -> (r: DeterministicIntent)
    ensures
        intent_of(lower@, r),
{
    let chars = chars_of(lower);
    if chars.len() == 0 {
        return DeterministicIntent::Unrecognized;
    }
    let ghost s = chars@;
    proof {
        reveal_with_fuel(first_note, 5);
        reveal_with_fuel(first_query, 6);
    }
    if let Some(v) = note_after(chars.as_slice(), "note") {
        return DeterministicIntent::SaveNote { content: string_of(v.as_slice()) };
    }
    if let Some(v) = note_after(chars.as_slice(), "remember") {
        return DeterministicIntent::SaveNote { content: string_of(v.as_slice()) };
    }
    if let Some(v) = note_after(chars.as_slice(), "save this") {
        return DeterministicIntent::SaveNote { content: string_of(v.as_slice()) };
    }
    if let Some(v) = note_after(chars.as_slice(), "capture") {
        return DeterministicIntent::SaveNote { content: string_of(v.as_slice()) };
    }
    assert(first_note(s, 0) is None);
    if let Some(v) = query_after(chars.as_slice(), "what did i") {
        return DeterministicIntent::QueryMemory { query: string_of(v.as_slice()) };
    }
    if let Some(v) = query_after(chars.as_slice(), "find") {
        return DeterministicIntent::QueryMemory { query: string_of(v.as_slice()) };
    }
    if let Some(v) = query_after(chars.as_slice(), "search my") {
        return DeterministicIntent::QueryMemory { query: string_of(v.as_slice()) };
    }
    if let Some(v) = query_after(chars.as_slice(), "look up my") {
        return DeterministicIntent::QueryMemory { query: string_of(v.as_slice()) };
    }
    if let Some(v) = query_after(chars.as_slice(), "show my") {
        return DeterministicIntent::QueryMemory { query: string_of(v.as_slice()) };
    }
    assert(first_query(s, 0) is None);
    let who = pattern_chars("who are you");
    let what_is = pattern_chars("what is aura");
    let what_are = pattern_chars("what are you");
    if chars_contain(chars.as_slice(), who.as_slice()) || chars_start_with(
        chars.as_slice(),
        what_is.as_slice(),
    ) || chars_start_with(chars.as_slice(), what_are.as_slice()) {
        return DeterministicIntent::Identity;
    }
    let time = pattern_chars("time");
    let what_time = pattern_chars("what time");
    let current_time = pattern_chars("current time");
    if chars_start_with(chars.as_slice(), time.as_slice()) || chars_start_with(
        chars.as_slice(),
        what_time.as_slice(),
    ) || chars_contain(chars.as_slice(), current_time.as_slice()) {
        return DeterministicIntent::CurrentTime;
    }
    DeterministicIntent::Unrecognized
}

/// Recognizes a deterministic intent in a transcript: the transcript is
/// trimmed and lower-cased, then the first matching rule wins. Empty and
/// blank transcripts are unrecognized.
pub fn parse_intent(transcript: &str) -> (r: DeterministicIntent)
    ensures
        intent_of(normalized_transcript(transcript@), r),
        trimmed(transcript@).len() == 0 ==> r is Unrecognized,
{
    let trimmed_text = trim_text(transcript);
    let lower = unicode_lowercase(trimmed_text.as_str());
    parse_normalized_intent(lower.as_str())
}

/// The floor's reply to an intent, given the local `HH:MM` time the time
/// answer reports. Every reply is non-empty.
pub fn floor_reply_at(intent: &DeterministicIntent, clock: &str) -> (r: String)
    ensures
        r@ == floor_reply_text(*intent, clock@),
        r@.len() > 0,
{
    proof {
        reveal_strlit("Cortex captured a note: “");
        reveal_strlit("Cortex would search your memory for “");
        reveal_strlit("It's ");
        reveal_strlit(
            "I'm Aura — your Neural Cortex. Local-first by default, cloud when you opt in.",
        );
        reveal_strlit(
            "Cortex heard you, but that's not something it can answer yet — the full brain ships in this build; try a simpler phrasing or bring ollama online.",
        );
    }
    match intent {
        DeterministicIntent::SaveNote { content } => {
            let tail = joined(content.as_str(), "” — saved to your local memory.");
            joined("Cortex captured a note: “", tail.as_str())
        },
        DeterministicIntent::QueryMemory { query } => {
            let tail = joined(query.as_str(), "” — the memory tools arrive in the next build.");
            joined("Cortex would search your memory for “", tail.as_str())
        },
        DeterministicIntent::Identity => String::from_str(
            "I'm Aura — your Neural Cortex. Local-first by default, cloud when you opt in.",
        ),
        DeterministicIntent::CurrentTime => {
            let tail = joined(clock, " on your machine.");
            joined("It's ", tail.as_str())
        },
        DeterministicIntent::Unrecognized => String::from_str(
            "Cortex heard you, but that's not something it can answer yet — the full brain ships in this build; try a simpler phrasing or bring ollama online.",
        ),
    }
}

/// The floor's reply to an intent; the time answer reads the local clock.
pub fn floor_reply(intent: &DeterministicIntent) -> (r: String)
    ensures
        !(intent is CurrentTime) ==> r@ == floor_reply_text(*intent, ""@),
        intent is CurrentTime ==> exists|clock: Seq<char>| r@ == #[trigger] floor_reply_text(
            *intent,
            clock,
        ),
        r@.len() > 0,
{
    match intent {
        DeterministicIntent::CurrentTime => {
            let clock = local_clock_hh_mm();
            floor_reply_at(intent, clock.as_str())
        },
        _ => floor_reply_at(intent, ""),
    }
}

/// Runs the whole floor: recognize, then reply.
pub fn run_floor(transcript: &str) -> (r: DeterministicResult)
    ensures
        intent_of(normalized_transcript(transcript@), r.intent),
        !(r.intent is CurrentTime) ==> r.reply@ == floor_reply_text(r.intent, ""@),
        r.intent is CurrentTime ==> exists|clock: Seq<char>| r.reply@ == #[trigger] floor_reply_text(
            r.intent,
            clock,
        ),
        r.reply@.len() > 0,
{
    let intent = parse_intent(transcript);
    let reply = floor_reply(&intent);
    DeterministicResult { intent, reply }
}

/// What is left after dropping leading separators, if anything, does not
/// begin with a separator.
proof fn lemma_trimmed_note_starts_cleanly(s: Seq<char>)
    ensures
        trim_note_separators(s).len() > 0 ==> !is_note_separator(trim_note_separators(s)[0]),
    decreases s.len(),
{
    if s.len() > 0 && is_note_separator(s[0]) {
        lemma_trimmed_note_starts_cleanly(s.drop_first());
    }
}

/// A note found from marker `from` on is non-empty and does not begin
/// with a separator.
proof fn lemma_first_note_is_clean(lower: Seq<char>, from: nat)
    ensures
        first_note(lower, from) matches Some(note) ==> note.len() > 0 && !is_note_separator(
            note[0],
        ),
    decreases 4 - from,
{
    if from < 4 {
        lemma_trimmed_note_starts_cleanly(rest_after(lower, note_markers()[from as int]));
        lemma_first_note_is_clean(lower, from + 1);
    }
}

/// White space around a transcript never changes what the floor
/// recognizes in it, and a note the floor captures is never empty and
/// never begins with a separator (`:`, space or `-`).
pub proof fn lemma_floor_intents_ignore_surrounding_white_space(
    leading: Seq<char>,
    transcript: Seq<char>,
    trailing: Seq<char>,
    intent: DeterministicIntent,
)
    requires
        all_white_space(leading),
        all_white_space(trailing),
    ensures
        normalized_transcript(leading + transcript + trailing) == normalized_transcript(transcript),
        intent_of(normalized_transcript(leading + transcript + trailing), intent) <==> intent_of(
            normalized_transcript(transcript),
            intent,
        ),
        intent_of(normalized_transcript(transcript), intent) ==> (intent matches DeterministicIntent::SaveNote {
            content,
        } ==> content@.len() > 0 && !is_note_separator(content@[0])),
{
    lemma_trimmed_ignores_surrounding_white_space(leading, transcript, trailing);
    lemma_first_note_is_clean(normalized_transcript(transcript), 0);
}

/// Each documented note marker captures a note: a trimmed, lower-cased
/// transcript that begins with "note", "remember", "save this" or
/// "capture", followed by something other than separators, is a note
/// holding the rest of the text with the separators dropped.
pub proof fn lemma_note_markers_capture_notes(
    lower: Seq<char>,
    marker: Seq<char>,
    intent: DeterministicIntent,
)
    requires
        marker == "note"@ || marker == "remember"@ || marker == "save this"@ || marker
            == "capture"@,
        has_prefix(lower, marker),
        trim_note_separators(rest_after(lower, marker)).len() > 0,
        intent_of(lower, intent),
    ensures
        intent matches DeterministicIntent::SaveNote { content } && content@ == trim_note_separators(
            rest_after(lower, marker),
        ),
{
    reveal_strlit("note");
    reveal_strlit("remember");
    reveal_strlit("save this");
    reveal_strlit("capture");
    reveal_with_fuel(first_note, 5);
    let first = lower[0];
    assert(lower.subrange(0, marker.len() as int)[0] == first);
    assert(marker[0] == first);
    let markers = note_markers();
    assert(markers[0] == "note"@ && markers[1] == "remember"@ && markers[2] == "save this"@
        && markers[3] == "capture"@);
    assert forall|k: int| 0 <= k < 4 && has_prefix(lower, #[trigger] markers[k]) implies markers[k]
        == marker by {
        assert(lower.subrange(0, markers[k].len() as int)[0] == first);
    }
}

} // verus!

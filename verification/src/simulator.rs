//! The simulator's sequence language.
//!
//! A sequence is whitespace-separated tokens, repeated forever: `arm`, `unarm`,
//! `reset` send the command; `trigger` publishes a trigger; a token ending in `s`
//! (such as `8.4s`) waits that many seconds.

use vstd::prelude::*;
use crate::text::{owned, str_equal};
use crate::types::TriggerEvent;

verus! {

/// Unicode white space, as `char::is_whitespace` defines it.
pub open spec fn is_space(c: char) -> bool {
    ||| ('\u{9}' <= c && c <= '\u{d}')
    ||| c == ' '
    ||| c == '\u{85}'
    ||| c == '\u{a0}'
    ||| c == '\u{1680}'
    ||| ('\u{2000}' <= c && c <= '\u{200a}')
    ||| c == '\u{2028}'
    ||| c == '\u{2029}'
    ||| c == '\u{202f}'
    ||| c == '\u{205f}'
    ||| c == '\u{3000}'
}

/// Whether `c` is white space.
pub fn char_is_space(c: char) -> (r: bool)
    ensures
        r == is_space(c),
{
    ('\u{9}' <= c && c <= '\u{d}') || c == ' ' || c == '\u{85}' || c == '\u{a0}' || c
        == '\u{1680}' || ('\u{2000}' <= c && c <= '\u{200a}') || c == '\u{2028}' || c
        == '\u{2029}' || c == '\u{202f}' || c == '\u{205f}' || c == '\u{3000}'
}

/// The words of `s`: its maximal runs of characters that are not white space, in order.
pub open spec fn words(s: Seq<char>) -> Seq<Seq<char>>
    decreases s.len(),
{
    if s.len() == 0 {
        seq![]
    } else {
        let w = words(s.drop_last());
        let c = s.last();
        if is_space(c) {
            w
        } else if s.len() >= 2 && !is_space(s[s.len() - 2]) {
            w.update(w.len() - 1, w.last().push(c))
        } else {
            w.push(seq![c])
        }
    }
}

proof fn lemma_words_end_in_word(s: Seq<char>)
    requires
        s.len() > 0,
        !is_space(s.last()),
    ensures
        words(s).len() > 0,
    decreases s.len(),
{
    if s.len() >= 2 && !is_space(s[s.len() - 2]) {
        assert(s.drop_last().last() == s[s.len() - 2]);
        lemma_words_end_in_word(s.drop_last());
    }
}

/// The white-space separated tokens of `text`, in order.
pub fn split_tokens(text: &str) -> (r: Vec<String>)
    ensures
        crate::text::string_views(r@) == words(text@),
{
    let n = text.unicode_len();
    let mut out: Vec<String> = Vec::new();
    let mut in_word = false;
    let mut start: usize = 0;
    let mut i: usize = 0;
    while i < n
        invariant
            n == text@.len(),
            i <= n,
            in_word ==> start < i && words(text@.take(i as int)) == crate::text::string_views(out@).push(
                text@.subrange(start as int, i as int),
            ) && !is_space(text@[i - 1]),
            !in_word ==> words(text@.take(i as int)) == crate::text::string_views(out@) && (i == 0
                || is_space(text@[i - 1])),
        decreases n - i,
    {
        let c = text.get_char(i);
        let ghost t = text@.take(i + 1);
        assert(t.drop_last() =~= text@.take(i as int));
        assert(t.last() == c);
        if char_is_space(c) {
            if in_word {
                let word = owned(text.substring_char(start, i));
                let ghost before = out@;
                out.push(word);
                assert(crate::text::string_views(out@) =~= crate::text::string_views(before).push(
                    text@.subrange(start as int, i as int),
                ));
                in_word = false;
            }
        } else {
            if in_word {
                assert(t[t.len() - 2] == text@[i - 1]);
                proof {
                    lemma_words_end_in_word(text@.take(i as int));
                }
                assert(text@.subrange(start as int, i + 1) =~= text@.subrange(start as int, i as int).push(c));
            } else {
                if i > 0 {
                    assert(t[t.len() - 2] == text@[i - 1]);
                }
                start = i;
                in_word = true;
                assert(text@.subrange(start as int, i + 1) =~= seq![c]);
            }
        }
        i = i + 1;
    }
    assert(text@.take(n as int) =~= text@);
    if in_word {
        let word = owned(text.substring_char(start, n));
        let ghost before = out@;
        out.push(word);
        assert(crate::text::string_views(out@) =~= crate::text::string_views(before).push(
            text@.subrange(start as int, n as int),
        ));
    }
    out
}

/// One step of a simulator sequence.
#[derive(Debug, Clone, PartialEq, Eq)]
pub enum SimStep {
    /// Wait for the given number of seconds, as written (without the `s`).
    Wait { seconds: String },
    /// Publish a trigger.
    Trigger,
    /// Send the arm command.
    Arm,
    /// Send the unarm command.
    Unarm,
    /// Send the reset command.
    Reset,
    /// A token that means nothing; it is skipped.
    Unknown { token: String },
}

/// The step a token means: a token of two or more characters ending in `s` waits for
/// what precedes the `s`; otherwise `trigger`, `arm`, `unarm` and `reset` name their
/// steps, and anything else is unknown.
pub open spec fn token_step_is(token: Seq<char>, step: SimStep) -> bool {
    if token.len() > 1 && token.last() == 's' {
        step matches SimStep::Wait { seconds } && seconds@ == token.drop_last()
    } else if token == "trigger"@ {
        step == SimStep::Trigger
    } else if token == "arm"@ {
        step == SimStep::Arm
    } else if token == "unarm"@ {
        step == SimStep::Unarm
    } else if token == "reset"@ {
        step == SimStep::Reset
    } else {
        step matches SimStep::Unknown { token: t } && t@ == token
    }
}

/// The step a token means.
pub fn classify_token(token: &str) -> (r: SimStep)
    ensures
        token_step_is(token@, r),
{
    let n = token.unicode_len();
    if n > 1 && token.get_char(n - 1) == 's' {
        return SimStep::Wait { seconds: owned(token.substring_char(0, n - 1)) };
    }
    if str_equal(token, "trigger") {
        SimStep::Trigger
    } else if str_equal(token, "arm") {
        SimStep::Arm
    } else if str_equal(token, "unarm") {
        SimStep::Unarm
    } else if str_equal(token, "reset") {
        SimStep::Reset
    } else {
        SimStep::Unknown { token: owned(token) }
    }
}

/// Why a sequence cannot be simulated.
#[derive(Debug, Clone, Copy, PartialEq, Eq, Structural)]
pub enum SimulatorError {
    /// The sequence holds no token.
    EmptySequence,
}

impl SimulatorError {
    /// The message of the error.
    pub fn message(&self) -> (r: String)
        ensures
            r@ == "Simulator sequence is empty"@,
    {
        owned("Simulator sequence is empty")
    }
}

/// The steps of a sequence, one per token in order; an error for a sequence without
/// tokens.
pub fn parse_sequence(sequence: &str) -> (r: Result<Vec<SimStep>, SimulatorError>)
    ensures
        r is Err <==> words(sequence@).len() == 0,
        (r matches Ok(steps) ==> steps@.len() == words(sequence@).len() && forall|i: int|
            0 <= i < steps@.len() ==> token_step_is(words(sequence@)[i], #[trigger] steps@[i])),
{
    let tokens = split_tokens(sequence);
    if tokens.len() == 0 {
        return Err(SimulatorError::EmptySequence);
    }
    let mut steps: Vec<SimStep> = Vec::new();
    let mut i: usize = 0;
    while i < tokens.len()
        invariant
            i <= tokens@.len(),
            crate::text::string_views(tokens@) == words(sequence@),
            steps@.len() == i,
            forall|k: int| 0 <= k < i ==> token_step_is(words(sequence@)[k], #[trigger] steps@[k]),
        decreases tokens@.len() - i,
    {
        assert(words(sequence@)[i as int] == tokens@[i as int]@);
        steps.push(classify_token(tokens[i].as_str()));
        i = i + 1;
    }
    Ok(steps)
}

/// The trigger event the simulator publishes at `timestamp_ns`.
pub fn simulator_trigger_event(timestamp_ns: u64) -> (r: TriggerEvent)
    ensures
        r.timestamp_ns == timestamp_ns,
        r.source@ == "simulator"@,
{
    TriggerEvent { timestamp_ns, source: owned("simulator") }
}

} // verus!

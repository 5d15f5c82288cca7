use vstd::prelude::*;
use vstd::string::StrSliceExecFns;

verus! {

/// What an inbound text asks of an active conversation.
#[derive(Clone, Copy, Debug, PartialEq, Eq, Structural)]
pub enum Command {
    /// Clear the history, keep the model version.
    Reset,
    /// Drop the oldest message of the history.
    Tail,
    /// Switch to the fast model version.
    UseGpt3,
    /// Switch to the large model version.
    UseGpt4,
    /// Not a command: a message for the model.
    Message,
}

/// `t` begins with `p`.
pub open spec fn starts_with(t: Seq<char>, p: Seq<char>) -> bool {
    p.len() <= t.len() && t.subrange(0, p.len() as int) == p
}

/// The command a text stands for, tried in a fixed order; text that starts
/// with no command prefix is an ordinary message.
pub open spec fn command_of(t: Seq<char>) -> Command {
    if starts_with(t, "/reset"@) {
        Command::Reset
    } else if starts_with(t, "/tail"@) {
        Command::Tail
    } else if starts_with(t, "/gpt3"@) {
        Command::UseGpt3
    } else if starts_with(t, "/gpt4"@) {
        Command::UseGpt4
    } else {
        Command::Message
    }
}

/// Whether `text` begins with `prefix`.
pub fn has_prefix(text: &str, prefix: &str) -> (r: bool)
    ensures
        r == starts_with(text@, prefix@),
{
    let n = text.unicode_len();
    let m = prefix.unicode_len();
    if m > n {
        return false;
    }
    let mut i: usize = 0;
    while i < m
        invariant
            m == prefix@.len(),
            n == text@.len(),
            m <= n,
            i <= m,
            forall|j: int| 0 <= j < i ==> text@[j] == prefix@[j],
        decreases m - i,
    {
        if text.get_char(i) != prefix.get_char(i) {
            assert(text@.subrange(0, m as int)[i as int] != prefix@[i as int]);
            return false;
        }
        i = i + 1;
    }
    assert(text@.subrange(0, m as int) =~= prefix@);
    true
}

/// Classifies an inbound text.
pub fn classify(text: &str) -> (r: Command)
    ensures
        r == command_of(text@),
{
    if has_prefix(text, "/reset") {
        Command::Reset
    } else if has_prefix(text, "/tail") {
        Command::Tail
    } else if has_prefix(text, "/gpt3") {
        Command::UseGpt3
    } else if has_prefix(text, "/gpt4") {
        Command::UseGpt4
    } else {
        Command::Message
    }
}

} // verus!

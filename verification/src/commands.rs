//! Chat commands the bot answers.

use vstd::prelude::*;
use vstd::string::StrSliceExecFns;

verus! {

/// The command that asks the bot for a sign of life.
pub open spec fn ping_command() -> Seq<char> {
    "!ping"@
}

/// The bot's answer to the ping command.
pub open spec fn pong_reply() -> Seq<char> {
    "Pong!"@
}

/// Character-wise equality of two strings.
pub fn str_equal(a: &str, b: &str) -> (eq: bool)
    ensures
        eq == (a@ == b@),
{
    let n = a.unicode_len();
    if n != b.unicode_len() {
        return false;
    }
    let mut i: usize = 0;
    while i < n
        invariant
            n == a@.len(),
            n == b@.len(),
            i <= n,
            forall|j: int| 0 <= j < i ==> a@[j] == b@[j],
        decreases n - i,
    {
        if a.get_char(i) != b.get_char(i) {
            assert(a@[i as int] != b@[i as int]);
            return false;
        }
        i = i + 1;
    }
    assert(a@ =~= b@);
    true
}

/// What the bot sends back to the channel for a message with the given
/// content: `Some` reply for the ping command, `None` for anything else.
pub fn reply_to_message(content: &str) -> (reply: Option<String>)
    ensures
        reply is Some <==> content@ == ping_command(),
        reply matches Some(text) ==> text@ == pong_reply(),
{
    if str_equal(content, "!ping") {
        Some(String::from_str("Pong!"))
    } else {
        None
    }
}

} // verus!

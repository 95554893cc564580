//! The prefix gate: which messages address the bot.

use vstd::prelude::*;
use vstd::string::StrSliceExecFns;
use crate::config::PREFIX;

verus! {

/// Whether `message` addresses the bot: it begins with the command prefix.
pub open spec fn is_invocation(message: Seq<char>) -> bool {
    PREFIX@.is_prefix_of(message)
}

/// Splits the command prefix off `message`.
///
/// Gives the text behind the prefix if the message begins with it, and
/// `None` for every other message: such a message invokes no command.
pub fn strip_prefix<'a>(message: &'a str) -> (rest: Option<&'a str>)
    ensures
        rest is Some <==> is_invocation(message@),
        rest is Some ==> message@ == PREFIX@ + rest.unwrap()@,
{
    proof {
        reveal_strlit("!");
    }
    let length: usize = message.unicode_len();
    if length >= 1 && message.get_char(0) == '!' {
        let rest = message.substring_char(1, length);
        assert(message@ =~= PREFIX@ + rest@);
        assert(PREFIX@ =~= message@.subrange(0, 1));
        Some(rest)
    } else {
        assert(!is_invocation(message@)) by {
            if is_invocation(message@) {
                assert(message@.subrange(0, 1)[0] == PREFIX@[0]);
            }
        }
        None
    }
}

} // verus!

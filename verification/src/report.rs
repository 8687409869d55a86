//! The text that is written to the console when the game panics.

use vstd::prelude::*;

verus! {

/// `String::push_str` of std appends the characters of `other` to the string
/// and changes nothing else.
pub assume_specification[ String::push_str ](s: &mut String, other: &str)
    ensures
        final(s)@ == old(s)@ + other@,
;

/// A panic report: what the panic said, then, under a heading of its own,
/// the stack at the time, then an empty line.
pub open spec fn spec_panic_report(info: Seq<char>, stack: Seq<char>) -> Seq<char> {
    info + "\n\nStack:\n\n"@ + stack + "\n\n"@
}

/// Composes the report of a panic from its message and the stack trace.
pub fn panic_report(info: &str, stack: &str) -> (msg: String)
    ensures
        msg@ == spec_panic_report(info@, stack@),
{
    let mut msg = info.to_owned();
    msg.push_str("\n\nStack:\n\n");
    msg.push_str(stack);
    msg.push_str("\n\n");
    msg
}

} // verus!

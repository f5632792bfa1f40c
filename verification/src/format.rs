//! Layout of a line of the log file.

use vstd::prelude::*;

verus! {

/// A line of the log file: the time stamp, a colon and a space, and the
/// message.
pub open spec fn formatted_line(timestamp: Seq<char>, message: Seq<char>) -> Seq<char> {
    timestamp + seq![':', ' '] + message
}

/// Appends `text` to `buffer` with `String::push_str`.
///
/// Trusted: the contract claims that afterwards the buffer holds what it
/// held before, followed by `text`.
#[verifier::external_body]
fn push_text(buffer: &mut String, text: &str)
    ensures
        final(buffer)@ == old(buffer)@ + text@,
{
    buffer.push_str(text);
}

/// Lays out a line of the log file from the time stamp of a record and its
/// message, both already rendered.
pub fn my_format(timestamp: &str, message: &str) -> (line: String)
    ensures
        line@ == formatted_line(timestamp@, message@),
{
    let mut line = String::new();
    push_text(&mut line, timestamp);
    push_text(&mut line, ": ");
    push_text(&mut line, message);
    proof {
        reveal_strlit(": ");
        assert(": "@ =~= seq![':', ' ']);
        assert(line@ =~= formatted_line(timestamp@, message@));
    }
    line
}

} // verus!

//! An error and its causes on one line.

use vstd::prelude::*;

verus! {

/// The messages of an error and of its causes, one after the other with `: ` between them.
pub open spec fn one_line(messages: Seq<Seq<char>>) -> Seq<char>
    decreases messages.len(),
{
    if messages.len() == 0 {
        Seq::empty()
    } else if messages.len() == 1 {
        messages[0]
    } else {
        one_line(messages.drop_last()) + ": "@ + messages.last()
    }
}

/// Writes an error on one line: its own message first, then the message of
/// each of its causes, from the nearest to the farthest.
#[derive(Clone, Debug, PartialEq, Eq)]
pub struct OneLineFormatter {
    messages: Vec<String>,
}

impl View for OneLineFormatter {
    type V = Seq<Seq<char>>;

    closed spec fn view(&self) -> Seq<Seq<char>> {
        self.messages.deep_view()
    }
}

impl OneLineFormatter {
    /// Takes the message of the error and those of its causes, in this order.
    pub fn new(e: Vec<String>) -> (formatter: OneLineFormatter)
        ensures
            formatter@ == e.deep_view(),
    {
        OneLineFormatter { messages: e }
    }

    /// The line.
    pub fn to_string(&self) -> (line: String)
        ensures
            line@ == one_line(self@),
    {
        let ghost all = self.messages.deep_view();
        let mut line = String::new();
        let mut i: usize = 0;
        while i < self.messages.len()
            invariant
                i <= self.messages.len(),
                all == self.messages.deep_view(),
                line@ == one_line(all.take(i as int)),
            decreases self.messages.len() - i,
        {
            proof {
                let upto = all.take(i + 1);
                assert(upto.drop_last() =~= all.take(i as int));
            }
            if i > 0 {
                line.append(": ");
            }
            line.append(self.messages[i].as_str());
            i += 1;
        }
        assert(all.take(self.messages.len() as int) =~= all);
        line
    }
}

/// The messages of an error that has this message and these causes.
pub fn caused(message: &str, causes: Vec<String>) -> (messages: Vec<String>)
    ensures
        messages.deep_view() == seq![message@] + causes.deep_view(),
{
    let mut messages = causes;
    messages.insert(0, message.to_owned());
    messages
}

/// The messages of an error that has this message and no cause.
pub fn uncaused(message: &str) -> (messages: Vec<String>)
    ensures
        messages.deep_view() == seq![message@],
{
    let messages = caused(message, Vec::new());
    messages
}

} // verus!

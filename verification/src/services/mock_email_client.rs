//! An email client that records instead of sending, for tests and local runs.

use vstd::prelude::*;
use crate::domain::email::Email;

verus! {

/// Records every message it is asked to send, viewed as the sequence of
/// `(recipient, subject, content)` triples.
#[derive(Debug)]
pub struct MockEmailClient {
    sent: Vec<(String, String, String)>,
}

impl View for MockEmailClient {
    type V = Seq<(Seq<char>, Seq<char>, Seq<char>)>;

    closed spec fn view(&self) -> Seq<(Seq<char>, Seq<char>, Seq<char>)> {
        self.sent.deep_view()
    }
}

impl Default for MockEmailClient {
    /// A client that has sent nothing.
    fn default() -> (r: Self)
        ensures
            r@ == Seq::<(Seq<char>, Seq<char>, Seq<char>)>::empty(),
    {
        let client = MockEmailClient { sent: Vec::new() };
        proof {
            assert(client.sent.deep_view() =~= Seq::<(Seq<char>, Seq<char>, Seq<char>)>::empty());
        }
        client
    }
}

impl MockEmailClient {
    /// Records the message. Never fails.
    pub fn send_email(&mut self, recipient: &Email, subject: &str, content: &str) -> (r: Result<
        (),
        (),
    >)
        ensures
            r is Ok,
            final(self)@ == old(self)@.push((recipient@, subject@, content@)),
    {
        let entry = (
            String::from_str(recipient.as_str()),
            String::from_str(subject),
            String::from_str(content),
        );
        self.sent.push(entry);
        proof {
            assert(self.sent.deep_view() =~= old(self).sent.deep_view().push(
                (recipient@, subject@, content@),
            ));
        }

        Ok(())
    }

    /// How many messages were recorded.
    pub fn sent_count(&self) -> (r: usize)
        ensures
            r == self@.len(),
    {
        self.sent.len()
    }
}

} // verus!

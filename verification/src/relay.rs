//! The relay of a session: the task that reads what the shell prints and
//! publishes it, chunk by chunk, until the stream ends.
//!
//! The reading and the publishing are the caller's; this module decides, for
//! each read, what is published and whether the relay goes on.

use vstd::prelude::*;
use vstd::string::*;
use vstd::utf8::*;

verus! {

/// The number of bytes that the relay asks for in one read.
pub const RELAY_BUFFER_SIZE: usize = 8192;

/// The topic on which the output of session `session_id` is published.
pub open spec fn spec_event_topic(session_id: Seq<char>) -> Seq<char> {
    "terminal-data-"@ + session_id
}

/// Builds the topic on which the output of `session_id` is published.
pub fn event_topic(session_id: &str) -> (topic: String)
    ensures
        topic@ == spec_event_topic(session_id@),
{
    let mut topic = "terminal-data-".to_owned();
    topic.append(session_id);
    topic
}

/// The text that `String::from_utf8_lossy` makes of `bytes`: the text that
/// the bytes encode, with U+FFFD in place of each part that is not UTF-8.
pub uninterp spec fn lossy_text(bytes: Seq<u8>) -> Seq<char>;

/// Decodes `bytes` as text and never fails.
///
/// Calls `String::from_utf8_lossy` of the standard library. Nothing here
/// proves what it returns: the contract gives its result the name
/// `lossy_text`, and repeats what its documentation says of bytes that are
/// UTF-8 throughout, namely that they are decoded as they are.
#[verifier::external_body]
fn decode_lossy(bytes: &[u8]) -> (text: String)
    ensures
        text@ == lossy_text(bytes@),
        valid_utf8(bytes@) ==> text@ == decode_utf8(bytes@),
{
    String::from_utf8_lossy(bytes).into_owned()
}

/// The bytes that a read returned, or `None` for a read that failed.
pub open spec fn spec_read(read: Option<&[u8]>) -> Option<Seq<u8>> {
    match read {
        Some(chunk) => Some(chunk@),
        None => None,
    }
}

/// Whether a read tells the relay that the stream is over: it failed, or
/// it returned no bytes. The second is how the end of the stream shows,
/// once the shell has exited and the slave side is closed.
pub open spec fn ends_stream(read: Option<Seq<u8>>) -> bool {
    match read {
        Some(chunk) => chunk.len() == 0,
        None => true,
    }
}

/// Whether the relay is over after `read`, given whether it was before.
pub open spec fn relay_finished(finished: bool, read: Option<Seq<u8>>) -> bool {
    finished || ends_stream(read)
}

/// What the relay publishes for `read`: the lossy text of a chunk that
/// arrives while the relay runs, and nothing otherwise.
pub open spec fn relay_emits(finished: bool, read: Option<Seq<u8>>) -> Option<Seq<char>> {
    if finished || ends_stream(read) {
        None
    } else {
        Some(lossy_text(read->0))
    }
}

/// All that a relay publishes, in order, when it is handed `reads` one
/// after the other, starting as `finished` says.
pub open spec fn relay_output(finished: bool, reads: Seq<Option<Seq<u8>>>) -> Seq<Seq<char>>
    decreases reads.len(),
{
    if reads.len() == 0 {
        Seq::empty()
    } else {
        let rest = relay_output(relay_finished(finished, reads[0]), reads.drop_first());
        match relay_emits(finished, reads[0]) {
            Some(text) => seq![text] + rest,
            None => rest,
        }
    }
}

/// The relay of one session.
pub struct RelayTask {
    topic: String,
    finished: bool,
}

impl RelayTask {
    /// The topic that the relay publishes on.
    pub closed spec fn spec_topic(&self) -> Seq<char> {
        self.topic@
    }

    /// Whether the relay has seen the end of its stream.
    pub closed spec fn spec_finished(&self) -> bool {
        self.finished
    }

    /// A relay for session `session_id`, ready for its first read.
    pub fn new(session_id: &str) -> (task: Self)
        ensures
            task.spec_topic() == spec_event_topic(session_id@),
            !task.spec_finished(),
    {
        RelayTask { topic: event_topic(session_id), finished: false }
    }

    /// The topic that the relay publishes on.
    pub fn topic(&self) -> (topic: &str)
        ensures
            topic@ == self.spec_topic(),
    {
        self.topic.as_str()
    }

    /// Whether the relay has seen the end of its stream; the caller reads
    /// on for as long as it has not.
    pub fn is_finished(&self) -> (finished: bool)
        ensures
            finished == self.spec_finished(),
    {
        self.finished
    }

    /// Takes in the result of one read: the bytes it returned, or `None`
    /// if it failed. Returns the text to publish, if there is any.
    ///
    /// A chunk with bytes in it is published as lossy text. A failed read
    /// and an empty chunk end the relay, and an ended relay publishes
    /// nothing, whatever it is handed.
    pub fn on_read(&mut self, read: Option<&[u8]>) -> (emit: Option<String>)
        ensures
            final(self).spec_topic() == old(self).spec_topic(),
            final(self).spec_finished() == relay_finished(
                old(self).spec_finished(),
                spec_read(read),
            ),
            match emit {
                Some(text) => relay_emits(old(self).spec_finished(), spec_read(read)) == Some(
                    text@,
                ),
                None => relay_emits(old(self).spec_finished(), spec_read(read)) is None,
            },
            emit matches Some(text) ==> (valid_utf8(read->0@) ==> text@ == decode_utf8(read->0@)),
    {
        if self.finished {
            return None;
        }
        match read {
            Some(chunk) => {
                if chunk.len() == 0 {
                    self.finished = true;
                    None
                } else {
                    Some(decode_lossy(chunk))
                }
            },
            None => {
                self.finished = true;
                None
            },
        }
    }
}

/// A relay that has ended publishes nothing more, whatever is read.
pub proof fn lemma_finished_relay_is_silent(reads: Seq<Option<Seq<u8>>>)
    ensures
        relay_output(true, reads) == Seq::<Seq<char>>::empty(),
    decreases reads.len(),
{
    if reads.len() > 0 {
        lemma_finished_relay_is_silent(reads.drop_first());
    }
}

/// Nothing that is read after the end of the stream is published: what a
/// relay publishes is settled by the reads before the first one that ends
/// the stream.
pub proof fn lemma_no_output_after_end_of_stream(
    finished: bool,
    reads: Seq<Option<Seq<u8>>>,
    end: int,
)
    requires
        0 <= end < reads.len(),
        ends_stream(reads[end]),
    ensures
        relay_output(finished, reads) == relay_output(finished, reads.take(end)),
    decreases end,
{
    let after = relay_finished(finished, reads[0]);
    if end == 0 {
        lemma_finished_relay_is_silent(reads.drop_first());
        assert(reads.take(0) =~= Seq::<Option<Seq<u8>>>::empty());
    } else {
        lemma_no_output_after_end_of_stream(after, reads.drop_first(), end - 1);
        assert(reads.drop_first().take(end - 1) =~= reads.take(end).drop_first());
        assert(reads.take(end)[0] == reads[0]);
    }
}

} // verus!

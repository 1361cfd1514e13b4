//! The stream state machine: it turns the notices of a server-sent-event
//! transport into the ordered sequence of typed events that the caller pulls.
//! The transport itself is driven by the caller, who hands each notice in.

use crate::event::Event;
use crate::json::DecodeError;
use vstd::prelude::*;

verus! {

/// A fatal transport failure, as the transport described it.
#[derive(Debug, Clone, PartialEq)]
pub struct TransportFailure {
    pub message: String,
}

/// One element of the event sequence that is not an event.
#[derive(Debug, PartialEq)]
pub enum StreamError {
    /// The transport failed; the sequence ends after this element.
    Stream(TransportFailure),
    /// One message did not hold an event; the sequence goes on.
    Parsing(DecodeError),
}

/// What the transport reports.
#[derive(Debug, Clone, PartialEq)]
pub enum Notice {
    /// The connection is open.
    Open,
    /// A message arrived, with its data.
    Message(String),
    /// The server closed the stream as expected.
    Ended,
    /// Any other transport error.
    Failed(TransportFailure),
}

/// What one message yields: its event, or the reason it holds none.
pub open spec fn message_output(text: Seq<char>) -> Result<Event, StreamError> {
    match Event::reading(text) {
        Ok(e) => Ok(e),
        Err(d) => Err(StreamError::Parsing(d)),
    }
}

/// Whether the sequence stops at this notice.
pub open spec fn ends_at(n: Notice) -> bool {
    n is Ended || n is Failed
}

/// What the caller is handed for one notice.
pub open spec fn notice_output(n: Notice) -> Seq<Result<Event, StreamError>> {
    match n {
        Notice::Open => Seq::empty(),
        Notice::Message(text) => seq![message_output(text@)],
        Notice::Ended => Seq::empty(),
        Notice::Failed(f) => seq![Err(StreamError::Stream(f))],
    }
}

/// The whole sequence that a run of notices yields: the output of each
/// notice in order, up to and including the first that ends the stream.
pub open spec fn outputs(notices: Seq<Notice>) -> Seq<Result<Event, StreamError>>
    decreases notices.len(),
{
    if notices.len() == 0 {
        Seq::empty()
    } else if ends_at(notices[0]) {
        notice_output(notices[0])
    } else {
        notice_output(notices[0]) + outputs(notices.drop_first())
    }
}

/// The state of one stream: receiving, or ended.
#[derive(Debug)]
pub struct EventStream {
    ended: bool,
}

impl EventStream {
    /// Whether the stream has ended; once it has, no notice yields anything.
    pub closed spec fn is_ended(&self) -> bool {
        self.ended
    }

    /// A stream that has just been connected.
    pub fn new() -> (r: EventStream)
        ensures
            !r.is_ended(),
    {
        EventStream { ended: false }
    }

    /// Whether the stream has ended.
    pub fn ended(&self) -> (r: bool)
        ensures
            r == self.is_ended(),
    {
        self.ended
    }

    /// Takes one notice and returns what the caller is handed for it.
    pub fn on_notice(&mut self, notice: Notice) -> (r: Option<Result<Event, StreamError>>)
        ensures
            old(self).is_ended() ==> r is None && final(self).is_ended(),
            !old(self).is_ended() ==> final(self).is_ended() == ends_at(notice) && match r {
                Some(x) => notice_output(notice) == seq![x],
                None => notice_output(notice) == Seq::<Result<Event, StreamError>>::empty(),
            },
    {
        if self.ended {
            return None;
        }
        match notice {
            Notice::Open => None,
            Notice::Message(text) => match Event::from_json(text.as_str()) {
                Ok(e) => Some(Ok(e)),
                Err(d) => Some(Err(StreamError::Parsing(d))),
            },
            Notice::Ended => {
                self.ended = true;
                None
            },
            Notice::Failed(f) => {
                self.ended = true;
                Some(Err(StreamError::Stream(f)))
            },
        }
    }
}

/// Runs a stream over a scripted run of notices and collects what it yields.
pub fn run_script(notices: Vec<Notice>) -> (r: Vec<Result<Event, StreamError>>)
    ensures
        r@ == outputs(notices@),
{
    let ghost all = notices@;
    let mut stream = EventStream::new();
    let mut out: Vec<Result<Event, StreamError>> = Vec::new();
    let mut rest = notices;
    while rest.len() > 0 && !stream.ended()
        invariant
            !stream.is_ended() ==> out@ + outputs(rest@) == outputs(all),
            stream.is_ended() ==> out@ == outputs(all),
        decreases rest@.len(),
    {
        let ghost before = rest@;
        let n = rest.remove(0);
        assert(rest@ =~= before.drop_first());
        let ghost prev = out@;
        match stream.on_notice(n) {
            Some(x) => out.push(x),
            None => {},
        }
        assert(out@ =~= prev + notice_output(n));
    }
    if !stream.ended() {
        assert(out@ =~= out@ + outputs(rest@));
    }
    out
}

/// The notices that deliver `texts` as messages, one each, in order.
pub open spec fn messages(texts: Seq<String>) -> Seq<Notice> {
    texts.map_values(|t: String| Notice::Message(t))
}

/// Messages go through one by one: each yields its own element, and what
/// follows them yields what it would alone.
pub proof fn lemma_messages_then(texts: Seq<String>, tail: Seq<Notice>)
    ensures
        outputs(messages(texts) + tail) == texts.map_values(|t: String| message_output(t@))
            + outputs(tail),
    decreases texts.len(),
{
    let s = messages(texts) + tail;
    if texts.len() > 0 {
        assert(s[0] == Notice::Message(texts[0]));
        assert(s.drop_first() =~= messages(texts.drop_first()) + tail);
        lemma_messages_then(texts.drop_first(), tail);
        assert(texts.map_values(|t: String| message_output(t@)) =~= seq![message_output(texts[0]@)]
            + texts.drop_first().map_values(|t: String| message_output(t@)));
    } else {
        assert(s =~= tail);
        assert(texts.map_values(|t: String| message_output(t@)) =~= Seq::empty());
    }
}

/// A stream that opens, delivers messages that each hold an event and then
/// ends as expected yields exactly those events, in arrival order, with no
/// error after them; nothing after the end yields anything.
pub proof fn lemma_clean_run(texts: Seq<String>, tail: Seq<Notice>)
    requires
        forall|i: int| 0 <= i < texts.len() ==> Event::reading(#[trigger] texts[i]@) is Ok,
    ensures
        outputs(seq![Notice::Open] + messages(texts) + seq![Notice::Ended] + tail).len()
            == texts.len(),
        forall|i: int|
            0 <= i < texts.len() ==> outputs(
                seq![Notice::Open] + messages(texts) + seq![Notice::Ended] + tail,
            )[i] == Ok::<Event, StreamError>(Event::reading(#[trigger] texts[i]@)->Ok_0),
{
    let s = seq![Notice::Open] + messages(texts) + seq![Notice::Ended] + tail;
    assert(s.drop_first() =~= messages(texts) + (seq![Notice::Ended] + tail));
    lemma_messages_then(texts, seq![Notice::Ended] + tail);
    let after = seq![Notice::Ended] + tail;
    assert(after[0] == Notice::Ended);
    assert(outputs(after) =~= Seq::empty());
    assert(outputs(s) =~= texts.map_values(|t: String| message_output(t@)));
}

/// A message that holds no event yields one parsing error in its place, and
/// the messages around it still yield their events.
pub proof fn lemma_bad_message_between(first: String, bad: String, last: String, tail: Seq<Notice>)
    requires
        Event::reading(first@) is Ok,
        Event::reading(bad@) is Err,
        Event::reading(last@) is Ok,
    ensures
        outputs(seq![Notice::Message(first), Notice::Message(bad), Notice::Message(last)] + tail)
            == seq![
            Ok::<Event, StreamError>(Event::reading(first@)->Ok_0),
            Err(StreamError::Parsing(Event::reading(bad@)->Err_0)),
            Ok(Event::reading(last@)->Ok_0),
        ] + outputs(tail),
{
    let texts = seq![first, bad, last];
    assert(messages(texts) =~= seq![Notice::Message(first), Notice::Message(bad), Notice::Message(last)]);
    lemma_messages_then(texts, tail);
    assert(texts.map_values(|t: String| message_output(t@)) =~= seq![
        Ok::<Event, StreamError>(Event::reading(first@)->Ok_0),
        Err(StreamError::Parsing(Event::reading(bad@)->Err_0)),
        Ok(Event::reading(last@)->Ok_0),
    ]);
}

/// A transport failure after a message yields that message's event, then the
/// failure, and nothing more.
pub proof fn lemma_failure_ends_stream(first: String, failure: TransportFailure, tail: Seq<Notice>)
    requires
        Event::reading(first@) is Ok,
    ensures
        outputs(seq![Notice::Message(first), Notice::Failed(failure)] + tail) == seq![
            Ok::<Event, StreamError>(Event::reading(first@)->Ok_0),
            Err(StreamError::Stream(failure)),
        ],
{
    let s = seq![Notice::Message(first), Notice::Failed(failure)] + tail;
    assert(s.drop_first()[0] == Notice::Failed(failure));
    assert(outputs(s.drop_first()) =~= seq![Err::<Event, StreamError>(StreamError::Stream(failure))]);
    assert(outputs(s) =~= seq![
        Ok::<Event, StreamError>(Event::reading(first@)->Ok_0),
        Err(StreamError::Stream(failure)),
    ]);
}

} // verus!

use vstd::prelude::*;
use crate::frontend::{FrontendEvent, frontend_event, event_view, hide_spinner_event, stream_response_event, format_response_event};
use crate::session::{Session, SessionView, recorded};

verus! {

/// The texts that are present among the deltas of one streamed chunk, in order.
pub open spec fn present_texts(deltas: Seq<Option<Seq<char>>>) -> Seq<Seq<char>>
    decreases deltas.len(),
{
    if deltas.len() == 0 {
        Seq::empty()
    } else {
        let rest = present_texts(deltas.drop_last());
        match deltas.last() {
            Some(t) => rest.push(t),
            None => rest,
        }
    }
}

/// The texts put one after the other.
pub open spec fn concat_all(parts: Seq<Seq<char>>) -> Seq<char>
    decreases parts.len(),
{
    if parts.len() == 0 {
        Seq::empty()
    } else {
        concat_all(parts.drop_last()) + parts.last()
    }
}

/// The data of each event, in order.
pub open spec fn event_texts(events: Seq<FrontendEvent>) -> Seq<Seq<char>> {
    events.map_values(|e: FrontendEvent| e.payload.data@)
}

/// Each event of `events` is a `stream_response_in_frontend` event.
pub open spec fn all_stream_events(events: Seq<FrontendEvent>) -> bool {
    forall|i: int| 0 <= i < events.len() ==> #[trigger] events[i].name@ == stream_response_event()
}

/// One streamed answer in progress: the text received so far, and (for the
/// proofs) the texts streamed to the window, in order.
pub struct Exchange {
    transcript: String,
    streamed: Ghost<Seq<Seq<char>>>,
}

/// What an `Exchange` holds: the text received so far and the texts streamed
/// to the window so far.
pub struct ExchangeView {
    pub transcript: Seq<char>,
    pub streamed: Seq<Seq<char>>,
}

impl View for Exchange {
    type V = ExchangeView;

    closed spec fn view(&self) -> ExchangeView {
        ExchangeView { transcript: self.transcript@, streamed: self.streamed@ }
    }
}

impl Exchange {
    /// The text received is always the texts streamed to the window, one after
    /// the other.
    #[verifier::type_invariant]
    spec fn transcript_is_streamed(self) -> bool {
        self.transcript@ == concat_all(self.streamed@)
    }

    /// The start of a streamed answer: nothing received yet, and the event that
    /// hides the spinner.
    pub fn start() -> (r: (Exchange, FrontendEvent))
        ensures
            r.0@.transcript == Seq::<char>::empty(),
            r.0@.streamed == Seq::<Seq<char>>::empty(),
            event_view(r.1) == (hide_spinner_event(), Seq::<char>::empty()),
    {
        let ev = frontend_event("hide_spinner_in_frontend", String::new());
        (Exchange { transcript: String::new(), streamed: Ghost(Seq::empty()) }, ev)
    }

    /// The text received so far.
    pub fn transcript(&self) -> (t: &String)
        ensures
            t@ == self@.transcript,
            self@.transcript == concat_all(self@.streamed),
    {
        proof {
            use_type_invariant(self);
        }
        &self.transcript
    }

    /// Takes one streamed chunk, given as the delta text of each of its choices:
    /// every present text is added to the transcript and streamed to the window,
    /// in order; choices without text are passed over.
    pub fn absorb(&mut self, deltas: &Vec<Option<String>>) -> (events: Vec<FrontendEvent>)
        ensures
            event_texts(events@) == present_texts(deltas.deep_view()),
            all_stream_events(events@),
            final(self)@.transcript == old(self)@.transcript + concat_all(present_texts(deltas.deep_view())),
            final(self)@.streamed == old(self)@.streamed + event_texts(events@),
            final(self)@.transcript == concat_all(final(self)@.streamed),
    {
        proof {
            use_type_invariant(&*self);
        }
        let ghost start = self.transcript@;
        let ghost before_streamed = self.streamed@;
        let mut text = self.transcript.clone();
        let mut events: Vec<FrontendEvent> = Vec::new();
        let n = deltas.len();
        let mut i: usize = 0;
        while i < n
            invariant
                n == deltas.len(),
                0 <= i <= n,
                event_texts(events@) == present_texts(deltas.deep_view().take(i as int)),
                all_stream_events(events@),
                text@ == start + concat_all(present_texts(deltas.deep_view().take(i as int))),
            decreases n - i,
        {
            let ghost before = deltas.deep_view().take(i as int);
            let ghost after = deltas.deep_view().take(i + 1);
            assert(after.drop_last() =~= before);
            assert(after.last() == deltas[i as int].deep_view());
            match &deltas[i] {
                Some(piece) => {
                    text.append(piece.as_str());
                    let ev = frontend_event("stream_response_in_frontend", piece.clone());
                    events.push(ev);
                    assert(event_texts(events@) =~= event_texts(events@.drop_last()).push(piece@));
                    assert(present_texts(after) == present_texts(before).push(piece@));
                    assert(present_texts(after).drop_last() =~= present_texts(before));
                },
                None => {
                    assert(present_texts(after) == present_texts(before));
                },
            }
            i = i + 1;
        }
        assert(deltas.deep_view().take(n as int) =~= deltas.deep_view());
        proof {
            lemma_concat_all_append(before_streamed, event_texts(events@));
        }
        *self = Exchange { transcript: text, streamed: Ghost(before_streamed + event_texts(events@)) };
        events
    }

    /// Takes one item of the stream: a chunk is taken as `absorb` does; an
    /// error item is passed over, with no event and no change.
    pub fn absorb_item(&mut self, item: &Result<Vec<Option<String>>, String>) -> (events: Vec<FrontendEvent>)
        ensures
            item is Err ==> events@.len() == 0 && final(self)@ == old(self)@,
            item matches Ok(deltas) ==> {
                &&& event_texts(events@) == present_texts(deltas.deep_view())
                &&& final(self)@.transcript == old(self)@.transcript + concat_all(present_texts(deltas.deep_view()))
            },
            all_stream_events(events@),
            final(self)@.streamed == old(self)@.streamed + event_texts(events@),
            final(self)@.transcript == concat_all(final(self)@.streamed),
    {
        proof {
            use_type_invariant(&*self);
        }
        match item {
            Ok(deltas) => self.absorb(deltas),
            Err(_) => {
                let events: Vec<FrontendEvent> = Vec::new();
                assert(old(self)@.streamed + event_texts(events@) =~= old(self)@.streamed);
                events
            },
        }
    }

    /// The end of a streamed answer: the transcript, which is all the texts
    /// streamed to the window one after the other, becomes the latest response,
    /// and the window is told to format it.
    pub fn finish(self, session: &mut Session) -> (ev: FrontendEvent)
        ensures
            final(session)@ == recorded(old(session)@, self@.transcript),
            final(session)@.response == Some(concat_all(self@.streamed)),
            event_view(ev) == (format_response_event(), Seq::<char>::empty()),
    {
        proof {
            use_type_invariant(&self);
        }
        session.record_response(self.transcript);
        frontend_event("format_response_in_frontend", String::new())
    }
}

/// Putting texts together in two runs gives the same as in one run.
pub proof fn lemma_concat_all_append(a: Seq<Seq<char>>, b: Seq<Seq<char>>)
    ensures
        concat_all(a + b) == concat_all(a) + concat_all(b),
    decreases b.len(),
{
    if b.len() == 0 {
        assert(a + b =~= a);
    } else {
        lemma_concat_all_append(a, b.drop_last());
        assert((a + b).drop_last() =~= a + b.drop_last());
        assert((a + b).last() == b.last());
    }
}

/// The transcript of a streamed answer is always the texts streamed to the
/// window, one after the other: if it holds before a chunk, it holds after it.
pub proof fn lemma_transcript_is_streamed_text(
    before: Seq<char>,
    streamed: Seq<Seq<char>>,
    chunk: Seq<Option<Seq<char>>>,
)
    requires
        before == concat_all(streamed),
    ensures
        before + concat_all(present_texts(chunk)) == concat_all(streamed + present_texts(chunk)),
{
    lemma_concat_all_append(streamed, present_texts(chunk));
}

/// The transcript after a run of chunks, starting from an empty one: each
/// chunk adds its present texts (what `Exchange::absorb` does to it).
pub open spec fn transcript_after(chunks: Seq<Seq<Option<Seq<char>>>>) -> Seq<char>
    decreases chunks.len(),
{
    if chunks.len() == 0 {
        Seq::empty()
    } else {
        transcript_after(chunks.drop_last()) + concat_all(present_texts(chunks.last()))
    }
}

/// The texts streamed to the window over a run of chunks, in order (the data of
/// the events `Exchange::absorb` returns, chunk after chunk).
pub open spec fn streamed_after(chunks: Seq<Seq<Option<Seq<char>>>>) -> Seq<Seq<char>>
    decreases chunks.len(),
{
    if chunks.len() == 0 {
        Seq::empty()
    } else {
        streamed_after(chunks.drop_last()) + present_texts(chunks.last())
    }
}

/// However many chunks an answer comes in, the latest response recorded at its
/// end is all the texts streamed to the window, one after the other.
pub proof fn lemma_answer_is_all_streamed_text(s: SessionView, chunks: Seq<Seq<Option<Seq<char>>>>)
    ensures
        transcript_after(chunks) == concat_all(streamed_after(chunks)),
        recorded(s, transcript_after(chunks)).response == Some(concat_all(streamed_after(chunks))),
    decreases chunks.len(),
{
    if chunks.len() > 0 {
        lemma_answer_is_all_streamed_text(s, chunks.drop_last());
        lemma_concat_all_append(streamed_after(chunks.drop_last()), present_texts(chunks.last()));
    }
}

/// Putting no texts together gives the empty text; putting one text together
/// gives that text exactly, character for character.
pub proof fn lemma_concat_all_empty_and_single(t: Seq<char>)
    ensures
        concat_all(Seq::<Seq<char>>::empty()) == Seq::<char>::empty(),
        concat_all(seq![t]) == t,
{
    assert(seq![t].drop_last() =~= Seq::<Seq<char>>::empty());
    assert(Seq::<char>::empty() + t =~= t);
}

/// One more text adds exactly that text at the end: nothing is dropped, changed
/// or put between the texts.
pub proof fn lemma_concat_all_push(parts: Seq<Seq<char>>, t: Seq<char>)
    ensures
        concat_all(parts.push(t)) == concat_all(parts) + t,
        concat_all(parts.push(t)).len() == concat_all(parts).len() + t.len(),
{
    assert(parts.push(t).drop_last() =~= parts);
}

/// The present texts of a chunk: none for no choices, and one more choice adds
/// its text when it has one and nothing when it has none.
pub proof fn lemma_present_texts_steps(deltas: Seq<Option<Seq<char>>>, t: Seq<char>)
    ensures
        present_texts(Seq::<Option<Seq<char>>>::empty()) == Seq::<Seq<char>>::empty(),
        present_texts(deltas.push(Some(t))) == present_texts(deltas).push(t),
        present_texts(deltas.push(None)) == present_texts(deltas),
{
    assert(deltas.push(Some(t)).drop_last() =~= deltas);
    assert(deltas.push(None).drop_last() =~= deltas);
}

/// A chunk whose choices all carry text adds those texts to the transcript
/// verbatim, one after the other: with texts `a` then `b`, exactly `a + b`.
pub proof fn lemma_absorbed_texts_are_verbatim(a: Seq<char>, b: Seq<char>)
    ensures
        concat_all(present_texts(seq![Some(a)])) == a,
        concat_all(present_texts(seq![Some(a), Some(b)])) == a + b,
        concat_all(present_texts(seq![Some(a), None, Some(b)])) == a + b,
{
    lemma_present_texts_steps(Seq::empty(), a);
    assert(seq![Some(a)] =~= Seq::<Option<Seq<char>>>::empty().push(Some(a)));
    lemma_present_texts_steps(seq![Some(a)], b);
    assert(seq![Some(a), Some(b)] =~= seq![Some(a)].push(Some(b)));
    lemma_present_texts_steps(seq![Some(a)], b);
    assert(seq![Some(a), None] =~= seq![Some(a)].push(None));
    lemma_present_texts_steps(seq![Some(a), None], b);
    assert(seq![Some(a), None, Some(b)] =~= seq![Some(a), None].push(Some(b)));
    lemma_concat_all_empty_and_single(a);
    assert(seq![a] =~= Seq::<Seq<char>>::empty().push(a));
    lemma_concat_all_push(seq![a], b);
    assert(seq![a].push(b) =~= seq![a, b]);
}

/// Every text of a chunk reaches the transcript whole: the text taken from a
/// chunk is as long as all its present texts together.
pub proof fn lemma_absorbed_length(deltas: Seq<Option<Seq<char>>>)
    ensures
        concat_all(present_texts(deltas)).len() == total_len(present_texts(deltas)),
{
    lemma_concat_all_len(present_texts(deltas));
}

/// The total length of texts.
pub open spec fn total_len(parts: Seq<Seq<char>>) -> nat
    decreases parts.len(),
{
    if parts.len() == 0 {
        0
    } else {
        total_len(parts.drop_last()) + parts.last().len()
    }
}

/// Putting texts together keeps every character: the length is the total length.
pub proof fn lemma_concat_all_len(parts: Seq<Seq<char>>)
    ensures
        concat_all(parts).len() == total_len(parts),
    decreases parts.len(),
{
    if parts.len() > 0 {
        lemma_concat_all_len(parts.drop_last());
    }
}

} // verus!

//! Duplex relay between the real terminal and the pseudoterminal.
//!
//! Two independent directions run concurrently outside the library: one
//! copies bytes from the real input stream to the pseudoterminal's write
//! handle, the other copies bytes from the pseudoterminal's read handle to
//! the real output stream. Each direction blocks only on its own read call,
//! hands every chunk it read to [`RelayState`], and performs the action the
//! machine returns. The machine decides what every read result means and
//! accounts for every byte: what is bound for the pseudoterminal, what is
//! delivered to the real output, and what is appended to the transcript.

use vstd::prelude::*;
use vstd::seq_lib::lemma_multiset_commutative;

verus! {

broadcast use {vstd::multiset::group_multiset_axioms, vstd::seq_lib::group_to_multiset_ensures};

/// The result of one bounded-buffer read on a stream, as the driving loop
/// observed it: a non-empty chunk, end-of-stream, or a read error.
pub enum ReadEvent {
    Data(Vec<u8>),
    Eof,
    ReadError,
}

/// What the input direction must do with one read result: forward the chunk
/// to the pseudoterminal's write handle (and append the same bytes to the
/// transcript when asked), or stop its loop.
pub enum InputAction {
    ForwardToPty { data: Vec<u8>, to_transcript: bool },
    StopInput,
}

/// What the output direction must do with one read result: deliver the chunk
/// to the real output stream and flush (and append the same bytes to the
/// transcript when asked), or stop its loop.
pub enum OutputAction {
    DeliverToOutput { data: Vec<u8>, to_transcript: bool },
    StopOutput,
}

/// The overall outcome of a relayed session: successful when the child's
/// exit status could be retrieved, regardless of which direction stopped
/// first or whether a direction stopped on a mid-session I/O error.
#[derive(Clone, Copy, Debug, PartialEq, Eq, Structural)]
pub enum RelayResult {
    Completed,
    ChildWaitError,
}

/// The relay's state: which directions are still running, whether a
/// direction stopped on an error rather than end-of-stream, and a ghost
/// account of every byte that passed through.
pub struct RelayState {
    /// Whether a transcript sink is configured for this session.
    pub transcript_enabled: bool,
    /// The input direction has not yet seen end-of-stream or an error.
    pub input_open: bool,
    /// The output direction has not yet seen end-of-stream or an error.
    pub output_open: bool,
    /// The input direction stopped on a read error, not end-of-stream.
    pub input_failed: bool,
    /// The output direction stopped on a read error, not end-of-stream.
    pub output_failed: bool,
    /// Every byte accepted from the real input stream, in order.
    pub input_bytes: Ghost<Seq<u8>>,
    /// Every byte delivered to the real output stream, in order.
    pub output_bytes: Ghost<Seq<u8>>,
    /// Every byte bound for the pseudoterminal's write handle, in order.
    pub pty_bound: Ghost<Seq<u8>>,
    /// Every byte appended to the transcript, in arrival order at the sink.
    pub transcript_bytes: Ghost<Seq<u8>>,
}

impl RelayState {
    /// The relay's invariant: the pseudoterminal-bound stream is exactly the
    /// accepted input; when transcripting is enabled the transcript is,
    /// byte for byte, a merge of the two directions' streams — its length
    /// is their sum and its bytes are exactly theirs — and when it is not,
    /// the transcript stays empty.
    pub open spec fn wf(self) -> bool {
        &&& self.pty_bound@ == self.input_bytes@
        &&& self.transcript_enabled ==> self.transcript_bytes@.to_multiset()
            == self.input_bytes@.to_multiset().add(self.output_bytes@.to_multiset())
        &&& self.transcript_enabled ==> self.transcript_bytes@.len() == self.input_bytes@.len()
            + self.output_bytes@.len()
        &&& !self.transcript_enabled ==> self.transcript_bytes@ == Seq::<u8>::empty()
    }

    /// A fresh relay: both directions running, nothing passed yet.
    pub fn new(transcript_enabled: bool) -> (s: RelayState)
        ensures
            s.wf(),
            s.transcript_enabled == transcript_enabled,
            s.input_open,
            s.output_open,
            !s.input_failed,
            !s.output_failed,
            s.input_bytes@ == Seq::<u8>::empty(),
            s.output_bytes@ == Seq::<u8>::empty(),
            s.pty_bound@ == Seq::<u8>::empty(),
            s.transcript_bytes@ == Seq::<u8>::empty(),
    {
        proof {
            let e = Seq::<u8>::empty();
            assert(e.to_multiset() =~= e.to_multiset().add(e.to_multiset())) by {
                assert forall|x: u8| e.to_multiset().count(x) == 0 by {
                    assert(!e.contains(x));
                }
            }
        }
        RelayState {
            transcript_enabled,
            input_open: true,
            output_open: true,
            input_failed: false,
            output_failed: false,
            input_bytes: Ghost(Seq::empty()),
            output_bytes: Ghost(Seq::empty()),
            pty_bound: Ghost(Seq::empty()),
            transcript_bytes: Ghost(Seq::empty()),
        }
    }

    /// Decide what one read result on the real input stream means. A chunk
    /// is forwarded to the pseudoterminal unchanged and in order, and is
    /// appended to the transcript exactly when transcripting is enabled;
    /// end-of-stream and errors stop the direction without touching the
    /// byte accounts. The output direction is never affected.
    pub fn on_input_read(&mut self, ev: ReadEvent) -> (act: InputAction)
        requires
            old(self).wf(),
            old(self).input_open,
        ensures
            final(self).wf(),
            final(self).transcript_enabled == old(self).transcript_enabled,
            final(self).output_open == old(self).output_open,
            final(self).output_failed == old(self).output_failed,
            final(self).output_bytes@ == old(self).output_bytes@,
            ev matches ReadEvent::Data(d) ==> {
                &&& act matches InputAction::ForwardToPty { data, to_transcript }
                    && data@ == d@
                    && to_transcript == old(self).transcript_enabled
                &&& final(self).input_open
                &&& final(self).input_failed == old(self).input_failed
                &&& final(self).input_bytes@ == old(self).input_bytes@ + d@
                &&& final(self).pty_bound@ == old(self).pty_bound@ + d@
                &&& final(self).transcript_bytes@ == if old(self).transcript_enabled {
                    old(self).transcript_bytes@ + d@
                } else {
                    old(self).transcript_bytes@
                }
            },
            ev is Eof ==> {
                &&& act is StopInput
                &&& !final(self).input_open
                &&& final(self).input_failed == old(self).input_failed
                &&& final(self).input_bytes@ == old(self).input_bytes@
                &&& final(self).pty_bound@ == old(self).pty_bound@
                &&& final(self).transcript_bytes@ == old(self).transcript_bytes@
            },
            ev is ReadError ==> {
                &&& act is StopInput
                &&& !final(self).input_open
                &&& final(self).input_failed
                &&& final(self).input_bytes@ == old(self).input_bytes@
                &&& final(self).pty_bound@ == old(self).pty_bound@
                &&& final(self).transcript_bytes@ == old(self).transcript_bytes@
            },
    {
        match ev {
            ReadEvent::Data(d) => {
                let to_transcript = self.transcript_enabled;
                proof {
                    if self.transcript_enabled {
                        lemma_multiset_commutative(self.transcript_bytes@, d@);
                        lemma_multiset_commutative(self.input_bytes@, d@);
                        assert((self.transcript_bytes@ + d@).to_multiset() =~= (self.input_bytes@
                            + d@).to_multiset().add(self.output_bytes@.to_multiset()));
                    }
                    self.input_bytes@ = self.input_bytes@ + d@;
                    self.pty_bound@ = self.pty_bound@ + d@;
                    if self.transcript_enabled {
                        self.transcript_bytes@ = self.transcript_bytes@ + d@;
                    }
                }
                InputAction::ForwardToPty { data: d, to_transcript }
            },
            ReadEvent::Eof => {
                self.input_open = false;
                InputAction::StopInput
            },
            ReadEvent::ReadError => {
                self.input_open = false;
                self.input_failed = true;
                InputAction::StopInput
            },
        }
    }

    /// Decide what one read result on the pseudoterminal's read handle
    /// means. A chunk is delivered to the real output unchanged and in
    /// order, and is appended to the transcript exactly when transcripting
    /// is enabled; end-of-stream and errors stop the direction without
    /// touching the byte accounts. The input direction is never affected.
    pub fn on_output_read(&mut self, ev: ReadEvent) -> (act: OutputAction)
        requires
            old(self).wf(),
            old(self).output_open,
        ensures
            final(self).wf(),
            final(self).transcript_enabled == old(self).transcript_enabled,
            final(self).input_open == old(self).input_open,
            final(self).input_failed == old(self).input_failed,
            final(self).input_bytes@ == old(self).input_bytes@,
            final(self).pty_bound@ == old(self).pty_bound@,
            ev matches ReadEvent::Data(d) ==> {
                &&& act matches OutputAction::DeliverToOutput { data, to_transcript }
                    && data@ == d@
                    && to_transcript == old(self).transcript_enabled
                &&& final(self).output_open
                &&& final(self).output_failed == old(self).output_failed
                &&& final(self).output_bytes@ == old(self).output_bytes@ + d@
                &&& final(self).transcript_bytes@ == if old(self).transcript_enabled {
                    old(self).transcript_bytes@ + d@
                } else {
                    old(self).transcript_bytes@
                }
            },
            ev is Eof ==> {
                &&& act is StopOutput
                &&& !final(self).output_open
                &&& final(self).output_failed == old(self).output_failed
                &&& final(self).output_bytes@ == old(self).output_bytes@
                &&& final(self).transcript_bytes@ == old(self).transcript_bytes@
            },
            ev is ReadError ==> {
                &&& act is StopOutput
                &&& !final(self).output_open
                &&& final(self).output_failed
                &&& final(self).output_bytes@ == old(self).output_bytes@
                &&& final(self).transcript_bytes@ == old(self).transcript_bytes@
            },
    {
        match ev {
            ReadEvent::Data(d) => {
                let to_transcript = self.transcript_enabled;
                proof {
                    if self.transcript_enabled {
                        lemma_multiset_commutative(self.transcript_bytes@, d@);
                        lemma_multiset_commutative(self.output_bytes@, d@);
                        assert((self.transcript_bytes@ + d@).to_multiset()
                            =~= self.input_bytes@.to_multiset().add(
                            (self.output_bytes@ + d@).to_multiset(),
                        ));
                    }
                    self.output_bytes@ = self.output_bytes@ + d@;
                    if self.transcript_enabled {
                        self.transcript_bytes@ = self.transcript_bytes@ + d@;
                    }
                }
                OutputAction::DeliverToOutput { data: d, to_transcript }
            },
            ReadEvent::Eof => {
                self.output_open = false;
                OutputAction::StopOutput
            },
            ReadEvent::ReadError => {
                self.output_open = false;
                self.output_failed = true;
                OutputAction::StopOutput
            },
        }
    }

    /// The pseudoterminal's write handle refused a chunk: the shell side is
    /// gone, so the input direction is complete — this is completion, not
    /// failure. Nothing else changes.
    pub fn on_pty_write_closed(&mut self)
        requires
            old(self).wf(),
        ensures
            final(self).wf(),
            !final(self).input_open,
            *final(self) == (RelayState { input_open: false, ..*old(self) }),
    {
        self.input_open = false;
    }

    /// The real output stream refused a chunk: a mid-session I/O error on
    /// the output direction. That direction stops and the error is
    /// recorded; the input direction is never affected.
    pub fn on_output_write_failed(&mut self)
        requires
            old(self).wf(),
        ensures
            final(self).wf(),
            !final(self).output_open,
            final(self).output_failed,
            *final(self) == (RelayState {
                output_open: false,
                output_failed: true,
                ..*old(self)
            }),
    {
        self.output_open = false;
        self.output_failed = true;
    }

    /// The overall result once the child has been waited on. The session is
    /// successful exactly when the child's exit status was retrievable,
    /// whatever either direction did before that.
    pub fn finish(&self, child_status_retrieved: bool) -> (r: RelayResult)
        ensures
            r == if child_status_retrieved {
                RelayResult::Completed
            } else {
                RelayResult::ChildWaitError
            },
    {
        if child_status_retrieved {
            RelayResult::Completed
        } else {
            RelayResult::ChildWaitError
        }
    }
}

/// Round-trip law: in every reachable relay state, the bytes bound for the
/// pseudoterminal are exactly the bytes accepted from the real input
/// stream, in the same order.
pub proof fn lemma_round_trip(s: RelayState)
    requires
        s.wf(),
    ensures
        s.pty_bound@ == s.input_bytes@,
{
}

/// Transcript completeness law: with transcripting enabled, the transcript's
/// byte length equals the bytes accepted from the real input stream plus
/// the bytes delivered to the real output stream — and byte for byte the
/// transcript is a merge of exactly those two streams, nothing dropped and
/// nothing added.
pub proof fn lemma_transcript_completeness(s: RelayState)
    requires
        s.wf(),
        s.transcript_enabled,
    ensures
        s.transcript_bytes@.len() == s.input_bytes@.len() + s.output_bytes@.len(),
        s.transcript_bytes@.to_multiset() == s.input_bytes@.to_multiset().add(
            s.output_bytes@.to_multiset(),
        ),
{
}

/// With no transcript configured, the relay never transcribes a byte.
pub proof fn lemma_no_transcript_when_disabled(s: RelayState)
    requires
        s.wf(),
        !s.transcript_enabled,
    ensures
        s.transcript_bytes@ == Seq::<u8>::empty(),
{
}

} // verus!

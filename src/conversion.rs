//! One conversion as a sequence of decisions: start the server, open a
//! session, open the document, print it, write it piece by piece, close the
//! session. The caller performs each action and reports back what came of it.
use vstd::prelude::*;
use crate::digits::decimal;
use crate::external::base64_decoded;
use crate::options::{spawn_args, GeckodriverSpawnOptions};
use crate::pipeline::{
    decode_piece, decode_pieces, file_uri, is_absolute_path, lemma_decode_pieces_nonempty, payload_text,
    split_payload, ConversionError, Destination, PrintResponse,
};
use crate::session::{capabilities, endpoint_of, endpoint_url, headless_args, Capabilities};
use std::collections::VecDeque;

verus! {

/// Where a conversion stands: the step whose outcome it waits for.
#[derive(Debug, Clone, Copy, PartialEq, Eq)]
pub enum Stage {
    Spawning,
    Connecting,
    Navigating,
    Printing,
    Writing,
    Closing,
    Finished,
}

/// What came of the last action.
#[derive(Debug, Clone)]
pub enum Event {
    Spawned,
    SpawnFailed,
    Connected,
    ConnectFailed,
    Navigated,
    NavigateFailed,
    Printed(PrintResponse),
    PrintFailed,
    Written,
    SinkFailed,
    Closed,
}

/// What the caller is to do next.
#[derive(Debug)]
pub enum Action {
    /// Start the server at the options' path with these arguments.
    Spawn(Vec<String>),
    /// Negotiate a session at this endpoint.
    Connect(String, Capabilities),
    /// Open this URI in the browser.
    Navigate(String),
    /// Issue the print command with default parameters.
    Print,
    /// Append these bytes to the conversion's destination.
    Write(Vec<u8>),
    /// Close the session.
    Close,
    /// The run is over; its failure, if any, is recorded.
    Finish,
}

/// The state of one conversion.
#[derive(Debug)]
pub struct Conversion {
    pub options: GeckodriverSpawnOptions,
    pub port: u16,
    /// The absolute path of the document.
    pub source: String,
    pub destination: Destination,
    pub stage: Stage,
    pub failure: Option<ConversionError>,
    /// The pieces of the printed payload that are still to be decoded.
    pub pending: VecDeque<String>,
}

/// The position of a stage in the run.
pub open spec fn position(stage: Stage) -> int {
    match stage {
        Stage::Spawning => 0,
        Stage::Connecting => 1,
        Stage::Navigating => 2,
        Stage::Printing => 3,
        Stage::Writing => 4,
        Stage::Closing => 5,
        Stage::Finished => 6,
    }
}

/// A session is open, and must be closed, in these stages.
pub open spec fn holds_session(stage: Stage) -> bool {
    stage == Stage::Navigating || stage == Stage::Printing || stage == Stage::Writing
        || stage == Stage::Closing
}

/// The steps a run can take from one stage to the next.
pub open spec fn may_follow(from: Stage, to: Stage) -> bool {
    match from {
        Stage::Spawning => to == Stage::Connecting || to == Stage::Finished,
        Stage::Connecting => to == Stage::Navigating || to == Stage::Finished,
        Stage::Navigating => to == Stage::Printing || to == Stage::Closing,
        Stage::Printing => to == Stage::Writing || to == Stage::Closing,
        Stage::Writing => to == Stage::Writing || to == Stage::Closing,
        Stage::Closing => to == Stage::Finished,
        Stage::Finished => false,
    }
}

/// The outcomes that can be reported in each stage.
pub open spec fn expects(stage: Stage, event: Event) -> bool {
    match stage {
        Stage::Spawning => event is Spawned || event is SpawnFailed,
        Stage::Connecting => event is Connected || event is ConnectFailed,
        Stage::Navigating => event is Navigated || event is NavigateFailed,
        Stage::Printing => event is Printed || event is PrintFailed,
        Stage::Writing => event is Written || event is SinkFailed,
        Stage::Closing => event is Closed,
        Stage::Finished => false,
    }
}

/// The views of the pieces still to be decoded.
pub open spec fn pieces_view(pending: VecDeque<String>) -> Seq<Seq<char>> {
    pending@.map_values(|p: String| p@)
}

/// Whether the next of `pieces` can be decoded and written.
pub open spec fn next_piece_writable(pieces: Seq<Seq<char>>) -> bool {
    pieces.len() > 0 && base64_decoded(pieces[0]) is Some
}

/// The stage that follows on `event` in conversion `c`. Before a session is
/// open a failure ends the run; once it is open, every failure and the last
/// write lead to closing it.
pub open spec fn next_stage(c: Conversion, event: Event) -> Stage {
    match event {
        Event::Spawned => Stage::Connecting,
        Event::SpawnFailed => Stage::Finished,
        Event::Connected => Stage::Navigating,
        Event::ConnectFailed => Stage::Finished,
        Event::Navigated => Stage::Printing,
        Event::Printed(response) => match response {
            PrintResponse::Text(s) => if next_piece_writable(decode_pieces(s@)) {
                Stage::Writing
            } else {
                Stage::Closing
            },
            _ => Stage::Closing,
        },
        Event::Written => if next_piece_writable(pieces_view(c.pending)) {
            Stage::Writing
        } else {
            Stage::Closing
        },
        Event::Closed => Stage::Finished,
        _ => Stage::Closing,
    }
}

impl Conversion {
    /// The source is absolute, and a failure is only ever recorded on the way
    /// out of the run.
    pub open spec fn wf(&self) -> bool {
        &&& is_absolute_path(self.source@)
        &&& self.failure is Some ==> (self.stage == Stage::Closing || self.stage == Stage::Finished)
    }

    /// The two conversions are of the same document, server and destination.
    pub open spec fn same_run(&self, other: &Conversion) -> bool {
        self.options.path@ == other.options.path@ && self.options.headless == other.options.headless
            && self.port == other.port && self.source@ == other.source@
            && self.destination == other.destination
    }

    /// A new conversion of the document at the absolute path `source` to
    /// `destination`, through a server on `port`; the first action starts the
    /// server with `--port <port>`.
    pub fn start(options: GeckodriverSpawnOptions, port: u16, source: String, destination: Destination) -> (r: (Conversion, Action))
        requires
            is_absolute_path(source@),
        ensures
            r.0.options.path@ == options.path@,
            r.0.options.headless == options.headless,
            r.0.port == port,
            r.0.source@ == source@,
            r.0.destination == destination,
            r.0.stage == Stage::Spawning,
            r.0.failure is None,
            r.0.pending@.len() == 0,
            r.0.wf(),
            r.1 matches Action::Spawn(args) && args@.len() == 2 && args@[0]@ == "--port"@
                && args@[1]@ == decimal(port as nat),
    {
        let args = spawn_args(port);
        let conversion = Conversion {
            options,
            port,
            source,
            destination,
            stage: Stage::Spawning,
            failure: None,
            pending: VecDeque::new(),
        };
        (conversion, Action::Spawn(args))
    }

    /// Whether the conversion is well formed.
    pub fn is_well_formed(&self) -> (r: bool)
        ensures
            r == self.wf(),
    {
        let src = self.source.as_str();
        let absolute = src.unicode_len() > 0 && src.get_char(0) == '/';
        let closing = match self.stage {
            Stage::Closing | Stage::Finished => true,
            _ => false,
        };
        absolute && (self.failure.is_none() || closing)
    }

    /// Whether `event` is an outcome of the current stage.
    pub fn expects(&self, event: &Event) -> (r: bool)
        ensures
            r == expects(self.stage, *event),
    {
        match self.stage {
            Stage::Spawning => matches!(event, Event::Spawned | Event::SpawnFailed),
            Stage::Connecting => matches!(event, Event::Connected | Event::ConnectFailed),
            Stage::Navigating => matches!(event, Event::Navigated | Event::NavigateFailed),
            Stage::Printing => matches!(event, Event::Printed(_) | Event::PrintFailed),
            Stage::Writing => matches!(event, Event::Written | Event::SinkFailed),
            Stage::Closing => matches!(event, Event::Closed),
            Stage::Finished => false,
        }
    }

    /// Decodes the next pending piece: write it, or close the session when
    /// nothing is left or the piece is not base64.
    fn next_piece(&mut self) -> (action: Action)
        ensures
            final(self).same_run(old(self)),
            pieces_view(old(self).pending).len() > 0
                ==> pieces_view(final(self).pending) == pieces_view(old(self).pending).drop_first(),
            final(self).stage == (if next_piece_writable(pieces_view(old(self).pending)) {
                Stage::Writing
            } else {
                Stage::Closing
            }),
            next_piece_writable(pieces_view(old(self).pending)) ==> (action matches Action::Write(bytes)
                && base64_decoded(pieces_view(old(self).pending)[0]) == Some(bytes@)
                && final(self).failure == old(self).failure),
            !next_piece_writable(pieces_view(old(self).pending)) ==> action is Close,
            pieces_view(old(self).pending).len() == 0 ==> final(self).failure == old(self).failure,
            pieces_view(old(self).pending).len() > 0 && !next_piece_writable(pieces_view(old(self).pending))
                ==> final(self).failure matches Some(ConversionError::Decode(_)),
    {
        let ghost before = pieces_view(self.pending);
        match self.pending.pop_front() {
            None => {
                self.stage = Stage::Closing;
                Action::Close
            },
            Some(piece) => {
                assert(piece@ == before[0]);
                assert(pieces_view(self.pending) =~= before.drop_first());
                match decode_piece(piece.as_str()) {
                    Ok(bytes) => {
                        self.stage = Stage::Writing;
                        Action::Write(bytes)
                    },
                    Err(e) => {
                        self.stage = Stage::Closing;
                        self.failure = Some(e);
                        Action::Close
                    },
                }
            },
        }
    }

    /// Takes the outcome of the last action and returns the next one.
    pub fn advance(&mut self, event: Event) -> (action: Action)
        requires
            old(self).wf(),
            expects(old(self).stage, event),
        ensures
            final(self).wf(),
            final(self).same_run(old(self)),
            final(self).stage == next_stage(*old(self), event),
            may_follow(old(self).stage, final(self).stage),
            match event {
                Event::Printed(PrintResponse::Text(s)) =>
                    pieces_view(final(self).pending) == decode_pieces(s@).drop_first()
                    && (final(self).stage == Stage::Writing ==> (action matches Action::Write(bytes)
                        && base64_decoded(decode_pieces(s@)[0]) == Some(bytes@))),
                Event::Written =>
                    (pieces_view(old(self).pending).len() > 0 ==> pieces_view(final(self).pending)
                        == pieces_view(old(self).pending).drop_first())
                    && (final(self).stage == Stage::Writing ==> (action matches Action::Write(bytes)
                        && base64_decoded(pieces_view(old(self).pending)[0]) == Some(bytes@))),
                _ => final(self).pending == old(self).pending,
            },
            match final(self).stage {
                Stage::Connecting => action matches Action::Connect(endpoint, caps)
                    && endpoint@ == endpoint_of(final(self).port)
                    && caps.engine_key@ == "moz:firefoxOptions"@
                    && (final(self).options.headless <==> caps.args is Some)
                    && (final(self).options.headless ==> caps.args->0@.map_values(|a: String| a@) == headless_args()),
                Stage::Navigating => action matches Action::Navigate(uri) && uri@ == "file://"@ + final(self).source@,
                Stage::Printing => action is Print,
                Stage::Writing => action is Write,
                Stage::Closing => action is Close,
                _ => action is Finish,
            },
            match event {
                Event::SpawnFailed => final(self).failure matches Some(ConversionError::Spawn),
                Event::ConnectFailed => final(self).failure matches Some(ConversionError::Connect),
                Event::NavigateFailed => final(self).failure matches Some(ConversionError::Navigate),
                Event::PrintFailed => final(self).failure matches Some(ConversionError::Print),
                Event::SinkFailed => final(self).failure matches Some(ConversionError::Sink),
                Event::Printed(response) => match response {
                    PrintResponse::Text(s) => if next_piece_writable(decode_pieces(s@)) {
                        final(self).failure == old(self).failure
                    } else {
                        final(self).failure matches Some(ConversionError::Decode(_))
                    },
                    _ => final(self).failure matches Some(ConversionError::UnexpectedResponseShape(k))
                        && k == response.shape(),
                },
                Event::Written => if pieces_view(old(self).pending).len() > 0
                    && !next_piece_writable(pieces_view(old(self).pending)) {
                    final(self).failure matches Some(ConversionError::Decode(_))
                } else {
                    final(self).failure == old(self).failure
                },
                _ => final(self).failure == old(self).failure,
            },
    {
        match event {
            Event::Spawned => {
                self.stage = Stage::Connecting;
                Action::Connect(endpoint_url(self.port), capabilities(self.options.headless))
            },
            Event::SpawnFailed => {
                self.stage = Stage::Finished;
                self.failure = Some(ConversionError::Spawn);
                Action::Finish
            },
            Event::Connected => {
                self.stage = Stage::Navigating;
                Action::Navigate(file_uri(self.source.as_str()))
            },
            Event::ConnectFailed => {
                self.stage = Stage::Finished;
                self.failure = Some(ConversionError::Connect);
                Action::Finish
            },
            Event::Navigated => {
                self.stage = Stage::Printing;
                Action::Print
            },
            Event::NavigateFailed => {
                self.stage = Stage::Closing;
                self.failure = Some(ConversionError::Navigate);
                Action::Close
            },
            Event::Printed(response) => {
                match payload_text(response) {
                    Ok(text) => {
                        proof { lemma_decode_pieces_nonempty(text@); }
                        self.pending = split_payload(text.as_str());
                        self.next_piece()
                    },
                    Err(e) => {
                        self.stage = Stage::Closing;
                        self.failure = Some(e);
                        Action::Close
                    },
                }
            },
            Event::PrintFailed => {
                self.stage = Stage::Closing;
                self.failure = Some(ConversionError::Print);
                Action::Close
            },
            Event::Written => self.next_piece(),
            Event::SinkFailed => {
                self.stage = Stage::Closing;
                self.failure = Some(ConversionError::Sink);
                Action::Close
            },
            Event::Closed => {
                self.stage = Stage::Finished;
                Action::Finish
            },
        }
    }
}

/// Once a session is open, the run cannot end without closing it: from a
/// stage that holds a session, the only step to the end is the close.
pub proof fn lemma_session_closed_before_finish(from: Stage, to: Stage)
    requires
        holds_session(from),
        may_follow(from, to),
    ensures
        holds_session(to) || (from == Stage::Closing && to == Stage::Finished),
{
}

/// A run that has opened a session and then finished has closed it: the
/// stages it went through include the close.
pub proof fn lemma_finished_run_closed_session(stages: Seq<Stage>)
    requires
        stages.len() > 0,
        holds_session(stages[0]),
        forall|i: int| 0 <= i < stages.len() - 1 ==> may_follow(#[trigger] stages[i], stages[i + 1]),
        stages.last() == Stage::Finished,
    ensures
        exists|i: int| 0 <= i < stages.len() && (#[trigger] stages[i]) == Stage::Closing,
    decreases stages.len(),
{
    if stages.len() == 1 {
    } else {
        assert(may_follow(stages[0], stages[1]));
        lemma_session_closed_before_finish(stages[0], stages[1]);
        if stages[0] == Stage::Closing {
            assert(stages[0] == Stage::Closing);
        } else {
            let rest = stages.drop_first();
            assert forall|i: int| 0 <= i < rest.len() - 1 implies may_follow(#[trigger] rest[i], rest[i + 1]) by {
                assert(may_follow(stages[i + 1], stages[i + 2]));
            }
            lemma_finished_run_closed_session(rest);
            let i = choose|i: int| 0 <= i < rest.len() && (#[trigger] rest[i]) == Stage::Closing;
            assert(stages[i + 1] == rest[i]);
        }
    }
}

/// Every step moves the run forward, but for the writes of one payload,
/// which each take one more piece: nothing is retried.
pub proof fn lemma_each_step_advances(from: Stage, to: Stage)
    requires
        may_follow(from, to),
    ensures
        position(to) > position(from) || (from == Stage::Writing && to == Stage::Writing),
{
}

/// A print response that is not text never reaches a write: the run goes on
/// to close the session with nothing written.
pub proof fn lemma_unprintable_response_writes_nothing(c: Conversion, response: PrintResponse)
    requires
        !(response is Text),
    ensures
        next_stage(c, Event::Printed(response)) == Stage::Closing,
{
}

/// A failed start or a failed negotiation ends the run at once, with no
/// session to close.
pub proof fn lemma_failure_before_session_ends_run(c: Conversion, event: Event)
    requires
        expects(c.stage, event),
        event is SpawnFailed || event is ConnectFailed,
    ensures
        next_stage(c, event) == Stage::Finished,
        !holds_session(c.stage),
{
}

} // verus!

use vstd::prelude::*;
use crate::codec::{decode, decode_text, lacks_member, lemma_missing_member_is_no_message};
use crate::consumer::{dispatch, Consumer};
use crate::data_model::WebsocketPushData;

verus! {

/// `tungstenite::Message`, a frame of the transport.
#[verifier::external_type_specification]
#[verifier::external_body]
pub struct ExMessage(tungstenite::Message);

/// `tungstenite::Error`, a failure of the transport.
#[verifier::external_type_specification]
#[verifier::external_body]
pub struct ExTransportError(tungstenite::Error);

/// The kinds of failure that the transport reports.
#[derive(Clone, Copy, Debug, PartialEq, Eq)]
pub enum TransportFault {
    ConnectionClosed,
    AlreadyClosed,
    Io,
    Tls,
    Capacity,
    Protocol,
    SendQueueFull,
    Utf8,
    Url,
    Http,
    HttpFormat,
}

/// Whether a frame is a text frame.
pub uninterp spec fn frame_is_text(message: tungstenite::Message) -> bool;

/// The text that the transport decodes a frame's payload to, where it
/// decodes to one.
pub uninterp spec fn frame_text(message: tungstenite::Message) -> Option<Seq<char>>;

/// The text of a frame: that of a text frame. A frame of any other kind has
/// none, whatever its payload holds.
pub open spec fn readable_text(message: tungstenite::Message) -> Option<Seq<char>> {
    if frame_is_text(message) {
        frame_text(message)
    } else {
        None
    }
}

/// The kind of a transport failure.
pub uninterp spec fn fault_kind(error: tungstenite::Error) -> TransportFault;

/// `tungstenite::Message::text`. Trusted: the frame that it makes decodes to
/// the text that it was made of.
#[verifier::external_body]
fn text_frame(text: String) -> (message: tungstenite::Message)
    ensures
        frame_is_text(message),
        frame_text(message) == Some(text@),
{
    tungstenite::Message::text(text)
}

/// `tungstenite::Message::is_text`. Trusted: the same frame gives the same
/// answer.
#[verifier::external_body]
fn is_text_frame(message: &tungstenite::Message) -> (text: bool)
    ensures
        text == frame_is_text(*message),
{
    message.is_text()
}

/// The variant `Utf8` of `tungstenite::Error`: the failure with which the
/// transport answers a payload that is no text.
#[verifier::external_body]
fn not_text_fault() -> (fault: tungstenite::Error)
    ensures
        fault_kind(fault) == TransportFault::Utf8,
{
    tungstenite::Error::Utf8
}

/// `tungstenite::Message::into_text`. Trusted: the same frame decodes to the
/// same text, or to none. A text frame decodes to its text; any other frame
/// is decoded as UTF-8, and where that fails the failure is of the kind
/// `Utf8`.
#[verifier::external_body]
fn frame_into_text(message: tungstenite::Message) -> (decoded: Result<String, tungstenite::Error>)
    ensures
        match decoded {
            Ok(text) => frame_text(message) == Some(text@),
            Err(cause) => frame_text(message) is None && fault_kind(cause) == TransportFault::Utf8,
        },
{
    message.into_text()
}

/// Tells the variants of `tungstenite::Error` apart. Trusted: each variant
/// is given the kind of its own name.
#[verifier::external_body]
fn transport_fault(error: &tungstenite::Error) -> (fault: TransportFault)
    ensures
        fault == fault_kind(*error),
{
    match error {
        tungstenite::Error::ConnectionClosed => TransportFault::ConnectionClosed,
        tungstenite::Error::AlreadyClosed => TransportFault::AlreadyClosed,
        tungstenite::Error::Io(_) => TransportFault::Io,
        tungstenite::Error::Tls(_) => TransportFault::Tls,
        tungstenite::Error::Capacity(_) => TransportFault::Capacity,
        tungstenite::Error::Protocol(_) => TransportFault::Protocol,
        tungstenite::Error::SendQueueFull(_) => TransportFault::SendQueueFull,
        tungstenite::Error::Utf8 => TransportFault::Utf8,
        tungstenite::Error::Url(_) => TransportFault::Url,
        tungstenite::Error::Http(_) => TransportFault::Http,
        tungstenite::Error::HttpFormat(_) => TransportFault::HttpFormat,
    }
}

/// Whether a text is a URL.
pub uninterp spec fn url_is_valid(text: Seq<char>) -> bool;

/// `url::Url::parse`, asked only whether it accepts the text. Trusted: the
/// same text is accepted or refused every time.
#[verifier::external_body]
fn endpoint_parses(endpoint: &str) -> (valid: bool)
    ensures
        valid == url_is_valid(endpoint@),
{
    url::Url::parse(endpoint).is_ok()
}

/// Why the pipeline cannot start.
#[derive(Debug, PartialEq, Eq)]
pub enum StartupError {
    /// The endpoint is no URL. Holds the endpoint.
    InvalidEndpoint(String),
}

/// Why a frame gave no push message.
#[derive(Debug)]
pub enum ProducerError {
    /// The transport could not read a frame.
    ReadError(tungstenite::Error),
    /// The frame is no text.
    NonTextError(tungstenite::Error),
    /// The frame is text of no known schema. Holds that text.
    DeserializationError(String),
}

/// A failure that ends the pipeline.
#[derive(Clone, Copy, Debug, PartialEq, Eq)]
pub enum FatalError {
    /// The connection is closed.
    ConnectionClosed,
    /// The connection is broken.
    Io,
}

/// What the loop does about a failure.
#[derive(Debug)]
pub enum ErrorAction {
    /// Stop: the connection is gone and is not opened again.
    Terminate(FatalError),
    /// Report a frame that is no text, drop it and go on.
    LogNonText,
    /// Report the text of no known schema, drop it and go on.
    LogUnknownSchema(String),
    /// Report any other failure and go on.
    LogUnknown(ProducerError),
}

/// The fatal failure that a kind of transport failure is, if it is one.
pub open spec fn fatal_fault(fault: TransportFault) -> Option<FatalError> {
    match fault {
        TransportFault::ConnectionClosed | TransportFault::AlreadyClosed => Some(
            FatalError::ConnectionClosed,
        ),
        TransportFault::Io => Some(FatalError::Io),
        _ => None,
    }
}

/// The action that answers each failure.
pub open spec fn error_action(error: ProducerError) -> ErrorAction {
    match error {
        ProducerError::ReadError(cause) => match fatal_fault(fault_kind(cause)) {
            Some(fatal) => ErrorAction::Terminate(fatal),
            None => ErrorAction::LogUnknown(error),
        },
        ProducerError::NonTextError(_) => ErrorAction::LogNonText,
        ProducerError::DeserializationError(text) => ErrorAction::LogUnknownSchema(text),
    }
}

/// The wire text of a subscription to the order book of `instrument`, up to
/// the instrument.
pub const REQUEST_HEAD: &'static str =
    "{\"op\": \"subscribe\",\n    \"args\": [\n        {\n            \"channel\": \"books\",\n            \"instId\": \"";

/// The wire text of a subscription after the instrument.
pub const REQUEST_TAIL: &'static str = "\"\n        }\n    ]\n}";

/// The wire text of a subscription to the order book of `instrument`: the
/// instrument stands in it as it is given.
pub open spec fn subscription_text(instrument: Seq<char>) -> Seq<char> {
    REQUEST_HEAD@ + instrument + REQUEST_TAIL@
}

/// What parsing a text gives: the message that it holds, or the text back.
pub open spec fn text_parses_to(
    text: String,
    outcome: Result<WebsocketPushData, ProducerError>,
) -> bool {
    match decode_text(text@) {
        Some(model) => outcome is Ok && outcome->Ok_0@ == model,
        None => outcome == Err::<WebsocketPushData, ProducerError>(
            ProducerError::DeserializationError(text),
        ),
    }
}

/// Where the loop stands.
#[derive(Clone, Copy, Debug, PartialEq, Eq)]
pub enum FeedState {
    Subscribing,
    Listening,
    Terminated,
}

/// How one turn of the loop ended.
#[derive(Debug)]
pub enum ListenOutcome {
    /// Every sink was handed the message.
    Dispatched,
    /// The message carries no snapshot; no sink was handed it.
    Unfit(WebsocketPushData),
    /// No message came of the frame.
    Failed(ErrorAction),
}

impl FatalError {
    pub open spec fn spec_message(&self) -> Seq<char> {
        match *self {
            FatalError::ConnectionClosed => "Websocket connection closed."@,
            FatalError::Io => "Websocket IO error."@,
        }
    }

    /// The words with which the pipeline stops.
    pub fn message(&self) -> (text: String)
        ensures
            text@ == self.spec_message(),
    {
        match self {
            FatalError::ConnectionClosed => String::from_str("Websocket connection closed."),
            FatalError::Io => String::from_str("Websocket IO error."),
        }
    }
}

impl ErrorAction {
    pub open spec fn spec_report(&self) -> Option<Seq<char>> {
        match *self {
            ErrorAction::Terminate(fatal) => Some(fatal.spec_message()),
            ErrorAction::LogNonText => Some("Received non-text data in websocket response."@),
            ErrorAction::LogUnknownSchema(text) => Some(
                "Couldn't deserialize data into any known schema. JSON received: "@ + text@,
            ),
            ErrorAction::LogUnknown(_) => None,
        }
    }

    /// The line to log. A text of no known schema stands in it whole. For a
    /// failure of unknown kind there is none: the caller prints the failure.
    pub fn report(&self) -> (line: Option<String>)
        ensures
            match line {
                Some(text) => self.spec_report() == Some(text@),
                None => self.spec_report() is None,
            },
    {
        match self {
            ErrorAction::Terminate(fatal) => Some(fatal.message()),
            ErrorAction::LogNonText => Some(
                String::from_str("Received non-text data in websocket response."),
            ),
            ErrorAction::LogUnknownSchema(text) => {
                let mut line = String::from_str(
                    "Couldn't deserialize data into any known schema. JSON received: ",
                );
                line.append(text.as_str());
                Some(line)
            },
            ErrorAction::LogUnknown(_) => None,
        }
    }
}

impl ListenOutcome {
    /// Whether the loop ends here.
    pub open spec fn is_fatal(&self) -> bool {
        self matches ListenOutcome::Failed(ErrorAction::Terminate(_))
    }
}

/// The feed's side of the pipeline: the subscription protocol, the parser and
/// the loop's decisions. The transport session itself is the caller's.
#[derive(Debug)]
pub struct OkexProducer {
    pub state: FeedState,
}

impl OkexProducer {
    /// Checks the endpoint before the session is opened. A well-formed one
    /// gives a producer that has not subscribed yet; a malformed one is
    /// refused, and the pipeline must not start.
    pub fn connect(endpoint: &str) -> (outcome: Result<OkexProducer, StartupError>)
        ensures
            url_is_valid(endpoint@) ==> outcome is Ok && outcome->Ok_0.state
                == FeedState::Subscribing,
            !url_is_valid(endpoint@) ==> (outcome matches Err(
                StartupError::InvalidEndpoint(kept),
            ) && kept@ == endpoint@),
    {
        OkexProducer::accept_endpoint(endpoint, endpoint_parses(endpoint))
    }

    /// The start of a producer, given whether its endpoint is a URL.
    pub fn accept_endpoint(endpoint: &str, valid: bool) -> (outcome: Result<
        OkexProducer,
        StartupError,
    >)
        ensures
            valid ==> outcome is Ok && outcome->Ok_0.state == FeedState::Subscribing,
            !valid ==> (outcome matches Err(StartupError::InvalidEndpoint(kept)) && kept@
                == endpoint@),
    {
        if valid {
            Ok(OkexProducer { state: FeedState::Subscribing })
        } else {
            Err(StartupError::InvalidEndpoint(String::from_str(endpoint)))
        }
    }

    /// The text of the subscription request for one instrument.
    pub fn subscription_request(instrument_id: &str) -> (text: String)
        ensures
            text@ == subscription_text(instrument_id@),
    {
        let mut text = String::from_str(REQUEST_HEAD);
        text.append(instrument_id);
        text.append(REQUEST_TAIL);
        text
    }

    /// The frame that subscribes to the order book of one instrument.
    pub fn format_orderbook_request(instrument_id: &str) -> (message: tungstenite::Message)
        ensures
            readable_text(message) == Some(subscription_text(instrument_id@)),
    {
        text_frame(OkexProducer::subscription_request(instrument_id))
    }

    /// The frames to send while subscribing: one for each instrument, in the
    /// order of the list.
    pub fn request_orderbooks(instrument_ids: &Vec<String>) -> (requests: Vec<tungstenite::Message>)
        ensures
            requests@.len() == instrument_ids@.len(),
            forall|i: int|
                0 <= i < instrument_ids@.len() ==> readable_text(#[trigger] requests@[i]) == Some(
                    subscription_text(instrument_ids@[i]@),
                ),
    {
        let mut requests: Vec<tungstenite::Message> = Vec::new();
        let mut next: usize = 0;
        while next < instrument_ids.len()
            invariant
                next <= instrument_ids@.len(),
                requests@.len() == next,
                forall|i: int|
                    0 <= i < next ==> readable_text(#[trigger] requests@[i]) == Some(
                        subscription_text(instrument_ids@[i]@),
                    ),
            decreases instrument_ids@.len() - next,
        {
            requests.push(OkexProducer::format_orderbook_request(instrument_ids[next].as_str()));
            next = next + 1;
        }
        requests
    }

    /// What became of one subscription, given the exchange with the feed: the
    /// request sent and one answer read, or the failure of either. What the
    /// answer holds is not looked at. A failure is reported and stops nothing:
    /// the producer goes on subscribing.
    pub fn request_orderbook(
        &mut self,
        exchanged: &Result<tungstenite::Message, tungstenite::Error>,
    ) -> (acknowledged: bool)
        requires
            old(self).state == FeedState::Subscribing,
        ensures
            acknowledged == (exchanged is Ok),
            final(self).state == FeedState::Subscribing,
    {
        match exchanged {
            Ok(_) => true,
            Err(_) => false,
        }
    }

    /// Parses a text: the message that it holds, or else a
    /// `DeserializationError` with the text as it came.
    pub fn parse_text(text: String) -> (outcome: Result<WebsocketPushData, ProducerError>)
        ensures
            text_parses_to(text, outcome),
            lacks_member(text@) ==> outcome == Err::<WebsocketPushData, ProducerError>(
                ProducerError::DeserializationError(text),
            ),
    {
        proof {
            lemma_missing_member_is_no_message(text@);
        }
        match decode(text.as_str()) {
            Some(message) => Ok(message),
            None => Err(ProducerError::DeserializationError(text)),
        }
    }

    /// Parses what the transport made of a frame: its failure becomes a
    /// `NonTextError` that holds it, its text is parsed.
    pub fn parse_decoded(decoded: Result<String, tungstenite::Error>) -> (outcome: Result<
        WebsocketPushData,
        ProducerError,
    >)
        ensures
            match decoded {
                Ok(text) => text_parses_to(text, outcome),
                Err(cause) => outcome == Err::<WebsocketPushData, ProducerError>(
                    ProducerError::NonTextError(cause),
                ),
            },
    {
        match decoded {
            Ok(text) => OkexProducer::parse_text(text),
            Err(cause) => Err(ProducerError::NonTextError(cause)),
        }
    }

    /// Parses a frame. A frame that is no text frame, or whose text the
    /// transport cannot decode, gives a `NonTextError`, and never a message;
    /// a text of no known schema a `DeserializationError` that holds that
    /// text.
    pub fn parse_message(message: tungstenite::Message) -> (outcome: Result<
        WebsocketPushData,
        ProducerError,
    >)
        ensures
            match readable_text(message) {
                None => outcome matches Err(ProducerError::NonTextError(cause)) && fault_kind(cause)
                    == TransportFault::Utf8,
                Some(text) => match decode_text(text) {
                    Some(model) => outcome is Ok && outcome->Ok_0@ == model,
                    None => outcome matches Err(ProducerError::DeserializationError(kept))
                        && kept@ == text,
                },
            },
    {
        if is_text_frame(&message) {
            OkexProducer::parse_decoded(frame_into_text(message))
        } else {
            match frame_into_text(message) {
                Err(cause) => Err(ProducerError::NonTextError(cause)),
                Ok(_) => Err(ProducerError::NonTextError(not_text_fault())),
            }
        }
    }

    /// The fatal failure that a kind of transport failure is, if it is one:
    /// a closed connection and an I/O failure are, no other is.
    pub fn classify_fault(fault: TransportFault) -> (fatal: Option<FatalError>)
        ensures
            fatal == fatal_fault(fault),
    {
        match fault {
            TransportFault::ConnectionClosed => Some(FatalError::ConnectionClosed),
            TransportFault::AlreadyClosed => Some(FatalError::ConnectionClosed),
            TransportFault::Io => Some(FatalError::Io),
            _ => None,
        }
    }

    /// Decides what to do about a failure.
    pub fn handle_error(error: ProducerError) -> (action: ErrorAction)
        ensures
            action == error_action(error),
    {
        match error {
            ProducerError::ReadError(cause) => {
                match OkexProducer::classify_fault(transport_fault(&cause)) {
                    Some(fatal) => ErrorAction::Terminate(fatal),
                    None => ErrorAction::LogUnknown(ProducerError::ReadError(cause)),
                }
            },
            ProducerError::NonTextError(_) => ErrorAction::LogNonText,
            ProducerError::DeserializationError(text) => ErrorAction::LogUnknownSchema(text),
        }
    }

    /// The dispatching half of a turn: a message with a snapshot goes to
    /// every sink, in registration order; a failure is classified and touches
    /// no sink.
    pub fn turn<C: Consumer>(
        &mut self,
        consumers: &mut Vec<C>,
        parsed: Result<WebsocketPushData, ProducerError>,
    ) -> (outcome: ListenOutcome)
        requires
            old(self).state != FeedState::Terminated,
        ensures
            final(self).state == if outcome.is_fatal() {
                FeedState::Terminated
            } else {
                FeedState::Listening
            },
            final(consumers)@.len() == old(consumers)@.len(),
            match parsed {
                Ok(message) => if message.well_formed() {
                    &&& outcome is Dispatched
                    &&& forall|i: int|
                        0 <= i < old(consumers)@.len() ==> #[trigger] final(consumers)@[i].delivered() == old(consumers)@[i].delivered().push(message@)
                } else {
                    &&& outcome == ListenOutcome::Unfit(message)
                    &&& final(consumers)@ == old(consumers)@
                },
                Err(error) => {
                    &&& outcome == ListenOutcome::Failed(error_action(error))
                    &&& final(consumers)@ == old(consumers)@
                },
            },
    {
        match parsed {
            Ok(message) => {
                self.state = FeedState::Listening;
                if message.has_snapshot() {
                    dispatch(consumers, &message);
                    ListenOutcome::Dispatched
                } else {
                    ListenOutcome::Unfit(message)
                }
            },
            Err(error) => {
                let action = OkexProducer::handle_error(error);
                match action {
                    ErrorAction::Terminate(_) => {
                        self.state = FeedState::Terminated;
                    },
                    _ => {
                        self.state = FeedState::Listening;
                    },
                }
                ListenOutcome::Failed(action)
            },
        }
    }

    /// One turn of the loop, on what the transport's read gave: a frame is
    /// parsed and its message dispatched; a failure of the read, or of the
    /// parse, is classified. Only a closed or broken connection ends the loop.
    pub fn listen<C: Consumer>(
        &mut self,
        consumers: &mut Vec<C>,
        received: Result<tungstenite::Message, tungstenite::Error>,
    ) -> (outcome: ListenOutcome)
        requires
            old(self).state != FeedState::Terminated,
        ensures
            final(self).state == if outcome.is_fatal() {
                FeedState::Terminated
            } else {
                FeedState::Listening
            },
            final(consumers)@.len() == old(consumers)@.len(),
            outcome is Dispatched || final(consumers)@ == old(consumers)@,
            match received {
                Err(cause) => outcome == ListenOutcome::Failed(
                    error_action(ProducerError::ReadError(cause)),
                ),
                Ok(frame) => match readable_text(frame) {
                    None => outcome matches ListenOutcome::Failed(ErrorAction::LogNonText),
                    Some(text) => match decode_text(text) {
                        None => outcome matches ListenOutcome::Failed(
                            ErrorAction::LogUnknownSchema(kept),
                        ) && kept@ == text,
                        Some(model) => if model.data.len() > 0 {
                            &&& outcome is Dispatched
                            &&& forall|i: int|
                                0 <= i < old(consumers)@.len() ==> #[trigger] final(consumers)@[i].delivered() == old(consumers)@[i].delivered().push(model)
                        } else {
                            outcome matches ListenOutcome::Unfit(message) && message@ == model
                        },
                    },
                },
            },
    {
        let parsed = match received {
            Ok(frame) => OkexProducer::parse_message(frame),
            Err(cause) => Err(ProducerError::ReadError(cause)),
        };
        self.turn(consumers, parsed)
    }
}

} // verus!

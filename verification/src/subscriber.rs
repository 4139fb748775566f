//! The subscriber's reaction to what the broker connection yields.
//!
//! The caller owns the connection and runs the loop: for each event it
//! reads the shutdown flag, hands both to [`react`] (or [`on_event`], which
//! also updates the store), carries out the reaction (a log line, leaving
//! the loop) and goes on. Numbers are parsed by a function that the caller
//! passes in, since floating point is its side; everything else about a
//! message is decided here, down to which parsed numbers are taken: a rate
//! must be finite, and a field that gives an infinity or a NaN counts as a
//! field that did not parse.

use vstd::prelude::*;
use vstd::utf8::{
    decode_utf8, encode_utf8, encode_utf8_decode_utf8, encode_utf8_valid_utf8, valid_utf8,
};
use crate::payload::{
    cleaned, fields, lemma_three_field_message, rate_fields, read_payload, utf8_lossy,
    MalformedPayload, RateFields, FIELD_SEPARATOR,
};
use crate::sample::{Rate, TelemetrySample};
use crate::store::SampleStore;
use crate::text::{trim, without_nuls};

verus! {

/// The broker's answer to a connection request.
#[derive(Clone, Copy, Debug, PartialEq, Eq, Structural)]
pub enum ConnectCode {
    Success,
    RefusedProtocolVersion,
    BadClientId,
    ServiceUnavailable,
    BadUserNamePassword,
    NotAuthorized,
}

/// How often a message may arrive.
#[derive(Clone, Copy, Debug, PartialEq, Eq, Structural)]
pub enum Delivery {
    AtMostOnce,
    AtLeastOnce,
    ExactlyOnce,
}

/// The broker's answer to one topic of a subscribe request.
#[derive(Clone, Copy, Debug, PartialEq, Eq, Structural)]
pub enum SubscribeCode {
    Granted(Delivery),
    Failure,
}

/// What one step of the connection yields, reduced to what the subscriber
/// decides on.
#[derive(Clone, Debug, PartialEq, Eq)]
pub enum BrokerEvent {
    /// The broker answered the connection request.
    ConnectAck(ConnectCode),
    /// The broker answered the subscribe request, one code per topic.
    SubscribeAck(Vec<SubscribeCode>),
    /// A message arrived; this is its body.
    Publish(Vec<u8>),
    /// Any other packet from the broker.
    OtherIncoming,
    /// A packet that the client sent.
    Outgoing,
    /// The transport failed on this step.
    TransportError,
}

/// What was taken of the two rate fields of a message: for each, the finite
/// number that the parser made of it, or `None` where it made none.
#[derive(Clone, Copy, Debug, PartialEq, Eq, Structural)]
pub struct ParsedRates {
    pub receive: Option<Rate>,
    pub transmit: Option<Rate>,
}

/// What the subscriber does about an event.
#[derive(Clone, Debug, PartialEq, Eq)]
pub enum Reaction {
    /// Shutdown was requested: leave the loop.
    Stop,
    /// The broker accepted the connection.
    Connected,
    /// The broker refused the connection, with this code.
    ConnectionRefused(ConnectCode),
    /// The broker granted the subscription.
    Subscribed,
    /// The broker refused the subscription.
    SubscriptionRefused,
    /// A message gave a sample to store. A rate that did not parse to a
    /// finite number is `None` here and zero in the sample.
    Sample(ParsedRates),
    /// A message had fewer than three fields and is dropped.
    Malformed(MalformedPayload),
    /// A packet that needs no action.
    Ignored,
    /// A transport error, to be logged; the loop goes on.
    TransportFault,
}

/// Whether one of the broker's codes is a refusal.
pub open spec fn any_failure(codes: Seq<SubscribeCode>) -> bool {
    exists|i: int| 0 <= i < codes.len() && codes[i] is Failure
}

/// Whether `outcome` is a result of the number parser on the text `field`.
pub open spec fn parse_gives<P: Fn(&str) -> Option<Rate>>(
    parse: &P,
    field: Seq<char>,
    outcome: Option<Rate>,
) -> bool {
    exists|text: &str| text@ == field && #[trigger] parse.ensures((text,), outcome)
}

/// Whether `rate` is what is taken of the text `field`: the finite number
/// that the parser makes of it, or `None` where the parser gives none or
/// one that is not finite.
pub open spec fn reads_as<P: Fn(&str) -> Option<Rate>>(
    parse: &P,
    field: Seq<char>,
    rate: Option<Rate>,
) -> bool {
    exists|outcome: Option<Rate>| #[trigger]
        parse_gives(parse, field, outcome) && rate == Rate::accepted(outcome)
}

/// Whether `reaction` answers a message whose decoded body is `text`: a
/// sample made of what is taken of the second and third field, or, with
/// fewer than three fields, the cleaned text as malformed.
pub open spec fn answers_text<P: Fn(&str) -> Option<Rate>>(
    reaction: Reaction,
    text: Seq<char>,
    parse: &P,
) -> bool {
    match rate_fields(text) {
        Some((receive, transmit)) => reaction matches Reaction::Sample(parsed) && reads_as(
            parse,
            receive,
            parsed.receive,
        ) && reads_as(parse, transmit, parsed.transmit),
        None => reaction matches Reaction::Malformed(malformed) && malformed.text@ == cleaned(
            text,
        ),
    }
}

/// Whether `reaction` answers `event`, seen while the shutdown flag said
/// `running`.
pub open spec fn answers<P: Fn(&str) -> Option<Rate>>(
    reaction: Reaction,
    running: bool,
    event: BrokerEvent,
    parse: &P,
) -> bool {
    if !running {
        reaction is Stop
    } else {
        match event {
            BrokerEvent::ConnectAck(code) => if code is Success {
                reaction is Connected
            } else {
                reaction matches Reaction::ConnectionRefused(refused) && refused == code
            },
            BrokerEvent::SubscribeAck(codes) => if any_failure(codes@) {
                reaction is SubscriptionRefused
            } else {
                reaction is Subscribed
            },
            BrokerEvent::Publish(payload) => {
                &&& answers_text(reaction, utf8_lossy(payload@), parse)
                &&& valid_utf8(payload@) ==> answers_text(reaction, decode_utf8(payload@), parse)
            },
            BrokerEvent::OtherIncoming => reaction is Ignored,
            BrokerEvent::Outgoing => reaction is Ignored,
            BrokerEvent::TransportError => reaction is TransportFault,
        }
    }
}

/// The sample that a store holds once `reaction` was carried out, if it
/// held `before`: the new sample for [`Reaction::Sample`], with zero for a
/// rate that is `None` or not finite, and `before` for every other
/// reaction.
pub open spec fn stored_after(before: TelemetrySample, reaction: Reaction) -> TelemetrySample {
    match reaction {
        Reaction::Sample(parsed) => TelemetrySample::of_parsed(parsed.receive, parsed.transmit),
        _ => before,
    }
}

impl ParsedRates {
    /// The sample these rates make: a rate that is `None` or not finite
    /// is zero.
    pub fn sample(&self) -> (sample: TelemetrySample)
        ensures
            sample == TelemetrySample::of_parsed(self.receive, self.transmit),
            sample.finite(),
    {
        TelemetrySample::from_parsed(self.receive, self.transmit)
    }
}

/// Looks for a refusal among the broker's codes.
pub fn has_failure(codes: &Vec<SubscribeCode>) -> (refused: bool)
    ensures
        refused == any_failure(codes@),
{
    let mut i: usize = 0;
    while i < codes.len()
        invariant
            i <= codes.len(),
            forall|j: int| 0 <= j < i ==> !(codes@[j] is Failure),
        decreases codes.len() - i,
    {
        match codes[i] {
            SubscribeCode::Failure => {
                return true;
            },
            SubscribeCode::Granted(_) => {},
        }
        i += 1;
    }
    false
}

/// Decides on a message whose body was read already: parses the two rate
/// fields and keeps of each the finite number it gave, or passes the
/// malformed text on.
pub fn react_to_reading<P: Fn(&str) -> Option<Rate>>(
    reading: Result<RateFields, MalformedPayload>,
    parse: &P,
) -> (reaction: Reaction)
    requires
        forall|text: &str| parse.requires((text,)),
    ensures
        match reading {
            Ok(found) => reaction matches Reaction::Sample(parsed) && reads_as(
                parse,
                found.receive@,
                parsed.receive,
            ) && reads_as(parse, found.transmit@, parsed.transmit),
            Err(malformed) => reaction matches Reaction::Malformed(passed) && passed.text@
                == malformed.text@,
        },
{
    match reading {
        Ok(found) => {
            let receive = parse(found.receive.as_str());
            let transmit = parse(found.transmit.as_str());
            assert(parse_gives(parse, found.receive@, receive));
            assert(parse_gives(parse, found.transmit@, transmit));
            Reaction::Sample(
                ParsedRates { receive: Rate::accept(receive), transmit: Rate::accept(transmit) },
            )
        },
        Err(malformed) => Reaction::Malformed(malformed),
    }
}

/// Decides on an event. While the flag says "stopped" the answer to every
/// event is to stop; otherwise acknowledgements are judged by their codes,
/// a message is decoded, and the rest needs no action.
pub fn react<P: Fn(&str) -> Option<Rate>>(running: bool, event: &BrokerEvent, parse: &P) -> (reaction:
    Reaction)
    requires
        forall|text: &str| parse.requires((text,)),
    ensures
        answers(reaction, running, *event, parse),
{
    if !running {
        return Reaction::Stop;
    }
    match event {
        BrokerEvent::ConnectAck(code) => match code {
            ConnectCode::Success => Reaction::Connected,
            _ => Reaction::ConnectionRefused(*code),
        },
        BrokerEvent::SubscribeAck(codes) => if has_failure(codes) {
            Reaction::SubscriptionRefused
        } else {
            Reaction::Subscribed
        },
        BrokerEvent::Publish(payload) => {
            let reading = read_payload(payload.as_slice());
            react_to_reading(reading, parse)
        },
        BrokerEvent::OtherIncoming => Reaction::Ignored,
        BrokerEvent::Outgoing => Reaction::Ignored,
        BrokerEvent::TransportError => Reaction::TransportFault,
    }
}

/// Carries out the part of a reaction that concerns the store: a sample
/// is written, both rates at once; any other reaction leaves the store as
/// it is. Either way the rates in the store are finite afterwards.
pub fn apply(store: &mut SampleStore, reaction: &Reaction)
    ensures
        final(store)@ == stored_after(old(store)@, *reaction),
        final(store)@.finite(),
        !(reaction is Sample) ==> *final(store) == *old(store),
{
    proof {
        use_type_invariant(&*store);
        store.lemma_rates_are_finite(store@);
    }
    match reaction {
        Reaction::Sample(parsed) => {
            store.write(parsed.sample());
        },
        _ => {},
    }
}

/// Decides on an event and updates the store accordingly.
pub fn on_event<P: Fn(&str) -> Option<Rate>>(
    store: &mut SampleStore,
    running: bool,
    event: &BrokerEvent,
    parse: &P,
) -> (reaction: Reaction)
    requires
        forall|text: &str| parse.requires((text,)),
    ensures
        answers(reaction, running, *event, parse),
        final(store)@ == stored_after(old(store)@, reaction),
        final(store)@.finite(),
        !(reaction is Sample) ==> *final(store) == *old(store),
{
    let reaction = react(running, event, parse);
    apply(store, &reaction);
    reaction
}

/// Once shutdown is requested the next event ends the loop, whatever it is,
/// and the store keeps what it held.
pub proof fn lemma_stopped_subscriber_halts<P: Fn(&str) -> Option<Rate>>(
    reaction: Reaction,
    event: BrokerEvent,
    parse: &P,
    before: TelemetrySample,
)
    requires
        answers(reaction, false, event, parse),
    ensures
        reaction is Stop,
        stored_after(before, reaction) == before,
{
}

/// Only a message can change the store: acknowledgements, other packets
/// and transport errors leave it as it was.
pub proof fn lemma_only_messages_change_store<P: Fn(&str) -> Option<Rate>>(
    reaction: Reaction,
    running: bool,
    event: BrokerEvent,
    parse: &P,
    before: TelemetrySample,
)
    requires
        answers(reaction, running, event, parse),
        !(event is Publish),
    ensures
        stored_after(before, reaction) == before,
{
}

/// A message with fewer than three fields changes nothing in the store.
pub proof fn lemma_short_message_changes_nothing<P: Fn(&str) -> Option<Rate>>(
    reaction: Reaction,
    text: Seq<char>,
    parse: &P,
    before: TelemetrySample,
)
    requires
        answers_text(reaction, text, parse),
        fields(text).len() < 3,
    ensures
        reaction is Malformed,
        stored_after(before, reaction) == before,
{
}

/// The rates in the store are always finite: whatever a store with finite
/// rates held, and whatever the reaction, it holds finite rates once the
/// reaction was carried out. A message cannot put an infinity or a NaN
/// there, whatever the parser made of its fields.
pub proof fn lemma_stored_rates_are_finite(before: TelemetrySample, reaction: Reaction)
    requires
        before.finite(),
    ensures
        stored_after(before, reaction).finite(),
{
    Rate::lemma_accepted_is_finite(None, Rate::zero());
}

/// A message with at least three fields, of which the parser reads the
/// second as the finite number `receive` and the third as the finite number
/// `transmit`, puts exactly that pair in the store, whatever it held
/// before.
pub proof fn lemma_parsed_message_is_stored<P: Fn(&str) -> Option<Rate>>(
    reaction: Reaction,
    text: Seq<char>,
    parse: &P,
    before: TelemetrySample,
    receive: Rate,
    transmit: Rate,
)
    requires
        answers_text(reaction, text, parse),
        receive.finite(),
        transmit.finite(),
        rate_fields(text) matches Some((first, second)) && (forall|outcome: Option<Rate>|
            parse_gives(parse, first, outcome) ==> outcome == Some(receive)) && (forall|
            outcome: Option<Rate>,
        | parse_gives(parse, second, outcome) ==> outcome == Some(transmit)),
    ensures
        stored_after(before, reaction) == (TelemetrySample {
            receive_rate: receive,
            transmit_rate: transmit,
        }),
{
}

/// A message `name:receive:transmit`, sent as UTF-8 with no colon inside a
/// field, is answered with a sample, and the rates of that sample are what
/// is taken of `receive` and of `transmit`, each with its NULs dropped and
/// the white space around it trimmed.
pub proof fn lemma_three_field_message_is_parsed<P: Fn(&str) -> Option<Rate>>(
    reaction: Reaction,
    payload: Vec<u8>,
    parse: &P,
    name: Seq<char>,
    receive: Seq<char>,
    transmit: Seq<char>,
)
    requires
        !name.contains(FIELD_SEPARATOR),
        !receive.contains(FIELD_SEPARATOR),
        !transmit.contains(FIELD_SEPARATOR),
        payload@ == encode_utf8(
            name + seq![FIELD_SEPARATOR] + receive + seq![FIELD_SEPARATOR] + transmit,
        ),
        answers(reaction, true, BrokerEvent::Publish(payload), parse),
    ensures
        reaction matches Reaction::Sample(parsed) && reads_as(
            parse,
            trim(without_nuls(receive)),
            parsed.receive,
        ) && reads_as(parse, trim(without_nuls(transmit)), parsed.transmit),
{
    let text = name + seq![FIELD_SEPARATOR] + receive + seq![FIELD_SEPARATOR] + transmit;
    encode_utf8_valid_utf8(text);
    encode_utf8_decode_utf8(text);
    lemma_three_field_message(name, receive, transmit);
}

/// A rate field of which the parser makes no finite number (it rejects
/// the field, or gives an infinity or a NaN) counts as zero, and the other
/// rate of the message is stored as it was taken.
pub proof fn lemma_unparsed_rate_is_zero<P: Fn(&str) -> Option<Rate>>(
    reaction: Reaction,
    text: Seq<char>,
    parse: &P,
    before: TelemetrySample,
)
    requires
        answers_text(reaction, text, parse),
        fields(text).len() >= 3,
    ensures
        reaction matches Reaction::Sample(parsed) && rate_fields(text) matches Some(
            (first, second),
        ) && {
            let stored = stored_after(before, reaction);
            &&& (forall|outcome: Option<Rate>|
                parse_gives(parse, first, outcome) ==> Rate::accepted(outcome) is None)
                ==> stored.receive_rate == Rate::zero()
            &&& (forall|outcome: Option<Rate>|
                parse_gives(parse, second, outcome) ==> Rate::accepted(outcome) is None)
                ==> stored.transmit_rate == Rate::zero()
            &&& parsed.receive is None ==> stored.receive_rate == Rate::zero()
            &&& parsed.transmit is None ==> stored.transmit_rate == Rate::zero()
            &&& parsed.receive matches Some(rate) ==> rate.finite() && stored.receive_rate == rate
            &&& parsed.transmit matches Some(rate) ==> rate.finite() && stored.transmit_rate
                == rate
        },
{
}

} // verus!

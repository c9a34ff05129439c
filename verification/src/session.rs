//! The live-viewer session: the tagged messages pushed over the stream,
//! their JSON rendering, and the pure decision step that a session task
//! applies to each thing it wakes up for — an inbound control frame, a
//! broadcast event, or a heartbeat tick.

use vstd::prelude::*;
use crate::reading::{spec_alert_label, SensorEvent};
use crate::text::{append_centi, append_hex_digit, append_i64, spec_centi_str, spec_hex_digit, spec_i64_str};
use crate::timefmt::{max_rfc3339_secs, rfc3339_of, rfc3339_utc};

verus! {

/// One tagged message of the live stream.
#[derive(Debug, Clone)]
pub enum WsMessage {
    SensorReading {
        temperature_centi: i64,
        motion: bool,
        sound_level: i32,
        timestamp: String,
        alert: Option<String>,
    },
    Status { connected: bool, message: String },
    Ping { timestamp: String },
}

/// The JSON escape of one character.
pub open spec fn escape_char(c: char) -> Seq<char> {
    if c == '"' {
        seq!['\\', '"']
    } else if c == '\\' {
        seq!['\\', '\\']
    } else if c == '\n' {
        seq!['\\', 'n']
    } else if c == '\r' {
        seq!['\\', 'r']
    } else if c == '\t' {
        seq!['\\', 't']
    } else if (c as int) < 32 {
        seq!['\\', 'u', '0', '0', spec_hex_digit(c as int / 16), spec_hex_digit(c as int % 16)]
    } else {
        seq![c]
    }
}

/// The JSON escape of a string's characters.
pub open spec fn json_escaped(s: Seq<char>) -> Seq<char>
    decreases s.len(),
{
    if s.len() == 0 {
        Seq::empty()
    } else {
        json_escaped(s.drop_last()) + escape_char(s.last())
    }
}

/// A JSON string literal: the escaped characters between quotes.
pub open spec fn spec_json_string(s: Seq<char>) -> Seq<char> {
    seq!['"'] + json_escaped(s) + seq!['"']
}

/// The rendering of a JSON boolean.
pub open spec fn spec_json_bool(b: bool) -> Seq<char> {
    if b {
        "true"@
    } else {
        "false"@
    }
}

/// The JSON rendering of a message, field for field in declaration order.
pub open spec fn spec_ws_json(m: WsMessage) -> Seq<char> {
    match m {
        WsMessage::SensorReading { temperature_centi, motion, sound_level, timestamp, alert } => {
            "{\"type\":\"sensorReading\",\"temperature\":"@ + spec_centi_str(
                temperature_centi as int,
            ) + ",\"motion\":"@ + spec_json_bool(motion) + ",\"soundLevel\":"@ + spec_i64_str(
                sound_level as int,
            ) + ",\"timestamp\":"@ + spec_json_string(timestamp@) + ",\"alert\":"@ + (match alert {
                Some(l) => spec_json_string(l@),
                None => "null"@,
            }) + "}"@
        },
        WsMessage::Status { connected, message } => {
            "{\"type\":\"status\",\"connected\":"@ + spec_json_bool(connected) + ",\"message\":"@
                + spec_json_string(message@) + "}"@
        },
        WsMessage::Ping { timestamp } => {
            "{\"type\":\"ping\",\"timestamp\":"@ + spec_json_string(timestamp@) + "}"@
        },
    }
}

fn append_escaped_char(out: &mut String, c: char)
    ensures
        final(out)@ == old(out)@ + escape_char(c),
{
    if c == '"' {
        proof {
            reveal_strlit("\\\"");
        }
        out.append("\\\"");
    } else if c == '\\' {
        proof {
            reveal_strlit("\\\\");
        }
        out.append("\\\\");
    } else if c == '\n' {
        proof {
            reveal_strlit("\\n");
        }
        out.append("\\n");
    } else if c == '\r' {
        proof {
            reveal_strlit("\\r");
        }
        out.append("\\r");
    } else if c == '\t' {
        proof {
            reveal_strlit("\\t");
        }
        out.append("\\t");
    } else if (c as u32) < 32 {
        proof {
            reveal_strlit("\\u00");
        }
        out.append("\\u00");
        let hi = ((c as u32) / 16) as u64;
        let lo = ((c as u32) % 16) as u64;
        append_hex_digit(out, hi);
        append_hex_digit(out, lo);
    } else {
        out.push(c);
    }
    proof {
        assert(final(out)@ =~= old(out)@ + escape_char(c));
    }
}

fn append_json_string(out: &mut String, s: &str)
    ensures
        final(out)@ == old(out)@ + spec_json_string(s@),
{
    proof {
        reveal_strlit("\"");
    }
    out.append("\"");
    let len = s.unicode_len();
    let mut i: usize = 0;
    while i < len
        invariant
            i <= len,
            len == s@.len(),
            out@ == old(out)@ + seq!['"'] + json_escaped(s@.take(i as int)),
        decreases len - i,
    {
        let c = s.get_char(i);
        proof {
            let t = s@.take(i + 1);
            assert(t.drop_last() =~= s@.take(i as int));
            assert(t.last() == s@[i as int]);
        }
        append_escaped_char(out, c);
        i += 1;
    }
    out.append("\"");
    proof {
        assert(s@.take(len as int) =~= s@);
        assert(final(out)@ =~= old(out)@ + spec_json_string(s@));
    }
}

fn append_json_bool(out: &mut String, b: bool)
    ensures
        final(out)@ == old(out)@ + spec_json_bool(b),
{
    if b {
        out.append("true");
    } else {
        out.append("false");
    }
}

impl WsMessage {
    /// The message rendered from an event: its measured values, its
    /// timestamp in RFC 3339 form, and its alert label when it alerts.
    pub fn from_event(event: &SensorEvent) -> (m: WsMessage)
        requires
            0 <= event.reading.timestamp <= max_rfc3339_secs(),
        ensures
            m matches WsMessage::SensorReading {
                temperature_centi,
                motion,
                sound_level,
                timestamp,
                alert,
            } && temperature_centi == event.reading.temperature_centi && motion
                == event.reading.motion && sound_level == event.reading.sound_level && timestamp@
                == rfc3339_of(event.reading.timestamp as int) && (match alert {
                Some(l) => spec_alert_label(event.alert) == Some(l@),
                None => spec_alert_label(event.alert) is None,
            }),
    {
        WsMessage::SensorReading {
            temperature_centi: event.reading.temperature_centi,
            motion: event.reading.motion,
            sound_level: event.reading.sound_level,
            timestamp: rfc3339_utc(event.reading.timestamp),
            alert: event.alert.label(),
        }
    }

    /// Renders the message as its JSON text.
    pub fn to_json(&self) -> (r: String)
        ensures
            r@ == spec_ws_json(*self),
    {
        let mut out = String::new();
        match self {
            WsMessage::SensorReading { temperature_centi, motion, sound_level, timestamp, alert } => {
                out.append("{\"type\":\"sensorReading\",\"temperature\":");
                append_centi(&mut out, *temperature_centi);
                out.append(",\"motion\":");
                append_json_bool(&mut out, *motion);
                out.append(",\"soundLevel\":");
                append_i64(&mut out, *sound_level as i64);
                out.append(",\"timestamp\":");
                append_json_string(&mut out, timestamp.as_str());
                out.append(",\"alert\":");
                match alert {
                    Some(l) => append_json_string(&mut out, l.as_str()),
                    None => out.append("null"),
                }
                out.append("}");
            },
            WsMessage::Status { connected, message } => {
                out.append("{\"type\":\"status\",\"connected\":");
                append_json_bool(&mut out, *connected);
                out.append(",\"message\":");
                append_json_string(&mut out, message.as_str());
                out.append("}");
            },
            WsMessage::Ping { timestamp } => {
                out.append("{\"type\":\"ping\",\"timestamp\":");
                append_json_string(&mut out, timestamp.as_str());
                out.append("}");
            },
        }
        proof {
            assert(out@ =~= spec_ws_json(*self));
        }
        out
    }
}

/// One inbound control frame, as the transport hands it over.
#[derive(Debug, Clone)]
pub enum ControlFrame {
    /// A ping carrying the payload the pong must echo.
    Ping(Vec<u8>),
    /// The viewer closed the stream.
    Close,
    /// A frame the session does not react to.
    Unsupported,
    /// A transport or protocol error.
    Invalid,
}

/// One thing the session wakes up for.
#[derive(Debug, Clone)]
pub enum SessionInput {
    Control(ControlFrame),
    Event(SensorEvent),
    /// The heartbeat timer fired at the given Unix second.
    Heartbeat(i64),
}

/// What the session must do next.
#[derive(Debug, Clone)]
pub enum SessionAction {
    /// Echo a pong with the given payload.
    Pong(Vec<u8>),
    /// Push the given text to the viewer.
    Send(String),
    /// Close the stream with a best-effort handshake and release the slot.
    Terminate,
    /// Nothing: wait for the next input.
    Idle,
}

/// The session's decision step: a ping is answered with a pong carrying the
/// same payload; a close or a protocol error terminates the session; other
/// frames are ignored; a broadcast event is pushed as its JSON rendering; a
/// heartbeat tick is pushed as a ping message stamped with the tick's time,
/// independent of the other two sources.
pub fn session_step(input: SessionInput) -> (action: SessionAction)
    requires
        input matches SessionInput::Event(e) ==> 0 <= e.reading.timestamp <= max_rfc3339_secs(),
        input matches SessionInput::Heartbeat(t) ==> 0 <= t <= max_rfc3339_secs(),
    ensures
        match input {
            SessionInput::Control(frame) => match frame {
                ControlFrame::Ping(payload) => action matches SessionAction::Pong(p) && p@
                    == payload@,
                ControlFrame::Close => action is Terminate,
                ControlFrame::Invalid => action is Terminate,
                ControlFrame::Unsupported => action is Idle,
            },
            SessionInput::Event(e) => action matches SessionAction::Send(text) && (exists|
                m: WsMessage,
            |
                {
                    &&& text@ == spec_ws_json(m)
                    &&& m matches WsMessage::SensorReading {
                        temperature_centi,
                        motion,
                        sound_level,
                        timestamp,
                        alert,
                    }
                    &&& temperature_centi == e.reading.temperature_centi
                    &&& motion == e.reading.motion
                    &&& sound_level == e.reading.sound_level
                    &&& timestamp@ == rfc3339_of(e.reading.timestamp as int)
                    &&& (match alert {
                        Some(l) => spec_alert_label(e.alert) == Some(l@),
                        None => spec_alert_label(e.alert) is None,
                    })
                }),
            SessionInput::Heartbeat(t) => action matches SessionAction::Send(text) && (exists|
                m: WsMessage,
            |
                {
                    &&& text@ == spec_ws_json(m)
                    &&& m matches WsMessage::Ping { timestamp }
                    &&& timestamp@ == rfc3339_of(t as int)
                }),
        },
{
    match input {
        SessionInput::Control(frame) => match frame {
            ControlFrame::Ping(payload) => SessionAction::Pong(payload),
            ControlFrame::Close => SessionAction::Terminate,
            ControlFrame::Invalid => SessionAction::Terminate,
            ControlFrame::Unsupported => SessionAction::Idle,
        },
        SessionInput::Event(e) => {
            let m = WsMessage::from_event(&e);
            let text = m.to_json();
            proof {
                assert(exists|w: WsMessage| text@ == spec_ws_json(w) && w == m);
            }
            SessionAction::Send(text)
        },
        SessionInput::Heartbeat(t) => {
            let m = WsMessage::Ping { timestamp: rfc3339_utc(t) };
            let text = m.to_json();
            proof {
                assert(exists|w: WsMessage| text@ == spec_ws_json(w) && w == m);
            }
            SessionAction::Send(text)
        },
    }
}

/// The status message emitted once on connect.
pub fn welcome_message() -> (r: String)
    ensures
        (exists|m: WsMessage|
            {
                &&& r@ == spec_ws_json(m)
                &&& m matches WsMessage::Status { connected, message }
                &&& connected
                &&& message@ == "Connected to Smart Patient Monitor"@
            }),
{
    let m = WsMessage::Status {
        connected: true,
        message: String::from_str("Connected to Smart Patient Monitor"),
    };
    let text = m.to_json();
    proof {
        assert(exists|w: WsMessage| text@ == spec_ws_json(w) && w == m);
    }
    text
}

} // verus!

//! Decoding of inbound gateway frames. The JSON layer is `serde_json`
//! behind the trusted wrappers of `json`; everything from the decoded
//! fields onward — the tag-first opcode dispatch, the event-name table
//! and the field extraction — is verified logic, and each function's
//! contract states exactly what it yields for every reading of the
//! named JSON results.

use vstd::prelude::*;

use crate::gateway::{GatewayDispatchEvents, GatewayOpcode};
use crate::json::{
    json_as_bool, json_as_i64, json_as_object, json_as_text, json_as_u64, json_element,
    json_fields, map_remove, parse_object, parsed_json_of, value_as_bool, value_as_i64,
    value_as_string, value_as_u64, value_get_index, value_into_object,
};
use crate::payload::{DispatchPayload, GatewayReceivePayload, ReadyData};

verus! {

/// Shard slot read from a two-element array value.
pub open spec fn shard_slot_spec(v: serde_json::Value) -> Option<(u64, u64)> {
    match json_element(v, 0) {
        Option::Some(e0) => match json_as_u64(e0) {
            Option::Some(a) => match json_element(v, 1) {
                Option::Some(e1) => match json_as_u64(e1) {
                    Option::Some(b) => Option::Some((a, b)),
                    Option::None => Option::None,
                },
                Option::None => Option::None,
            },
            Option::None => Option::None,
        },
        Option::None => Option::None,
    }
}

/// What reading a READY data object yields: when every required field
/// is present and well-typed, the record, with the user, guild and
/// application entities carried through; otherwise nothing. A missing
/// or malformed shard slot is treated as absent.
pub open spec fn ready_decodes_to(
    fd: Map<Seq<char>, serde_json::Value>,
    r: Option<ReadyData>,
) -> bool {
    let ok = {
        &&& fd.contains_key("v"@)
        &&& (json_as_u64(fd["v"@]) matches Option::Some(n) && n <= 255)
        &&& fd.contains_key("user"@)
        &&& fd.contains_key("guilds"@)
        &&& fd.contains_key("session_id"@)
        &&& json_as_text(fd["session_id"@]) is Some
        &&& fd.contains_key("resume_gateway_url"@)
        &&& json_as_text(fd["resume_gateway_url"@]) is Some
        &&& fd.contains_key("application"@)
    };
    &&& (r is Some) == ok
    &&& (r matches Option::Some(d) ==> {
        &&& json_as_u64(fd["v"@]) == Option::Some(d.v as u64)
        &&& d.user == fd["user"@]
        &&& d.guilds == fd["guilds"@]
        &&& json_as_text(fd["session_id"@]) == Option::Some(d.session_id@)
        &&& json_as_text(fd["resume_gateway_url"@]) == Option::Some(d.resume_gateway_url@)
        &&& d.shard == (if fd.contains_key("shard"@) {
            shard_slot_spec(fd["shard"@])
        } else {
            Option::None
        })
        &&& d.application == fd["application"@]
    })
}

/// What reading an opened dispatch frame yields: the sequence number
/// and the event name are required; a name outside the protocol's
/// table comes back under `Unknown` with the remaining fields; READY
/// decodes its data object and RESUMED stands alone; any other known
/// event carries its data object through when the frame held one.
pub open spec fn dispatch_decodes_to(
    f: Map<Seq<char>, serde_json::Value>,
    r: Option<(i64, DispatchPayload)>,
) -> bool {
    if !(f.contains_key("s"@) && json_as_i64(f["s"@]) is Some) {
        r is None
    } else {
        let s = json_as_i64(f["s"@])->Some_0;
        if !(f.contains_key("t"@) && json_as_text(f["t"@]) is Some) {
            r is None
        } else {
            let t = json_as_text(f["t"@])->Some_0;
            match GatewayDispatchEvents::from_name_spec(t) {
                Option::None => (r matches Option::Some((s2, p)) && s2 == s && (p matches
                    DispatchPayload::Unknown(ts, m2) && ts@ == t && json_fields(m2) == f.remove(
                    "s"@,
                ).remove("t"@))),
                Option::Some(GatewayDispatchEvents::Ready) => {
                    if f.contains_key("d"@) {
                        match json_as_object(f["d"@]) {
                            Option::Some(dm) => match r {
                                Option::None => ready_decodes_to(json_fields(dm), Option::None),
                                Option::Some((s2, p)) => s2 == s && (p matches
                                    DispatchPayload::Ready(d) && ready_decodes_to(
                                    json_fields(dm),
                                    Option::Some(d),
                                )),
                            },
                            Option::None => r is None,
                        }
                    } else {
                        r is None
                    }
                },
                Option::Some(GatewayDispatchEvents::Resumed) => r == Option::Some(
                    (s, DispatchPayload::Resume),
                ),
                Option::Some(ev) => (r matches Option::Some((s2, p)) && s2 == s && (p matches
                    DispatchPayload::Other(ev2, dopt) && ev2 == ev && dopt == (
                if f.contains_key("d"@) {
                    json_as_object(f["d"@])
                } else {
                    Option::None
                }))),
            }
        }
    }
}

/// Frames with an opcode outside the receive table come back whole
/// (less the opcode field) under `UnknownOp`.
pub open spec fn unknown_op_case(
    op: u64,
    f1: Map<Seq<char>, serde_json::Value>,
    r: Option<GatewayReceivePayload>,
) -> bool {
    r matches Option::Some(GatewayReceivePayload::UnknownOp(o2, m2)) && o2 == op && json_fields(
        m2,
    ) == f1
}

/// What reading one frame of wire text yields: no JSON object, no
/// numeric opcode — no payload; otherwise the opcode routes the frame
/// through the receive table, and the data is drawn from the named
/// JSON readings exactly as each opcode asks.
pub open spec fn frame_decodes_to(text: Seq<char>, r: Option<GatewayReceivePayload>) -> bool {
    match parsed_json_of(text) {
        Option::None => r is None,
        Option::Some(m0) => {
            let f0 = json_fields(m0);
            if !(f0.contains_key("op"@) && json_as_u64(f0["op"@]) is Some) {
                r is None
            } else {
                let op = json_as_u64(f0["op"@])->Some_0;
                let f1 = f0.remove("op"@);
                match GatewayOpcode::from_code_spec(op) {
                    Option::None => unknown_op_case(op, f1, r),
                    Option::Some(GatewayOpcode::Hello) => {
                        if f1.contains_key("d"@) {
                            match json_as_object(f1["d"@]) {
                                Option::Some(dm) => {
                                    let fd = json_fields(dm);
                                    if fd.contains_key("heartbeat_interval"@) && json_as_u64(
                                        fd["heartbeat_interval"@],
                                    ) is Some {
                                        r == Option::Some(
                                            GatewayReceivePayload::Hello(
                                                json_as_u64(fd["heartbeat_interval"@])->Some_0,
                                            ),
                                        )
                                    } else {
                                        r is None
                                    }
                                },
                                Option::None => r is None,
                            }
                        } else {
                            r is None
                        }
                    },
                    Option::Some(GatewayOpcode::Heartbeat) => r == Option::Some(
                        GatewayReceivePayload::HeartbeatRequest,
                    ),
                    Option::Some(GatewayOpcode::HeartbeatAck) => r == Option::Some(
                        GatewayReceivePayload::HeartbeatAck,
                    ),
                    Option::Some(GatewayOpcode::InvalidSession) => {
                        if f1.contains_key("d"@) {
                            match json_as_bool(f1["d"@]) {
                                Option::Some(b) => r == Option::Some(
                                    GatewayReceivePayload::InvalidSession(b),
                                ),
                                Option::None => r is None,
                            }
                        } else {
                            r is None
                        }
                    },
                    Option::Some(GatewayOpcode::Reconnect) => r == Option::Some(
                        GatewayReceivePayload::Reconnect,
                    ),
                    Option::Some(GatewayOpcode::Dispatch) => match r {
                        Option::None => dispatch_decodes_to(f1, Option::None),
                        Option::Some(GatewayReceivePayload::Dispatch(s, p)) => dispatch_decodes_to(
                            f1,
                            Option::Some((s, p)),
                        ),
                        Option::Some(_) => false,
                    },
                    Option::Some(_) => unknown_op_case(op, f1, r),
                }
            }
        },
    }
}

fn shard_slot_of(v: &serde_json::Value) -> (r: Option<(u64, u64)>)
    ensures
        r == shard_slot_spec(*v),
{
    let a = match value_get_index(v, 0) {
        Some(a) => match value_as_u64(a) {
            Some(a) => a,
            None => {
                return None;
            },
        },
        None => {
            return None;
        },
    };
    let b = match value_get_index(v, 1) {
        Some(b) => match value_as_u64(b) {
            Some(b) => b,
            None => {
                return None;
            },
        },
        None => {
            return None;
        },
    };
    Some((a, b))
}

impl ReadyData {
    /// Reads the READY data object. The gateway version, session id and
    /// resume URL are required; the user, guild and application
    /// entities are carried through unexamined; a malformed shard slot
    /// is treated as absent, as a missing one is.
    pub fn from_object(obj: serde_json::Map<String, serde_json::Value>) -> (r: Option<ReadyData>)
        ensures
            ready_decodes_to(json_fields(obj), r),
    {
        proof {
            reveal_strlit("v");
            reveal_strlit("user");
            reveal_strlit("guilds");
            reveal_strlit("session_id");
            reveal_strlit("resume_gateway_url");
            reveal_strlit("shard");
            reveal_strlit("application");
            assert("v"@.len() == 1);
            assert("user"@.len() == 4);
            assert("guilds"@.len() == 6);
            assert("session_id"@.len() == 10);
            assert("resume_gateway_url"@.len() == 18);
            assert("shard"@.len() == 5);
            assert("application"@.len() == 11);
            assert("user"@ != "v"@);
            assert("guilds"@ != "v"@ && "guilds"@ != "user"@);
            assert("session_id"@ != "v"@ && "session_id"@ != "user"@ && "session_id"@
                != "guilds"@);
            assert("resume_gateway_url"@ != "v"@ && "resume_gateway_url"@ != "user"@
                && "resume_gateway_url"@ != "guilds"@ && "resume_gateway_url"@ != "session_id"@);
            assert("shard"@ != "v"@ && "shard"@ != "user"@ && "shard"@ != "guilds"@ && "shard"@
                != "session_id"@ && "shard"@ != "resume_gateway_url"@);
            assert("application"@ != "v"@ && "application"@ != "user"@ && "application"@
                != "guilds"@ && "application"@ != "session_id"@ && "application"@
                != "resume_gateway_url"@ && "application"@ != "shard"@);
        }
        let mut obj = obj;
        let v = match map_remove(&mut obj, "v") {
            Some(v) => match value_as_u64(&v) {
                Some(n) if n <= 255 => n as u8,
                _ => {
                    return None;
                },
            },
            None => {
                return None;
            },
        };
        let user = match map_remove(&mut obj, "user") {
            Some(u) => u,
            None => {
                return None;
            },
        };
        let guilds = match map_remove(&mut obj, "guilds") {
            Some(g) => g,
            None => {
                return None;
            },
        };
        let session_id = match map_remove(&mut obj, "session_id") {
            Some(s) => match value_as_string(&s) {
                Some(s) => s,
                None => {
                    return None;
                },
            },
            None => {
                return None;
            },
        };
        let resume_gateway_url = match map_remove(&mut obj, "resume_gateway_url") {
            Some(s) => match value_as_string(&s) {
                Some(s) => s,
                None => {
                    return None;
                },
            },
            None => {
                return None;
            },
        };
        let shard = match map_remove(&mut obj, "shard") {
            Some(s) => shard_slot_of(&s),
            None => None,
        };
        let application = match map_remove(&mut obj, "application") {
            Some(a) => a,
            None => {
                return None;
            },
        };
        Some(
            ReadyData {
                v,
                user,
                guilds,
                session_id,
                resume_gateway_url,
                shard,
                application,
            },
        )
    }
}

impl DispatchPayload {
    /// Reads a dispatch frame whose envelope has already been opened:
    /// the sequence number `s`, the event name `t`, and for the events
    /// the handshake needs, the decoded data. An event name outside the
    /// protocol's table comes back under `Unknown` with the rest of the
    /// frame; a missing sequence or name makes the frame malformed.
    pub fn from_payload(payload: serde_json::Map<String, serde_json::Value>) -> (r: Option<
        (i64, DispatchPayload),
    >)
        ensures
            dispatch_decodes_to(json_fields(payload), r),
    {
        proof {
            reveal_strlit("s");
            reveal_strlit("t");
            reveal_strlit("d");
            assert("s"@.len() == 1 && "s"@[0] == 's');
            assert("t"@.len() == 1 && "t"@[0] == 't');
            assert("d"@.len() == 1 && "d"@[0] == 'd');
            assert("t"@ != "s"@);
            assert("d"@ != "s"@ && "d"@ != "t"@);
        }
        let mut payload = payload;
        let s = match map_remove(&mut payload, "s") {
            Some(v) => match value_as_i64(&v) {
                Some(n) => n,
                None => {
                    return None;
                },
            },
            None => {
                return None;
            },
        };
        let t = match map_remove(&mut payload, "t") {
            Some(v) => match value_as_string(&v) {
                Some(t) => t,
                None => {
                    return None;
                },
            },
            None => {
                return None;
            },
        };
        let event = match GatewayDispatchEvents::from_event_name(t.as_str()) {
            Some(e) => e,
            None => {
                return Some((s, DispatchPayload::Unknown(t, payload)));
            },
        };
        match event {
            GatewayDispatchEvents::Ready => {
                let obj = match map_remove(&mut payload, "d") {
                    Some(d) => match value_into_object(d) {
                        Some(o) => o,
                        None => {
                            return None;
                        },
                    },
                    None => {
                        return None;
                    },
                };
                match ReadyData::from_object(obj) {
                    Some(data) => Some((s, DispatchPayload::Ready(data))),
                    None => None,
                }
            },
            GatewayDispatchEvents::Resumed => Some((s, DispatchPayload::Resume)),
            _ => {
                let d = match map_remove(&mut payload, "d") {
                    Some(d) => value_into_object(d),
                    None => None,
                };
                Some((s, DispatchPayload::Other(event, d)))
            },
        }
    }
}

impl GatewayReceivePayload {
    /// Reads one frame of text from the wire. The opcode is examined
    /// first; frames with an opcode the protocol does not define for
    /// receiving are handed back whole under `UnknownOp`, and text that
    /// is not a frame, or a frame whose data does not fit its opcode,
    /// is reported as malformed.
    pub fn unpack(text: &str) -> (r: Option<GatewayReceivePayload>)
        ensures
            frame_decodes_to(text@, r),
    {
        proof {
            reveal_strlit("op");
            reveal_strlit("d");
            reveal_strlit("heartbeat_interval");
        }
        let mut payload = match parse_object(text) {
            Some(m) => m,
            None => {
                return None;
            },
        };
        let op = match map_remove(&mut payload, "op") {
            Some(v) => match value_as_u64(&v) {
                Some(o) => o,
                None => {
                    return None;
                },
            },
            None => {
                return None;
            },
        };
        let opcode = match GatewayOpcode::from_code(op) {
            Some(o) => o,
            None => {
                return Some(GatewayReceivePayload::UnknownOp(op, payload));
            },
        };
        match opcode {
            GatewayOpcode::Hello => {
                let mut d = match map_remove(&mut payload, "d") {
                    Some(d) => match value_into_object(d) {
                        Some(o) => o,
                        None => {
                            return None;
                        },
                    },
                    None => {
                        return None;
                    },
                };
                match map_remove(&mut d, "heartbeat_interval") {
                    Some(v) => match value_as_u64(&v) {
                        Some(i) => Some(GatewayReceivePayload::Hello(i)),
                        None => None,
                    },
                    None => None,
                }
            },
            GatewayOpcode::Heartbeat => Some(GatewayReceivePayload::HeartbeatRequest),
            GatewayOpcode::HeartbeatAck => Some(GatewayReceivePayload::HeartbeatAck),
            GatewayOpcode::InvalidSession => {
                match map_remove(&mut payload, "d") {
                    Some(v) => match value_as_bool(&v) {
                        Some(b) => Some(GatewayReceivePayload::InvalidSession(b)),
                        None => None,
                    },
                    None => None,
                }
            },
            GatewayOpcode::Reconnect => Some(GatewayReceivePayload::Reconnect),
            GatewayOpcode::Dispatch => {
                match DispatchPayload::from_payload(payload) {
                    Some((s, p)) => Some(GatewayReceivePayload::Dispatch(s, p)),
                    None => None,
                }
            },
            _ => Some(GatewayReceivePayload::UnknownOp(op, payload)),
        }
    }
}

} // verus!

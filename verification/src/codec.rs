//! Rendering of outbound payloads as gateway frames. Every payload
//! serializes to `{"op":<code>,"d":<data>}`; the exact text is stated
//! by spec functions, and parsing the envelope back is proved to yield
//! the opcode and the rendered data unchanged.

use vstd::prelude::*;
use vstd::string::StringExecFns;

use crate::gateway::GatewayOpcode;
use crate::json::{json_quoted, json_quoted_text};
use crate::payload::{
    GatewaySendPayload, IdentifyData, RequestGuildMembersData, ResumeData, UpdatePresenceData,
    VoiceStateUpdateData,
};
use crate::text::{dec_digits, frame, frame_text, int_digits, i64_text, parse_frame, u64_text,
    lemma_frame_round_trip, lemma_dec_value_round_trip, dec_value};

verus! {

pub open spec fn null_text() -> Seq<char> {
    "null"@
}

pub open spec fn bool_text(b: bool) -> Seq<char> {
    if b {
        "true"@
    } else {
        "false"@
    }
}

pub open spec fn opt_u64_text(o: Option<u64>) -> Seq<char> {
    match o {
        Option::None => null_text(),
        Option::Some(n) => dec_digits(n as nat),
    }
}

pub open spec fn opt_i64_text(o: Option<i64>) -> Seq<char> {
    match o {
        Option::None => null_text(),
        Option::Some(n) => int_digits(n as int),
    }
}

pub open spec fn opt_bool_text(o: Option<bool>) -> Seq<char> {
    match o {
        Option::None => null_text(),
        Option::Some(b) => bool_text(b),
    }
}

/// Shard slot as the two-element array `[id,count]`.
pub open spec fn shard_pair_text(p: (u64, u64)) -> Seq<char> {
    "["@ + dec_digits(p.0 as nat) + ","@ + dec_digits(p.1 as nat) + "]"@
}

pub open spec fn opt_shard_text(o: Option<(u64, u64)>) -> Seq<char> {
    match o {
        Option::None => null_text(),
        Option::Some(p) => shard_pair_text(p),
    }
}

/// Texts joined by commas, in order.
pub open spec fn join_comma(elems: Seq<Seq<char>>) -> Seq<char>
    decreases elems.len(),
{
    if elems.len() == 0 {
        Seq::empty()
    } else if elems.len() == 1 {
        elems[0]
    } else {
        join_comma(elems.drop_last()) + ","@ + elems.last()
    }
}

proof fn lemma_join_comma_push(elems: Seq<Seq<char>>, x: Seq<char>)
    ensures
        elems.len() == 0 ==> join_comma(elems.push(x)) == x,
        elems.len() > 0 ==> join_comma(elems.push(x)) == join_comma(elems) + ","@ + x,
{
    let p = elems.push(x);
    assert(p.drop_last() =~= elems);
    assert(p.last() == x);
    if elems.len() == 0 {
        assert(p.len() == 1);
        assert(p[0] == x);
    }
}

/// Data text of a presence update.
pub open spec fn presence_d_text(p: UpdatePresenceData) -> Seq<char> {
    "{\"since\":"@ + opt_u64_text(p.since) + ",\"activities\":["@ + join_comma(
        p.activities@.map_values(|s: String| s@),
    ) + "],\"status\":"@ + p.status.json_spec() + ",\"afk\":"@ + bool_text(p.afk) + "}"@
}

pub open spec fn opt_presence_text(o: Option<UpdatePresenceData>) -> Seq<char> {
    match o {
        Option::None => null_text(),
        Option::Some(p) => presence_d_text(p),
    }
}

/// Data text of an identify command. Every field is written, absent
/// optional fields as `null`.
pub open spec fn identify_d_text(d: IdentifyData) -> Seq<char> {
    "{\"token\":"@ + json_quoted(d.token@) + ",\"properties\":{\"os\":"@ + json_quoted(
        d.properties.os@,
    ) + ",\"browser\":"@ + json_quoted(d.properties.browser@) + ",\"device\":"@ + json_quoted(
        d.properties.device@,
    ) + "},\"compress\":"@ + opt_bool_text(d.compress) + ",\"large_threshold\":"@ + opt_u64_text(
        d.large_threshold,
    ) + ",\"shard\":"@ + opt_shard_text(d.shard) + ",\"presence\":"@ + opt_presence_text(
        d.presence,
    ) + ",\"intents\":"@ + dec_digits(d.intents as nat) + "}"@
}

/// Data text of a resume command.
pub open spec fn resume_d_text(d: ResumeData) -> Seq<char> {
    "{\"token\":"@ + json_quoted(d.token@) + ",\"session_id\":"@ + json_quoted(d.session_id@)
        + ",\"seq\":"@ + int_digits(d.seq as int) + "}"@
}

/// Data text of a guild-members request. Optional fields are omitted
/// when absent.
pub open spec fn members_d_text(d: RequestGuildMembersData) -> Seq<char> {
    "{\"guild_id\":"@ + json_quoted(d.guild_id@) + (match d.query {
        Option::None => Seq::<char>::empty(),
        Option::Some(q) => ",\"query\":"@ + json_quoted(q@),
    }) + ",\"limit\":"@ + dec_digits(d.limit as nat) + (match d.presences {
        Option::None => Seq::<char>::empty(),
        Option::Some(b) => ",\"presences\":"@ + bool_text(b),
    }) + (match d.user_ids {
        Option::None => Seq::<char>::empty(),
        Option::Some(ids) => ",\"user_ids\":["@ + join_comma(
            ids@.map_values(|s: String| json_quoted(s@)),
        ) + "]"@,
    }) + (match d.nonce {
        Option::None => Seq::<char>::empty(),
        Option::Some(n) => ",\"nonce\":"@ + json_quoted(n@),
    }) + "}"@
}

/// Data text of a voice-state update.
pub open spec fn voice_d_text(d: VoiceStateUpdateData) -> Seq<char> {
    "{\"guild_id\":"@ + json_quoted(d.guild_id@) + ",\"channel_id\":"@ + json_quoted(
        d.channel_id@,
    ) + ",\"self_mute\":"@ + bool_text(d.self_mute) + ",\"self_deaf\":"@ + bool_text(d.self_deaf)
        + "}"@
}

impl GatewaySendPayload {
    /// Opcode written into the frame envelope for this command.
    pub open spec fn opcode_spec(self) -> GatewayOpcode {
        match self {
            GatewaySendPayload::Identify(_) => GatewayOpcode::Identify,
            GatewaySendPayload::Resume(_) => GatewayOpcode::Resume,
            GatewaySendPayload::Heartbeat(_) => GatewayOpcode::Heartbeat,
            GatewaySendPayload::RequestGuildMembers(_) => GatewayOpcode::RequestGuildMembers,
            GatewaySendPayload::VoiceStateUpdate(_) => GatewayOpcode::VoiceStateUpdate,
            GatewaySendPayload::UpdatePresence(_) => GatewayOpcode::PresenceUpdate,
        }
    }

    /// Rendered `d` field of this command.
    pub open spec fn d_text_spec(self) -> Seq<char> {
        match self {
            GatewaySendPayload::Identify(d) => identify_d_text(d),
            GatewaySendPayload::Resume(d) => resume_d_text(d),
            GatewaySendPayload::Heartbeat(s) => opt_i64_text(s),
            GatewaySendPayload::RequestGuildMembers(d) => members_d_text(d),
            GatewaySendPayload::VoiceStateUpdate(d) => voice_d_text(d),
            GatewaySendPayload::UpdatePresence(d) => presence_d_text(d),
        }
    }

    /// Full wire text of this command.
    pub open spec fn serialize_spec(self) -> Seq<char> {
        frame_text(self.opcode_spec().code_spec(), self.d_text_spec())
    }

    pub fn opcode(&self) -> (r: GatewayOpcode)
        ensures
            r == self.opcode_spec(),
    {
        match self {
            GatewaySendPayload::Identify(_) => GatewayOpcode::Identify,
            GatewaySendPayload::Resume(_) => GatewayOpcode::Resume,
            GatewaySendPayload::Heartbeat(_) => GatewayOpcode::Heartbeat,
            GatewaySendPayload::RequestGuildMembers(_) => GatewayOpcode::RequestGuildMembers,
            GatewaySendPayload::VoiceStateUpdate(_) => GatewayOpcode::VoiceStateUpdate,
            GatewaySendPayload::UpdatePresence(_) => GatewayOpcode::PresenceUpdate,
        }
    }

    /// Renders this command as the text of one gateway frame.
    pub fn serialize(&self) -> (r: String)
        ensures
            r@ == self.serialize_spec(),
    {
        let d: String = match self {
            GatewaySendPayload::Identify(d) => identify_d(d),
            GatewaySendPayload::Resume(d) => resume_d(d),
            GatewaySendPayload::Heartbeat(s) => opt_i64_string(*s),
            GatewaySendPayload::RequestGuildMembers(d) => members_d(d),
            GatewaySendPayload::VoiceStateUpdate(d) => voice_d(d),
            GatewaySendPayload::UpdatePresence(d) => presence_d(d),
        };
        frame(self.opcode().code(), d.as_str())
    }
}

/// Law: a serialized command, parsed back as a frame envelope, yields
/// the command's opcode and exactly the rendered data of its fields;
/// and the numeric opcode denotes that opcode alone.
pub proof fn lemma_serialize_round_trip(p: GatewaySendPayload)
    ensures
        parse_frame(p.serialize_spec()) == Some(
            (p.opcode_spec().code_spec() as nat, p.d_text_spec()),
        ),
        GatewayOpcode::from_code_spec(p.opcode_spec().code_spec()) == Some(p.opcode_spec()),
{
    lemma_frame_round_trip(p.opcode_spec().code_spec(), p.d_text_spec());
    p.opcode_spec().lemma_code_round_trip();
}

/// Law: a heartbeat's rendered sequence number reads back as the number
/// itself.
pub proof fn lemma_heartbeat_data_round_trip(n: i64)
    requires
        0 <= n,
    ensures
        dec_value(GatewaySendPayload::Heartbeat(Some(n)).d_text_spec()) == n,
{
    lemma_dec_value_round_trip(n as nat);
}

fn bool_str(b: bool) -> (r: &'static str)
    ensures
        r@ == bool_text(b),
{
    if b {
        "true"
    } else {
        "false"
    }
}

fn opt_i64_string(o: Option<i64>) -> (r: String)
    ensures
        r@ == opt_i64_text(o),
{
    match o {
        Option::None => "null".to_owned(),
        Option::Some(n) => i64_text(n),
    }
}

fn append_opt_u64(out: &mut String, o: Option<u64>)
    ensures
        final(out)@ == old(out)@ + opt_u64_text(o),
{
    match o {
        Option::None => out.append("null"),
        Option::Some(n) => {
            let t = u64_text(n);
            out.append(t.as_str());
        },
    }
}

fn append_opt_bool(out: &mut String, o: Option<bool>)
    ensures
        final(out)@ == old(out)@ + opt_bool_text(o),
{
    match o {
        Option::None => out.append("null"),
        Option::Some(b) => out.append(bool_str(b)),
    }
}

fn append_quoted(out: &mut String, s: &str)
    ensures
        final(out)@ == old(out)@ + json_quoted(s@),
{
    let q = json_quoted_text(s);
    out.append(q.as_str());
}

fn append_shard(out: &mut String, o: Option<(u64, u64)>)
    ensures
        final(out)@ == old(out)@ + opt_shard_text(o),
{
    match o {
        Option::None => out.append("null"),
        Option::Some((a, b)) => {
            out.append("[");
            let ta = u64_text(a);
            out.append(ta.as_str());
            out.append(",");
            let tb = u64_text(b);
            out.append(tb.as_str());
            out.append("]");
            proof {
                assert(final(out)@ =~= old(out)@ + shard_pair_text((a, b)));
            }
        },
    }
}

/// Joins already-rendered texts with commas.
fn join_raw(elems: &Vec<String>) -> (r: String)
    ensures
        r@ == join_comma(elems@.map_values(|s: String| s@)),
{
    let ghost m = elems@.map_values(|s: String| s@);
    let mut out = String::new();
    let mut i: usize = 0;
    while i < elems.len()
        invariant
            0 <= i <= elems.len(),
            m == elems@.map_values(|s: String| s@),
            m.len() == elems@.len(),
            out@ == join_comma(m.take(i as int)),
        decreases elems.len() - i,
    {
        proof {
            assert(m.take(i as int).push(m[i as int]) =~= m.take(i + 1));
            lemma_join_comma_push(m.take(i as int), m[i as int]);
        }
        if i > 0 {
            out.append(",");
        }
        out.append(elems[i].as_str());
        proof {
            if i == 0 {
                assert(m.take(0int).len() == 0);
            }
        }
        i = i + 1;
    }
    proof {
        assert(m.take(elems@.len() as int) =~= m);
    }
    out
}

/// Joins texts with commas, rendering each as a JSON string literal.
fn join_quoted(elems: &Vec<String>) -> (r: String)
    ensures
        r@ == join_comma(elems@.map_values(|s: String| json_quoted(s@))),
{
    let ghost m = elems@.map_values(|s: String| json_quoted(s@));
    let mut out = String::new();
    let mut i: usize = 0;
    while i < elems.len()
        invariant
            0 <= i <= elems.len(),
            m == elems@.map_values(|s: String| json_quoted(s@)),
            m.len() == elems@.len(),
            out@ == join_comma(m.take(i as int)),
        decreases elems.len() - i,
    {
        proof {
            assert(m.take(i as int).push(m[i as int]) =~= m.take(i + 1));
            lemma_join_comma_push(m.take(i as int), m[i as int]);
        }
        if i > 0 {
            out.append(",");
        }
        append_quoted(&mut out, elems[i].as_str());
        proof {
            if i == 0 {
                assert(m.take(0int).len() == 0);
            }
        }
        i = i + 1;
    }
    proof {
        assert(m.take(elems@.len() as int) =~= m);
    }
    out
}

fn presence_d(p: &UpdatePresenceData) -> (r: String)
    ensures
        r@ == presence_d_text(*p),
{
    let mut out = "{\"since\":".to_owned();
    append_opt_u64(&mut out, p.since);
    out.append(",\"activities\":[");
    let joined = join_raw(&p.activities);
    out.append(joined.as_str());
    out.append("],\"status\":");
    out.append(p.status.json_text());
    out.append(",\"afk\":");
    out.append(bool_str(p.afk));
    out.append("}");
    proof {
        assert(out@ =~= presence_d_text(*p));
    }
    out
}

fn identify_d(d: &IdentifyData) -> (r: String)
    ensures
        r@ == identify_d_text(*d),
{
    let mut out = "{\"token\":".to_owned();
    append_quoted(&mut out, d.token.as_str());
    out.append(",\"properties\":{\"os\":");
    append_quoted(&mut out, d.properties.os.as_str());
    out.append(",\"browser\":");
    append_quoted(&mut out, d.properties.browser.as_str());
    out.append(",\"device\":");
    append_quoted(&mut out, d.properties.device.as_str());
    out.append("},\"compress\":");
    append_opt_bool(&mut out, d.compress);
    out.append(",\"large_threshold\":");
    append_opt_u64(&mut out, d.large_threshold);
    out.append(",\"shard\":");
    append_shard(&mut out, d.shard);
    out.append(",\"presence\":");
    match &d.presence {
        Option::None => out.append("null"),
        Option::Some(p) => {
            let t = presence_d(p);
            out.append(t.as_str());
        },
    }
    out.append(",\"intents\":");
    let ti = u64_text(d.intents);
    out.append(ti.as_str());
    out.append("}");
    proof {
        assert(out@ =~= identify_d_text(*d));
    }
    out
}

fn resume_d(d: &ResumeData) -> (r: String)
    ensures
        r@ == resume_d_text(*d),
{
    let mut out = "{\"token\":".to_owned();
    append_quoted(&mut out, d.token.as_str());
    out.append(",\"session_id\":");
    append_quoted(&mut out, d.session_id.as_str());
    out.append(",\"seq\":");
    let ts = i64_text(d.seq);
    out.append(ts.as_str());
    out.append("}");
    proof {
        assert(out@ =~= resume_d_text(*d));
    }
    out
}

fn members_d(d: &RequestGuildMembersData) -> (r: String)
    ensures
        r@ == members_d_text(*d),
{
    let mut out = "{\"guild_id\":".to_owned();
    append_quoted(&mut out, d.guild_id.as_str());
    match &d.query {
        Option::None => (),
        Option::Some(q) => {
            out.append(",\"query\":");
            append_quoted(&mut out, q.as_str());
        },
    }
    out.append(",\"limit\":");
    let tl = u64_text(d.limit);
    out.append(tl.as_str());
    match d.presences {
        Option::None => (),
        Option::Some(b) => {
            out.append(",\"presences\":");
            out.append(bool_str(b));
        },
    }
    match &d.user_ids {
        Option::None => (),
        Option::Some(ids) => {
            out.append(",\"user_ids\":[");
            let joined = join_quoted(ids);
            out.append(joined.as_str());
            out.append("]");
        },
    }
    match &d.nonce {
        Option::None => (),
        Option::Some(n) => {
            out.append(",\"nonce\":");
            append_quoted(&mut out, n.as_str());
        },
    }
    out.append("}");
    proof {
        assert(out@ =~= members_d_text(*d));
    }
    out
}

fn voice_d(d: &VoiceStateUpdateData) -> (r: String)
    ensures
        r@ == voice_d_text(*d),
{
    let mut out = "{\"guild_id\":".to_owned();
    append_quoted(&mut out, d.guild_id.as_str());
    out.append(",\"channel_id\":");
    append_quoted(&mut out, d.channel_id.as_str());
    out.append(",\"self_mute\":");
    out.append(bool_str(d.self_mute));
    out.append(",\"self_deaf\":");
    out.append(bool_str(d.self_deaf));
    out.append("}");
    proof {
        assert(out@ =~= voice_d_text(*d));
    }
    out
}

} // verus!

//! Intents: what a client asks of the agent.
//!
//! A frame never names its session: the gateway knows which one the socket is bound
//! to. The names of the fields are what the gateway goes by, letter for letter.
use vstd::prelude::*;
use crate::ids::ActionId;
use crate::json::{
    agreeing_fields, agrees, entries, entry, field, flag_at, names_differ, parsed, put, reads_as,
    text_at, uint_at, uint_json, Json, JsonV, DEEP,
};
use crate::quoting::{
    field_text, object_text, print_fields, quoted, quoting_loses_nothing, scalar, truth,
    unmarked_texts_stay,
};
use crate::text::{copy, dec, joined};

verus! {

/// A frame to the agent.
#[derive(Debug, PartialEq)]
pub enum Intent {
    /// Say something to the session.
    UserPrompt { text: String },
    /// Approve or reject a tool call.
    UserApproval { action: ActionId, granted: bool },
    /// Cancel the turn at hand. No end of turn is announced for it.
    UserCancel,
    /// Bind the socket to another session.
    Hello { resume_session: u64 },
}

/// The model of an [`Intent`].
pub enum IntentV {
    UserPrompt { text: Seq<char> },
    UserApproval { action: u64, granted: bool },
    UserCancel,
    Hello { resume_session: u64 },
}

impl View for Intent {
    type V = IntentV;

    open spec fn view(&self) -> IntentV {
        match self {
            Intent::UserPrompt { text } => IntentV::UserPrompt { text: text@ },
            Intent::UserApproval { action, granted } => IntentV::UserApproval {
                action: action.0,
                granted: *granted,
            },
            Intent::UserCancel => IntentV::UserCancel,
            Intent::Hello { resume_session } => IntentV::Hello { resume_session: *resume_session },
        }
    }
}

// ── Frames ──────────────────────────────────────────────────────────────────

/// The text of a frame.
pub open spec fn frame_v(i: IntentV) -> Seq<char> {
    match i {
        IntentV::UserPrompt { text } => "{\"type\":\"user_prompt\",\"text\":"@ + quoted(text)
            + "}"@,
        IntentV::UserApproval { action, granted } => "{\"type\":\"user_approval\",\"action\":"@
            + dec(action as nat) + ",\"granted\":"@ + truth(granted) + "}"@,
        IntentV::UserCancel => "{\"type\":\"user_cancel\"}"@,
        IntentV::Hello { resume_session } => "{\"type\":\"hello\",\"resume_session\":"@ + dec(
            resume_session as nat,
        ) + "}"@,
    }
}

/// The fields of a frame.
pub open spec fn frame_fields(i: IntentV) -> Seq<(Seq<char>, JsonV)> {
    match i {
        IntentV::UserPrompt { text } => seq![
            ("type"@, JsonV::Str("user_prompt"@)),
            ("text"@, JsonV::Str(text)),
        ],
        IntentV::UserApproval { action, granted } => seq![
            ("type"@, JsonV::Str("user_approval"@)),
            ("action"@, uint_json(action)),
            ("granted"@, JsonV::Bool(granted)),
        ],
        IntentV::UserCancel => seq![("type"@, JsonV::Str("user_cancel"@))],
        IntentV::Hello { resume_session } => seq![
            ("type"@, JsonV::Str("hello"@)),
            ("resume_session"@, uint_json(resume_session)),
        ],
    }
}

/// Whether `j` is the object of a frame: these fields and no others.
pub open spec fn is_frame(i: IntentV, j: JsonV) -> bool {
    &&& j is Obj
    &&& j->Obj_0.len() == frame_fields(i).len()
    &&& forall|k: Seq<char>|
        field(j, k) is Some <==> field(JsonV::Obj(frame_fields(i)), k) is Some
    &&& match i {
        IntentV::UserPrompt { text } => {
            &&& text_at(j, "type"@) == Some("user_prompt"@)
            &&& text_at(j, "text"@) == Some(text)
        },
        IntentV::UserApproval { action, granted } => {
            &&& text_at(j, "type"@) == Some("user_approval"@)
            &&& uint_at(j, "action"@) == Some(action)
            &&& flag_at(j, "granted"@) == Some(granted)
        },
        IntentV::UserCancel => text_at(j, "type"@) == Some("user_cancel"@),
        IntentV::Hello { resume_session } => {
            &&& text_at(j, "type"@) == Some("hello"@)
            &&& uint_at(j, "resume_session"@) == Some(resume_session)
        },
    }
}

impl Intent {
    /// The text that is sent. It is read as the frame's object, with no field more.
    pub fn to_json(&self) -> (r: String)
        ensures
            r@ == frame_v(self@),
            reads_as(r@, JsonV::Obj(frame_fields(self@))),
            parsed(r@) is Some,
            is_frame(self@, parsed(r@)->0),
    {
        let mut e: Vec<(String, Json)> = Vec::new();
        match self {
            Intent::UserPrompt { text } => {
                put(&mut e, "type", Json::str("user_prompt"));
                put(&mut e, "text", Json::str(text.as_str()));
            },
            Intent::UserApproval { action, granted } => {
                put(&mut e, "type", Json::str("user_approval"));
                put(&mut e, "action", Json::uint(action.0));
                put(&mut e, "granted", Json::Bool(*granted));
            },
            Intent::UserCancel => {
                put(&mut e, "type", Json::str("user_cancel"));
            },
            Intent::Hello { resume_session } => {
                put(&mut e, "type", Json::str("hello"));
                put(&mut e, "resume_session", Json::uint(*resume_session));
            },
        }
        assert(entries(e@) =~= frame_fields(self@));
        proof {
            fields_are_plain(self@);
            frames_are_objects(self@);
        }
        let text = print_fields(&e);
        proof {
            agreeing_frames(self@, parsed(text@)->0);
        }
        text
    }
}

/// Say something to the session.
pub fn user_prompt(text: &str) -> (r: Intent)
    ensures
        r@ == (IntentV::UserPrompt { text: text@ }),
{
    Intent::UserPrompt { text: copy(text) }
}

/// Approve or reject a tool call.
pub fn user_approval(action: ActionId, granted: bool) -> (r: Intent)
    ensures
        r@ == (IntentV::UserApproval { action: action.0, granted }),
{
    Intent::UserApproval { action, granted }
}

/// Cancel the turn at hand.
pub fn user_cancel() -> (r: Intent)
    ensures
        r@ == IntentV::UserCancel,
{
    Intent::UserCancel
}

/// Bind the socket to another session.
pub fn hello(resume_session: u64) -> (r: Intent)
    ensures
        r@ == (IntentV::Hello { resume_session }),
{
    Intent::Hello { resume_session }
}

// ── Laws ────────────────────────────────────────────────────────────────────

proof fn names_unlike()
    ensures
        "type"@ != "text"@,
        "type"@ != "action"@,
        "type"@ != "granted"@,
        "action"@ != "granted"@,
        "type"@ != "resume_session"@,
{
    reveal_strlit("type");
    reveal_strlit("text");
    reveal_strlit("action");
    reveal_strlit("granted");
    reveal_strlit("resume_session");
    assert("type"@[1] == 'y' && "text"@[1] == 'e');
    assert("action"@.len() == 6 && "granted"@.len() == 7);
}

proof fn fields_are_plain(i: IntentV)
    ensures
        names_differ(frame_fields(i)),
        forall|k: int| 0 <= k < frame_fields(i).len() ==> scalar((#[trigger] frame_fields(i)[k]).1),
{
    names_unlike();
}

proof fn two_joined(a: Seq<char>, b: Seq<char>, sep: Seq<char>)
    ensures
        joined(seq![a, b], sep) == a + sep + b,
{
    let s = seq![a, b];
    assert(s.drop_last() =~= seq![a]);
    assert(joined(seq![a], sep) == a);
}

proof fn three_joined(a: Seq<char>, b: Seq<char>, c: Seq<char>, sep: Seq<char>)
    ensures
        joined(seq![a, b, c], sep) == a + sep + b + sep + c,
{
    let s = seq![a, b, c];
    assert(s.drop_last() =~= seq![a, b]);
    two_joined(a, b, sep);
}

proof fn names_as_they_are()
    ensures
        quoted("type"@) == "\"type\""@,
        quoted("text"@) == "\"text\""@,
        quoted("action"@) == "\"action\""@,
        quoted("granted"@) == "\"granted\""@,
        quoted("resume_session"@) == "\"resume_session\""@,
{
    reveal_strlit("type");
    reveal_strlit("\"type\"");
    unmarked_texts_stay("type"@);
    assert(quoted("type"@) =~= "\"type\""@);
    reveal_strlit("text");
    reveal_strlit("\"text\"");
    unmarked_texts_stay("text"@);
    assert(quoted("text"@) =~= "\"text\""@);
    reveal_strlit("action");
    reveal_strlit("\"action\"");
    unmarked_texts_stay("action"@);
    assert(quoted("action"@) =~= "\"action\""@);
    reveal_strlit("granted");
    reveal_strlit("\"granted\"");
    unmarked_texts_stay("granted"@);
    assert(quoted("granted"@) =~= "\"granted\""@);
    reveal_strlit("resume_session");
    reveal_strlit("\"resume_session\"");
    unmarked_texts_stay("resume_session"@);
    assert(quoted("resume_session"@) =~= "\"resume_session\""@);
}

proof fn types_as_they_are()
    ensures
        quoted("user_prompt"@) == "\"user_prompt\""@,
        quoted("user_approval"@) == "\"user_approval\""@,
        quoted("user_cancel"@) == "\"user_cancel\""@,
        quoted("hello"@) == "\"hello\""@,
{
    reveal_strlit("user_prompt");
    reveal_strlit("\"user_prompt\"");
    unmarked_texts_stay("user_prompt"@);
    assert(quoted("user_prompt"@) =~= "\"user_prompt\""@);
    reveal_strlit("user_approval");
    reveal_strlit("\"user_approval\"");
    unmarked_texts_stay("user_approval"@);
    assert(quoted("user_approval"@) =~= "\"user_approval\""@);
    reveal_strlit("user_cancel");
    reveal_strlit("\"user_cancel\"");
    unmarked_texts_stay("user_cancel"@);
    assert(quoted("user_cancel"@) =~= "\"user_cancel\""@);
    reveal_strlit("hello");
    reveal_strlit("\"hello\"");
    unmarked_texts_stay("hello"@);
    assert(quoted("hello"@) =~= "\"hello\""@);
}

proof fn leads_as_they_are()
    ensures
        "{\"type\":\"user_prompt\",\"text\":"@ == "{"@ + ("\"type\""@ + ":"@ + "\"user_prompt\""@)
            + ","@ + ("\"text\""@ + ":"@),
        "{\"type\":\"user_approval\",\"action\":"@ == "{"@ + ("\"type\""@ + ":"@
            + "\"user_approval\""@) + ","@ + ("\"action\""@ + ":"@),
        ",\"granted\":"@ == ","@ + ("\"granted\""@ + ":"@),
        "{\"type\":\"user_cancel\"}"@ == "{"@ + ("\"type\""@ + ":"@ + "\"user_cancel\""@) + "}"@,
        "{\"type\":\"hello\",\"resume_session\":"@ == "{"@ + ("\"type\""@ + ":"@ + "\"hello\""@)
            + ","@ + ("\"resume_session\""@ + ":"@),
{
    reveal_strlit("{");
    reveal_strlit("}");
    reveal_strlit(":");
    reveal_strlit(",");
    reveal_strlit("\"type\"");
    assert("{\"type\":\"user_prompt\",\"text\":"@ =~= "{"@ + ("\"type\""@ + ":"@
        + "\"user_prompt\""@) + ","@ + ("\"text\""@ + ":"@)) by {
        reveal_strlit("\"text\"");
        reveal_strlit("\"user_prompt\"");
        reveal_strlit("{\"type\":\"user_prompt\",\"text\":");
    }
    assert("{\"type\":\"user_approval\",\"action\":"@ =~= "{"@ + ("\"type\""@ + ":"@
        + "\"user_approval\""@) + ","@ + ("\"action\""@ + ":"@)) by {
        reveal_strlit("\"action\"");
        reveal_strlit("\"user_approval\"");
        reveal_strlit("{\"type\":\"user_approval\",\"action\":");
    }
    assert(",\"granted\":"@ =~= ","@ + ("\"granted\""@ + ":"@)) by {
        reveal_strlit("\"granted\"");
        reveal_strlit(",\"granted\":");
    }
    assert("{\"type\":\"user_cancel\"}"@ =~= "{"@ + ("\"type\""@ + ":"@ + "\"user_cancel\""@)
        + "}"@) by {
        reveal_strlit("\"user_cancel\"");
        reveal_strlit("{\"type\":\"user_cancel\"}");
    }
    assert("{\"type\":\"hello\",\"resume_session\":"@ =~= "{"@ + ("\"type\""@ + ":"@
        + "\"hello\""@) + ","@ + ("\"resume_session\""@ + ":"@)) by {
        reveal_strlit("\"resume_session\"");
        reveal_strlit("\"hello\"");
        reveal_strlit("{\"type\":\"hello\",\"resume_session\":");
    }
}

/// What stands in front of a value and behind it can be taken together with it.
proof fn taken_together(
    open: Seq<char>,
    a: Seq<char>,
    sep: Seq<char>,
    k: Seq<char>,
    v: Seq<char>,
    z: Seq<char>,
)
    ensures
        open + a + sep + k + v + z == open + (a + sep + (k + v)) + z,
{
    assert(open + a + sep + k + v + z =~= open + (a + sep + (k + v)) + z);
}

/// A frame's text is its fields as JSON writes an object.
pub proof fn frames_are_objects(i: IntentV)
    ensures
        frame_v(i) == object_text(frame_fields(i)),
{
    names_as_they_are();
    types_as_they_are();
    leads_as_they_are();
    let f = frame_fields(i);
    let parts = f.map_values(|x: (Seq<char>, JsonV)| field_text(x));
    match i {
        IntentV::UserPrompt { text } => {
            assert(parts =~= seq![field_text(f[0]), field_text(f[1])]);
            two_joined(parts[0], parts[1], ","@);
            taken_together("{"@, parts[0], ","@, "\"text\""@ + ":"@, quoted(text), "}"@);
        },
        IntentV::UserApproval { action, granted } => {
            assert(parts =~= seq![field_text(f[0]), field_text(f[1]), field_text(f[2])]);
            three_joined(parts[0], parts[1], parts[2], ","@);
            let k = "\"action\""@ + ":"@;
            let g = "\"granted\""@ + ":"@;
            let n = dec(action as nat);
            let front = parts[0] + ","@ + (k + n);
            taken_together("{"@, parts[0], ","@, k, n, ","@ + g);
            assert("{"@ + front + (","@ + g) =~= "{"@ + front + ","@ + g);
            taken_together("{"@, front, ","@, g, truth(granted), "}"@);
        },
        IntentV::UserCancel => {
            assert(parts =~= seq![field_text(f[0])]);
            assert(joined(parts, ","@) == parts[0]);
        },
        IntentV::Hello { resume_session } => {
            assert(parts =~= seq![field_text(f[0]), field_text(f[1])]);
            two_joined(parts[0], parts[1], ","@);
            taken_together(
                "{"@,
                parts[0],
                ","@,
                "\"resume_session\""@ + ":"@,
                dec(resume_session as nat),
                "}"@,
            );
        },
    }
}

/// Whatever agrees with a frame's fields is that frame's object.
pub proof fn agreeing_frames(i: IntentV, j: JsonV)
    requires
        agrees(JsonV::Obj(frame_fields(i)), j, DEEP as nat),
    ensures
        is_frame(i, j),
{
    names_unlike();
    let o = JsonV::Obj(frame_fields(i));
    assert forall|k: Seq<char>| field(j, k) is Some <==> field(o, k) is Some by {
        agreeing_fields(o, j, k, DEEP as nat);
    }
    reveal_with_fuel(entry, 4);
    agreeing_fields(o, j, "type"@, DEEP as nat);
    agreeing_fields(o, j, "text"@, DEEP as nat);
    agreeing_fields(o, j, "action"@, DEEP as nat);
    agreeing_fields(o, j, "granted"@, DEEP as nat);
    agreeing_fields(o, j, "resume_session"@, DEEP as nat);
}

/// No frame names a session, a call or an approval by another name: the gateway knows the
/// session, and goes by `action` and `granted`.
pub proof fn frames_name_no_session(i: IntentV, j: JsonV)
    requires
        is_frame(i, j),
    ensures
        field(j, "session"@) is None,
        field(j, "call_id"@) is None,
        field(j, "approved"@) is None,
{
    reveal_strlit("type");
    reveal_strlit("text");
    reveal_strlit("action");
    reveal_strlit("granted");
    reveal_strlit("resume_session");
    reveal_strlit("session");
    reveal_strlit("call_id");
    reveal_strlit("approved");
    assert("granted"@[0] == 'g' && "session"@[0] == 's' && "call_id"@[0] == 'c');
    assert("action"@.len() == 6 && "granted"@.len() == 7 && "resume_session"@.len() == 14);
    assert("approved"@.len() == 8 && "type"@.len() == 4 && "text"@.len() == 4);
    reveal_with_fuel(entry, 4);
    let o = JsonV::Obj(frame_fields(i));
    assert(field(o, "session"@) is None);
    assert(field(o, "call_id"@) is None);
    assert(field(o, "approved"@) is None);
}

/// Two prompts are never sent as the same frame.
pub proof fn prompts_arrive_as_they_are(s: Seq<char>, t: Seq<char>)
    requires
        frame_v(IntentV::UserPrompt { text: s }) == frame_v(IntentV::UserPrompt { text: t }),
    ensures
        s == t,
{
    let lead = "{\"type\":\"user_prompt\",\"text\":"@;
    let (p, q) = (
        frame_v(IntentV::UserPrompt { text: s }),
        frame_v(IntentV::UserPrompt { text: t }),
    );
    reveal_strlit("}");
    assert(quoted(s) =~= p.subrange(lead.len() as int, p.len() - 1));
    assert(quoted(t) =~= q.subrange(lead.len() as int, q.len() - 1));
    quoting_loses_nothing(s, t);
}

} // verus!

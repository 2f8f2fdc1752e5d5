//! The mesh: peers that were saved, nodes that were found, and how one becomes the other.
use vstd::prelude::*;
use crate::effects::{notice, notice_v, Effect, EffectV, ToastKind};
use crate::json::{
    entries, field, flagged, int_or, items_or_none, put, text_at, text_or, uint_or, Json, JsonV,
};
use crate::reader::{json_flag, json_str, str_v};
use crate::text::{cat3, copy, dec, dec_u64, trim, trimmed, views};

verus! {

broadcast use {
    crate::text::views_push,
    crate::text::views_empty,
    crate::json::entries_empty,
};

/// What a peer sent and asked for, in one line; empty where there was nothing.
pub open spec fn fed_line_v(f: JsonV) -> Seq<char> {
    let recv = uint_or(f, "memories_received"@, 0);
    let dup = uint_or(f, "duplicates"@, 0);
    let srv = uint_or(f, "recall_served"@, 0);
    let hits = uint_or(f, "recall_hits"@, 0);
    if recv == 0 && dup == 0 && srv == 0 {
        Seq::empty()
    } else {
        "fed ↓"@ + dec(recv as nat) + " mem · "@ + dec(dup as nat) + " dup · "@ + dec(srv as nat)
            + " recall ("@ + dec(hits as nat) + " hits)"@
    }
}

/// What a peer sent and asked for, in one line; empty where there was nothing.
pub fn fed_stats_line(f: &Json) -> (r: String)
    ensures
        r@ == fed_line_v(f@),
{
    let recv = f.u64_or("memories_received", 0);
    let dup = f.u64_or("duplicates", 0);
    let srv = f.u64_or("recall_served", 0);
    let hits = f.u64_or("recall_hits", 0);
    if recv == 0 && dup == 0 && srv == 0 {
        return String::new();
    }
    let mut out = cat3("fed ↓", dec_u64(recv).as_str(), " mem · ");
    out.append(dec_u64(dup).as_str());
    out.append(" dup · ");
    out.append(dec_u64(srv).as_str());
    out.append(" recall (");
    out.append(dec_u64(hits).as_str());
    out.append(" hits)");
    out
}

/// A node of the mesh.
#[derive(Debug, PartialEq)]
pub struct MeshNode {
    pub node_id: String,
    /// Where it is reached.
    pub detail: String,
    pub role: String,
    pub status: String,
    /// Whether it was saved.
    pub is_peer: bool,
    pub has_token: bool,
    /// What it sent and asked for.
    pub fed_line: String,
}

/// The model of a [`MeshNode`].
pub struct MeshNodeV {
    pub node_id: Seq<char>,
    pub detail: Seq<char>,
    pub role: Seq<char>,
    pub status: Seq<char>,
    pub is_peer: bool,
    pub has_token: bool,
    pub fed_line: Seq<char>,
}

impl View for MeshNode {
    type V = MeshNodeV;

    open spec fn view(&self) -> MeshNodeV {
        MeshNodeV {
            node_id: self.node_id@,
            detail: self.detail@,
            role: self.role@,
            status: self.status@,
            is_peer: self.is_peer,
            has_token: self.has_token,
            fed_line: self.fed_line@,
        }
    }
}

/// A peer that was saved. What its beacon says of it goes before what was written down.
pub open spec fn peer_row_v(j: JsonV) -> MeshNodeV {
    MeshNodeV {
        node_id: str_v(j, "node_id"@),
        detail: str_v(j, "ws_url"@),
        role: text_or(j, "role"@, "full"@),
        status: match text_at(j, "live"@) {
            Some(s) => s,
            None => text_or(j, "status"@, "online"@),
        },
        is_peer: true,
        has_token: flagged(j, "has_token"@),
        fed_line: match field(j, "federation"@) {
            Some(f) => fed_line_v(f),
            None => Seq::empty(),
        },
    }
}

fn peer_row(j: &Json) -> (r: MeshNode)
    ensures
        r@ == peer_row_v(j@),
{
    MeshNode {
        node_id: json_str(j, "node_id"),
        detail: json_str(j, "ws_url"),
        role: j.str_or("role", "full"),
        status: match j.str_at("live") {
            Some(s) => copy(s),
            None => j.str_or("status", "online"),
        },
        is_peer: true,
        has_token: json_flag(j, "has_token"),
        fed_line: match j.get("federation") {
            Some(f) => fed_stats_line(f),
            None => String::new(),
        },
    }
}

/// A node that was found.
pub open spec fn found_row_v(j: JsonV) -> MeshNodeV {
    MeshNodeV {
        node_id: str_v(j, "node_id"@),
        detail: match text_at(j, "ws_url"@) {
            Some(u) => u,
            None => str_v(j, "ip"@) + ":"@ + dec(uint_or(j, "port"@, 8787) as nat),
        },
        role: "—"@,
        status: "discovered"@,
        is_peer: false,
        has_token: false,
        fed_line: Seq::empty(),
    }
}

fn found_row(j: &Json) -> (r: MeshNode)
    ensures
        r@ == found_row_v(j@),
{
    MeshNode {
        node_id: json_str(j, "node_id"),
        detail: match j.str_at("ws_url") {
            Some(u) => copy(u),
            None => cat3(
                json_str(j, "ip").as_str(),
                ":",
                dec_u64(j.u64_or("port", 8787)).as_str(),
            ),
        },
        role: copy("—"),
        status: copy("discovered"),
        is_peer: false,
        has_token: false,
        fed_line: String::new(),
    }
}

/// The rows of the first `n` peers.
pub open spec fn peers_v(a: Seq<JsonV>, n: int) -> Seq<MeshNodeV>
    decreases n,
{
    if n <= 0 {
        Seq::empty()
    } else {
        peers_v(a, n - 1).push(peer_row_v(a[n - 1]))
    }
}

/// The rows of those of the first `n` nodes that are no peers.
pub open spec fn found_v(a: Seq<JsonV>, n: int) -> Seq<MeshNodeV>
    decreases n,
{
    if n <= 0 {
        Seq::empty()
    } else if flagged(a[n - 1], "known"@) {
        found_v(a, n - 1)
    } else {
        found_v(a, n - 1).push(found_row_v(a[n - 1]))
    }
}

/// The mesh: the peers, then the nodes that were found beside them.
pub open spec fn mesh_v(peers: JsonV, nodes: JsonV) -> Seq<MeshNodeV> {
    let p = items_or_none(peers, "peers"@);
    let n = items_or_none(nodes, "nodes"@);
    peers_v(p, p.len() as int) + found_v(n, n.len() as int)
}

/// The mesh, from the reply on peers and the one on nodes.
pub fn mesh_rows(peers: &Json, nodes: &Json) -> (r: Vec<MeshNode>)
    ensures
        views(r@) == mesh_v(peers@, nodes@),
{
    let mut out: Vec<MeshNode> = Vec::new();
    let saved = peers.items_at("peers");
    let ghost p = views(saved@);
    for i in 0..saved.len()
        invariant
            p == views(saved@),
            views(out@) == peers_v(p, i as int),
    {
        assert(p[i as int] == saved@[i as int]@);
        out.push(peer_row(&saved[i]));
    }
    assert(p.len() == saved@.len());
    let ghost first = views(out@);
    let found = nodes.items_at("nodes");
    let ghost n = views(found@);
    assert(first =~= first + found_v(n, 0));
    for i in 0..found.len()
        invariant
            n == views(found@),
            views(out@) == first + found_v(n, i as int),
    {
        assert(n[i as int] == found@[i as int]@);
        if !json_flag(&found[i], "known") {
            out.push(found_row(&found[i]));
            assert(views(out@) =~= first + found_v(n, i as int + 1));
        }
    }
    assert(n.len() == found@.len());
    out
}

// ── Peers ───────────────────────────────────────────────────────────────────

/// What is asked of the mesh.
#[derive(Clone, Copy, Debug, PartialEq, Eq, Structural)]
pub enum MeshOp {
    Add,
    Remove,
    /// Take up a code that a peer shows.
    Redeem,
}

/// What is sent to save a peer; its token only where there is one.
pub open spec fn add_peer_v(node_id: Seq<char>, ws_url: Seq<char>, token: Seq<char>) -> JsonV {
    JsonV::Obj(
        seq![("node_id"@, JsonV::Str(node_id)), ("ws_url"@, JsonV::Str(ws_url))] + (if trimmed(
            token,
        ).len() == 0 {
            Seq::empty()
        } else {
            seq![("token"@, JsonV::Str(trimmed(token)))]
        }),
    )
}

/// What is sent to save a peer; its token only where there is one.
pub fn add_peer_body(node_id: &str, ws_url: &str, token: &str) -> (r: Json)
    ensures
        r@ == add_peer_v(node_id@, ws_url@, token@),
{
    let mut e: Vec<(String, Json)> = Vec::new();
    put(&mut e, "node_id", Json::str(node_id));
    put(&mut e, "ws_url", Json::str(ws_url));
    let t = trim(token);
    if !t.is_empty() {
        put(&mut e, "token", Json::str(t));
    }
    assert(entries(e@) =~= add_peer_v(node_id@, ws_url@, token@)->Obj_0);
    Json::object(e)
}

/// What is sent to take up a code.
pub fn redeem_body(ws_url: &str, code: &str) -> (r: Json)
    ensures
        r@ == JsonV::Obj(
            seq![("ws_url"@, JsonV::Str(ws_url@)), ("code"@, JsonV::Str(trimmed(code@)))],
        ),
{
    let mut e: Vec<(String, Json)> = Vec::new();
    put(&mut e, "ws_url", Json::str(ws_url));
    put(&mut e, "code", Json::str(trim(code)));
    assert(entries(e@) =~= seq![
        ("ws_url"@, JsonV::Str(ws_url@)),
        ("code"@, JsonV::Str(trimmed(code@))),
    ]);
    Json::object(e)
}

/// The notice once the mesh was asked for something. A reply counts as a success only
/// where it says so: a refusal comes with the same code.
pub open spec fn mesh_notice_v(op: MeshOp, reply: Option<JsonV>) -> EffectV {
    let ok = match reply {
        Some(body) => flagged(body, "ok"@),
        None => false,
    };
    match op {
        MeshOp::Add => if ok {
            notice_v(ToastKind::Success, "Peer added"@)
        } else {
            notice_v(ToastKind::Error, "Failed to add peer"@)
        },
        MeshOp::Remove => if ok {
            notice_v(ToastKind::Info, "Peer removed"@)
        } else {
            notice_v(ToastKind::Error, "Failed to remove peer"@)
        },
        MeshOp::Redeem => if ok {
            notice_v(ToastKind::Success, "Paired — peer added"@)
        } else {
            notice_v(ToastKind::Error, "Pairing failed (bad or expired code?)"@)
        },
    }
}

/// The model of a reply.
pub open spec fn reply_v(reply: Option<&Json>) -> Option<JsonV> {
    match reply {
        Some(body) => Some(body@),
        None => None,
    }
}

/// The notice once the mesh was asked for something.
pub fn mesh_notice(op: MeshOp, reply: Option<&Json>) -> (r: Effect)
    ensures
        r@ == mesh_notice_v(op, reply_v(reply)),
{
    let ok = match reply {
        Some(body) => json_flag(body, "ok"),
        None => false,
    };
    match op {
        MeshOp::Add => if ok {
            notice(ToastKind::Success, copy("Peer added"))
        } else {
            notice(ToastKind::Error, copy("Failed to add peer"))
        },
        MeshOp::Remove => if ok {
            notice(ToastKind::Info, copy("Peer removed"))
        } else {
            notice(ToastKind::Error, copy("Failed to remove peer"))
        },
        MeshOp::Redeem => if ok {
            notice(ToastKind::Success, copy("Paired — peer added"))
        } else {
            notice(ToastKind::Error, copy("Pairing failed (bad or expired code?)"))
        },
    }
}

/// The code that this node shows for another to take up, and how many seconds it holds;
/// without one there is a notice instead.
pub open spec fn pairing_v(reply: Option<JsonV>) -> Result<(Seq<char>, i32), EffectV> {
    match reply {
        Some(body) if str_v(body, "code"@).len() > 0 => Ok(
            (str_v(body, "code"@), int_or(body, "ttl_secs"@, 300) as i32),
        ),
        _ => Err(notice_v(ToastKind::Error, "Couldn't start pairing"@)),
    }
}

/// The code that this node shows for another to take up.
pub fn pairing(reply: Option<&Json>) -> (r: Result<(String, i32), Effect>)
    ensures
        match r {
            Ok((code, ttl)) => pairing_v(reply_v(reply)) == Ok::<(Seq<char>, i32), EffectV>(
                (code@, ttl),
            ),
            Err(e) => pairing_v(reply_v(reply)) == Err::<(Seq<char>, i32), EffectV>(e@),
        },
{
    match reply {
        Some(body) => {
            let code = json_str(body, "code");
            if !code.as_str().is_empty() {
                let ttl: i64 = body.i64_or("ttl_secs", 300);
                return Ok((code, #[verifier::truncate] (ttl as i32)));
            }
        },
        None => {},
    }
    Err(notice(ToastKind::Error, copy("Couldn't start pairing")))
}

// ── Laws ────────────────────────────────────────────────────────────────────

/// Peers stand above the nodes that were found: once a row is no peer, none below it is.
pub proof fn peers_come_first(peers: JsonV, nodes: JsonV, i: int, j: int)
    requires
        0 <= i <= j < mesh_v(peers, nodes).len(),
        mesh_v(peers, nodes)[j].is_peer,
    ensures
        mesh_v(peers, nodes)[i].is_peer,
{
    let p = items_or_none(peers, "peers"@);
    let n = items_or_none(nodes, "nodes"@);
    all_peers(p, p.len() as int);
    no_peers(n, n.len() as int);
    let k = peers_v(p, p.len() as int).len();
    if j >= k {
        assert(mesh_v(peers, nodes)[j] == found_v(n, n.len() as int)[j - k]);
    }
    if i < k {
        assert(mesh_v(peers, nodes)[i] == peers_v(p, p.len() as int)[i]);
    }
}

proof fn all_peers(a: Seq<JsonV>, n: int)
    requires
        0 <= n <= a.len(),
    ensures
        peers_v(a, n).len() == n,
        forall|i: int| 0 <= i < n ==> (#[trigger] peers_v(a, n)[i]).is_peer,
    decreases n,
{
    if n > 0 {
        all_peers(a, n - 1);
        assert forall|i: int| 0 <= i < n implies (#[trigger] peers_v(a, n)[i]).is_peer by {
            if i < n - 1 {
                assert(peers_v(a, n)[i] == peers_v(a, n - 1)[i]);
            }
        }
    }
}

proof fn no_peers(a: Seq<JsonV>, n: int)
    requires
        0 <= n <= a.len(),
    ensures
        found_v(a, n).len() <= n,
        forall|i: int|
            0 <= i < found_v(a, n).len() ==> !(#[trigger] found_v(a, n)[i]).is_peer,
    decreases n,
{
    if n > 0 {
        no_peers(a, n - 1);
        assert forall|i: int| 0 <= i < found_v(a, n).len() implies !(#[trigger] found_v(
            a,
            n,
        )[i]).is_peer by {
            if i < found_v(a, n - 1).len() {
                assert(found_v(a, n)[i] == found_v(a, n - 1)[i]);
            }
        }
    }
}

/// Every peer of the reply is in the mesh, in its order.
pub proof fn every_peer_is_shown(peers: JsonV, nodes: JsonV, i: int)
    requires
        0 <= i < items_or_none(peers, "peers"@).len(),
    ensures
        i < mesh_v(peers, nodes).len(),
        mesh_v(peers, nodes)[i] == peer_row_v(items_or_none(peers, "peers"@)[i]),
{
    let p = items_or_none(peers, "peers"@);
    peer_in_place(p, p.len() as int, i);
}

proof fn peer_in_place(a: Seq<JsonV>, n: int, i: int)
    requires
        0 <= i < n <= a.len(),
    ensures
        peers_v(a, n).len() == n,
        peers_v(a, n)[i] == peer_row_v(a[i]),
    decreases n,
{
    all_peers(a, n - 1);
    if i < n - 1 {
        peer_in_place(a, n - 1, i);
    }
}

} // verus!

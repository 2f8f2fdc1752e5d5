//! How the nodes of the mesh are shown.
use vstd::prelude::*;
use crate::cut_laws::{says, silent};
use crate::json::{flagged, items_or_none, text_at, text_or, JsonV};
use crate::roster::{add_peer_v, found_v, mesh_v, peers_v};
use crate::text::trimmed;

verus! {

proof fn peers_in_order(a: Seq<JsonV>, n: int, i: int)
    requires
        0 <= i < n <= a.len(),
    ensures
        peers_v(a, n).len() == n,
        peers_v(a, n)[i].node_id == text_or(a[i], "node_id"@, ""@),
        peers_v(a, n)[i].detail == text_or(a[i], "ws_url"@, ""@),
        peers_v(a, n)[i].is_peer,
        peers_v(a, n)[i].has_token == flagged(a[i], "has_token"@),
        text_at(a[i], "live"@) matches Some(s) ==> peers_v(a, n)[i].status == s,
    decreases n,
{
    if n == 1 {
        assert(peers_v(a, 0).len() == 0);
    } else if i < n - 1 {
        peers_in_order(a, n - 1, i);
    } else {
        peers_in_order(a, n - 1, 0);
    }
}

/// A peer is shown by its own name, its address and how it is now.
pub proof fn peers_show_as_they_are(peers: JsonV, nodes: JsonV, i: int)
    requires
        0 <= i < items_or_none(peers, "peers"@).len(),
    ensures
        ({
            let p = items_or_none(peers, "peers"@)[i];
            let r = mesh_v(peers, nodes)[i];
            &&& r.node_id == text_or(p, "node_id"@, ""@)
            &&& r.detail == text_or(p, "ws_url"@, ""@)
            &&& r.is_peer
            &&& r.has_token == flagged(p, "has_token"@)
            &&& text_at(p, "live"@) matches Some(s) ==> r.status == s
        }),
{
    let a = items_or_none(peers, "peers"@);
    peers_in_order(a, a.len() as int, i);
}

/// A node that was found is shown, unless it is known already.
pub proof fn found_nodes_are_shown(a: Seq<JsonV>, n: int, i: int)
    requires
        0 <= i < n <= a.len(),
        !flagged(a[i], "known"@),
    ensures
        exists|j: int|
            0 <= j < found_v(a, n).len() && (#[trigger] found_v(a, n)[j]).node_id == text_or(
                a[i],
                "node_id"@,
                ""@,
            ) && found_v(a, n)[j].status == "discovered"@ && !found_v(a, n)[j].is_peer,
    decreases n,
{
    let q = found_v(a, n);
    let id = text_or(a[i], "node_id"@, ""@);
    if i == n - 1 {
        assert(q[q.len() - 1].node_id == id);
    } else {
        found_nodes_are_shown(a, n - 1, i);
        let p = found_v(a, n - 1);
        let j = choose|j: int|
            0 <= j < p.len() && (#[trigger] p[j]).node_id == id && p[j].status == "discovered"@
                && !p[j].is_peer;
        assert(q[j] == p[j]);
    }
}

/// A peer is added by its name and address; a token is sent only where one was given.
pub proof fn peers_are_added(node: Seq<char>, url: Seq<char>, token: Seq<char>)
    ensures
        ({
            let b = add_peer_v(node, url, token);
            &&& says(b, "node_id"@, JsonV::Str(node))
            &&& says(b, "ws_url"@, JsonV::Str(url))
            &&& trimmed(token).len() > 0 ==> says(b, "token"@, JsonV::Str(trimmed(token)))
            &&& trimmed(token).len() == 0 ==> silent(b, "token"@)
        }),
{
    reveal_strlit("node_id");
    reveal_strlit("ws_url");
    reveal_strlit("token");
    assert("node_id"@.len() == 7 && "ws_url"@.len() == 6 && "token"@.len() == 5);
    let e = add_peer_v(node, url, token)->Obj_0;
    assert(e[0] == ("node_id"@, JsonV::Str(node)));
    assert(e[1] == ("ws_url"@, JsonV::Str(url)));
    if trimmed(token).len() > 0 {
        assert(e[2] == ("token"@, JsonV::Str(trimmed(token))));
    } else {
        assert(e.len() == 2);
    }
}

} // verus!

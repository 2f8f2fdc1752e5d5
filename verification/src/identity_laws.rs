//! How users sign in and pick their agents.
use vstd::prelude::*;
use crate::identity::{
    agents_shown, booted, key_request_v, keyed, login_booted, login_outcome_v, owned_v,
    pin_answered, user_picked, user_place, user_v, users_of, users_v, AgentRowV, Ask, IdentityV,
    LoginOutcomeV, PinRequestV, UserRowV,
};
use crate::json::{flagged, text_at, text_or, JsonV};

verus! {

/// A user is found by the id.
pub proof fn users_are_found(u: Seq<UserRowV>, i: int, from: int)
    requires
        0 <= from <= i < u.len(),
        forall|j: int| 0 <= j < i ==> (#[trigger] u[j]).id != u[i].id,
    ensures
        user_place(u, u[i].id, from) == i,
        from == 0 ==> user_v(u, u[i].id) == Some(u[i]),
    decreases i - from,
{
    if from < i {
        users_are_found(u, i, from + 1);
    }
}

/// Users are listed in their order, each with id, name and whether a PIN is asked for.
pub proof fn users_are_listed(a: Seq<JsonV>, n: int, i: int)
    requires
        0 <= i < n <= a.len(),
    ensures
        users_v(a, n).len() == n,
        users_v(a, n)[i].id == text_or(a[i], "id"@, ""@),
        users_v(a, n)[i].name == text_or(a[i], "name"@, ""@),
        users_v(a, n)[i].has_pin == flagged(a[i], "has_pin"@),
    decreases n,
{
    if n == 1 {
        assert(users_v(a, 0).len() == 0);
    } else if i < n - 1 {
        users_are_listed(a, n - 1, i);
    } else {
        users_are_listed(a, n - 1, 0);
    }
}

/// Picking a user selects that user. One with a PIN is asked for it; another is shown the
/// agents, or is signed in where that is what the screen is for.
pub proof fn picking_a_user(s: IdentityV, i: int)
    requires
        0 <= i < s.users.len(),
        forall|j: int| 0 <= j < i ==> (#[trigger] s.users[j]).id != s.users[i].id,
    ensures
        ({
            let t = user_picked(s, s.users[i].id);
            &&& t.selected == s.users[i].id
            &&& t.selected_name == s.users[i].name
            &&& t.pin.len() == 0 && !t.pin_error
            &&& s.users[i].has_pin ==> t.step == Ask::Pin
            &&& !s.users[i].has_pin && !s.login ==> t.step == Ask::Agent && t.agent_tiles
                == agents_shown(s, s.users[i].id).agent_tiles
            &&& !s.users[i].has_pin && s.login ==> t.step == s.step
            &&& t.users == s.users && t.agents == s.agents && t.open == s.open
        }),
{
    users_are_found(s.users, i, 0);
}

/// Every agent that a user owns is shown.
pub proof fn owned_agents_are_shown(a: Seq<AgentRowV>, owner: Seq<char>, n: int, i: int)
    requires
        0 <= i < n <= a.len(),
        a[i].owner == owner,
    ensures
        exists|j: int|
            0 <= j < owned_v(a, owner, n).len() && (#[trigger] owned_v(a, owner, n)[j]).id
                == a[i].id && owned_v(a, owner, n)[j].name == a[i].name,
    decreases n,
{
    let q = owned_v(a, owner, n);
    if i == n - 1 {
        assert(q[q.len() - 1].id == a[i].id);
    } else {
        owned_agents_are_shown(a, owner, n - 1, i);
        let p = owned_v(a, owner, n - 1);
        let j = choose|j: int|
            0 <= j < p.len() && (#[trigger] p[j]).id == a[i].id && p[j].name == a[i].name;
        assert(q[j] == p[j]);
    }
}

/// A digit is added to the PIN, as long as there are fewer than six; the word for going on
/// asks with what was typed, for the user that was picked.
pub proof fn keys_make_the_pin(s: IdentityV, key: Seq<char>)
    requires
        s.pin.len() <= 6,
    ensures
        key.len() == 1 && s.pin.len() < 6 ==> keyed(s, key).pin == s.pin + key,
        key.len() == 1 && s.pin.len() == 6 ==> keyed(s, key).pin == s.pin,
        key.len() == 1 ==> key_request_v(s, key) is None,
        key == "OK"@ ==> keyed(s, key) == s && key_request_v(s, key) == Some(
            if s.login {
                PinRequestV::Login { user_id: s.selected, pin: s.pin }
            } else {
                PinRequestV::Verify { user_id: s.selected, pin: s.pin }
            },
        ),
        key == "DEL"@ && s.pin.len() > 0 ==> keyed(s, key).pin == s.pin.drop_last(),
{
    reveal_strlit("OK");
    reveal_strlit("DEL");
    assert("OK"@.len() == 2 && "DEL"@.len() == 3);
}

/// Only a PIN that was confirmed leads on to the agents; the PIN is forgotten either way.
pub proof fn confirmed_pins_lead_on(s: IdentityV, reply: Option<JsonV>)
    ensures
        pin_answered(s, reply).pin.len() == 0,
        reply is Some && flagged(reply->0, "ok"@) ==> pin_answered(s, reply).step == Ask::Agent
            && pin_answered(s, reply).agent_tiles == agents_shown(s, s.selected).agent_tiles
            && !pin_answered(s, reply).pin_error,
        reply is None || !flagged(reply->0, "ok"@) ==> pin_answered(s, reply).step == s.step
            && pin_answered(s, reply).pin_error && pin_answered(s, reply).pin_message.len() > 0,
{
    reveal_strlit("Can't reach agentd — try again");
    reveal_strlit("Wrong PIN — try again");
    reveal_strlit("Too many tries — locked");
    reveal_strlit("Too many tries — locked ");
}

/// A token that came with a sign-in starts the desk over with that token.
pub proof fn tokens_sign_in(body: JsonV, token: Seq<char>)
    requires
        flagged(body, "ok"@),
        text_at(body, "token"@) == Some(token),
    ensures
        login_outcome_v(Some(body)) == LoginOutcomeV::Relaunch(token),
{
}

/// Nobody is asked who they are where there is one user without a PIN and one agent; where
/// there is a choice, it is offered.
pub proof fn choices_are_offered(s: IdentityV, body: JsonV)
    ensures
        ({
            let t = booted(s, body);
            let u = users_of(body);
            &&& t.users == u
            &&& u.len() > 1 ==> t.open && t.step == Ask::Profile && t.user_tiles.len() == u.len()
            &&& u.len() == 1 && u[0].has_pin ==> t.open
            &&& t.agents.len() > 1 ==> t.open
            &&& u.len() <= 1 && t.agents.len() <= 1 && (u.len() == 1 ==> !u[0].has_pin) ==> t.open
                == s.open && t.step == s.step
        }),
{
}

/// The sign-in starts with the user who is there by default, where a PIN is asked of them.
pub proof fn sign_in_starts_with_the_default(s: IdentityV, body: JsonV, i: int)
    requires
        0 <= i < users_of(body).len(),
        forall|j: int| 0 <= j < i ==> (#[trigger] users_of(body)[j]).id != users_of(body)[i].id,
        text_at(body, "default_user"@) == Some(users_of(body)[i].id),
    ensures
        login_booted(s, body).open && login_booted(s, body).login,
        users_of(body)[i].has_pin ==> login_booted(s, body).step == Ask::Pin && login_booted(
            s,
            body,
        ).selected == users_of(body)[i].id,
        !users_of(body)[i].has_pin ==> login_booted(s, body).step == Ask::Profile,
{
    users_are_found(users_of(body), i, 0);
}

} // verus!

//! The numbers and names by which the wire knows things.
use vstd::prelude::*;
use crate::json::{text_v, uint_json, uint_v, Json, JsonV};
use crate::text::{copy, dec, dec_u64};

verus! {

/// A session of the agent. On the wire it is a bare number.
#[derive(Clone, Copy, Debug, PartialEq, Eq, Hash, Structural)]
pub struct SessionId(pub u64);

/// A tool call. On the wire it is a bare number.
#[derive(Clone, Copy, Debug, PartialEq, Eq, Hash, Structural)]
pub struct ActionId(pub u64);

/// A plugin, such as "cerebro-mcp". On the wire it is a bare string.
#[derive(Debug, PartialEq, Eq, Hash)]
pub struct PluginId(pub String);

impl View for PluginId {
    type V = Seq<char>;

    open spec fn view(&self) -> Seq<char> {
        self.0@
    }
}

impl SessionId {
    /// The number in decimal.
    pub fn to_text(&self) -> (r: String)
        ensures
            r@ == dec(self.0 as nat),
    {
        dec_u64(self.0)
    }

    /// The number as JSON.
    pub fn to_json(&self) -> (r: Json)
        ensures
            r@ == uint_json(self.0),
    {
        Json::uint(self.0)
    }

    /// The session that a JSON number names.
    pub fn from_json(j: &Json) -> (r: Option<SessionId>)
        ensures
            r == match uint_v(j@) {
                Some(n) => Some(SessionId(n)),
                None => None,
            },
    {
        match j.as_u64() {
            Some(n) => Some(SessionId(n)),
            None => None,
        }
    }
}

impl ActionId {
    /// The number in decimal.
    pub fn to_text(&self) -> (r: String)
        ensures
            r@ == dec(self.0 as nat),
    {
        dec_u64(self.0)
    }

    /// The number as JSON.
    pub fn to_json(&self) -> (r: Json)
        ensures
            r@ == uint_json(self.0),
    {
        Json::uint(self.0)
    }

    /// The call that a JSON number names.
    pub fn from_json(j: &Json) -> (r: Option<ActionId>)
        ensures
            r == match uint_v(j@) {
                Some(n) => Some(ActionId(n)),
                None => None,
            },
    {
        match j.as_u64() {
            Some(n) => Some(ActionId(n)),
            None => None,
        }
    }
}

impl PluginId {
    /// The name.
    pub fn to_text(&self) -> (r: String)
        ensures
            r@ == self@,
    {
        self.0.clone()
    }

    /// The name as JSON.
    pub fn to_json(&self) -> (r: Json)
        ensures
            r@ == JsonV::Str(self@),
    {
        Json::Str(self.0.clone())
    }

    /// The plugin that a JSON string names.
    pub fn from_json(j: &Json) -> (r: Option<PluginId>)
        ensures
            r is Some <==> text_v(j@) is Some,
            r is Some ==> text_v(j@) == Some(r->0@),
    {
        match j.as_str() {
            Some(s) => Some(PluginId(copy(s))),
            None => None,
        }
    }
}

// ── Laws ────────────────────────────────────────────────────────────────────

/// What is written for a session or a call is read back as the same.
pub proof fn ids_round_trip(n: u64)
    ensures
        uint_v(uint_json(n)) == Some(n),
{
}

} // verus!

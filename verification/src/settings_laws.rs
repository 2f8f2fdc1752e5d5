//! What the settings show, and what a change of them asks for.
use vstd::prelude::*;
use crate::cut_laws::says;
use crate::json::{flag_or, flagged, items_or_none, text_or, uint_at, uint_json, JsonV};
use crate::settings::{
    change_body_v, change_path_v, change_shown_v, filtered, label_tokens_v, matches_v, model_rows_v,
    narrowed, settings_v, ChangeV, ModelItemV, RepliesV, SettingsDataV,
};
use crate::text::{lower_case, trimmed};

verus! {

/// Models are listed in their order, each with its id and its name.
pub proof fn models_are_listed(a: Seq<JsonV>, n: int, i: int)
    requires
        0 <= i < n <= a.len(),
    ensures
        model_rows_v(a, n).len() == n,
        model_rows_v(a, n)[i].model_id == text_or(a[i], "id"@, ""@),
        model_rows_v(a, n)[i].model_name == text_or(a[i], "name"@, ""@),
    decreases n,
{
    if n == 1 {
        assert(model_rows_v(a, 0).len() == 0);
    } else if i < n - 1 {
        models_are_listed(a, n - 1, i);
    } else {
        models_are_listed(a, n - 1, 0);
    }
}

proof fn matching_stays(all: Seq<ModelItemV>, f: Seq<char>, n: int, i: int)
    requires
        0 <= i < n <= all.len(),
        matches_v(all[i], f),
        narrowed(all, f, n).len() < 60,
    ensures
        narrowed(all, f, n).contains(all[i]),
    decreases n,
{
    let p = narrowed(all, f, n - 1);
    let q = narrowed(all, f, n);
    if i == n - 1 {
        assert(q[q.len() - 1] == all[i]);
    } else {
        matching_stays(all, f, n - 1, i);
        let j = choose|j: int| 0 <= j < p.len() && p[j] == all[i];
        assert(q[j] == all[i]);
    }
}

/// A model whose id or name holds what was typed is shown, as long as there is room.
pub proof fn matching_models_are_shown(all: Seq<ModelItemV>, typed: Seq<char>, i: int)
    requires
        0 <= i < all.len(),
        matches_v(all[i], lower_case(trimmed(typed))),
        filtered(all, typed).len() < 60,
    ensures
        filtered(all, typed).contains(all[i]),
{
    matching_stays(all, lower_case(trimmed(typed)), all.len() as int, i);
}

/// Each setting is shown as it was told, or as it is by default.
pub proof fn settings_are_shown(r: RepliesV)
    ensures
        ({
            let d = settings_v(r);
            &&& d.soul_text == text_or(r.soul, "content"@, ""@)
            &&& d.policy_mode == text_or(r.status, "policy_mode"@, "suggest"@)
            &&& d.current_model == text_or(r.status, "model"@, ""@)
            &&& d.sensor_profile == text_or(r.sensors, "profile"@, "standard"@)
            &&& d.voice_backend == text_or(r.voice, "voice_backend"@, "auto"@)
            &&& d.backend == text_or(r.backend, "backend"@, "anthropic"@)
            &&& d.cache_ttl == text_or(r.cache, "ttl"@, "5m"@)
            &&& d.cache_enabled == flag_or(r.cache, "enabled"@, true)
            &&& d.models.len() == items_or_none(r.models, "models"@).len()
            &&& uint_at(r.history, "budget"@) is None ==> d.history_budget_label == "120k"@
            &&& uint_at(r.history, "budget"@) == Some(0u64) ==> d.history_budget_label == "off"@
            &&& flagged(r.voice, "has_openai"@) ==> d.voice_api_available
        }),
{
    let a = items_or_none(r.models, "models"@);
    if a.len() > 0 {
        models_are_listed(a, a.len() as int, 0);
    }
}

/// Whether a change asks one place for one thing.
pub open spec fn asks(c: ChangeV, path: Seq<char>, name: Seq<char>, v: JsonV) -> bool {
    &&& change_path_v(c) == path
    &&& change_body_v(c) matches Some(b) && says(b, name, v)
}

/// Each change asks its own place for what was chosen.
pub proof fn changes_ask_for_what_was_chosen(s: Seq<char>, url: Seq<char>, on: bool, talk: bool)
    ensures
        asks(ChangeV::Soul(s), "/api/soul"@, "content"@, JsonV::Str(s)),
        asks(ChangeV::Policy(s), "/api/policy"@, "mode"@, JsonV::Str(s)),
        asks(ChangeV::Model(s), "/api/model"@, "model"@, JsonV::Str(s)),
        asks(ChangeV::Backend(s), "/api/backend"@, "backend"@, JsonV::Str(s)),
        asks(
            ChangeV::Endpoint { url, kind: s },
            "/api/backend"@,
            "oai_base_url"@,
            JsonV::Str(url),
        ),
        asks(ChangeV::Endpoint { url, kind: s }, "/api/backend"@, "backend"@, JsonV::Str(s)),
        asks(ChangeV::Key(s), "/api/keys"@, "oai"@, JsonV::Str(s)),
        asks(
            ChangeV::Cache { enabled: on, conversation: talk, ttl: s },
            "/api/cache"@,
            "enabled"@,
            JsonV::Bool(on),
        ),
        asks(
            ChangeV::Cache { enabled: on, conversation: talk, ttl: s },
            "/api/cache"@,
            "cache_conversation"@,
            JsonV::Bool(talk),
        ),
        asks(
            ChangeV::Cache { enabled: on, conversation: talk, ttl: s },
            "/api/cache"@,
            "ttl"@,
            JsonV::Str(s),
        ),
        asks(ChangeV::Sensors(s), "/api/sensors/config"@, "profile"@, JsonV::Str(s)),
        asks(ChangeV::Voice(s), "/api/voice"@, "voice_backend"@, JsonV::Str(s)),
        asks(ChangeV::Voice(s), "/api/voice"@, "stt_backend"@, JsonV::Str(s)),
{
    said_first(ChangeV::Soul(s));
    said_first(ChangeV::Policy(s));
    said_first(ChangeV::Model(s));
    said_first(ChangeV::Backend(s));
    said_first(ChangeV::Key(s));
    said_first(ChangeV::Sensors(s));
    said_first(ChangeV::Voice(s));
    said_first(ChangeV::Endpoint { url, kind: s });
    said_first(ChangeV::Cache { enabled: on, conversation: talk, ttl: s });
}

proof fn said_first(c: ChangeV)
    requires
        change_body_v(c) is Some,
    ensures
        change_body_v(c)->0 is Obj,
        ({
            let e = change_body_v(c)->0->Obj_0;
            &&& says(change_body_v(c)->0, e[0].0, e[0].1)
            &&& e.len() > 1 ==> says(change_body_v(c)->0, e[1].0, e[1].1)
            &&& e.len() > 2 ==> says(change_body_v(c)->0, e[2].0, e[2].1)
            &&& c is Cache ==> e.len() == 3 && e[0].0 == "enabled"@ && e[1].0
                == "cache_conversation"@ && e[2].0 == "ttl"@
            &&& c is Voice ==> e.len() == 2 && e[0].0 == "voice_backend"@ && e[1].0
                == "stt_backend"@
            &&& c is Endpoint ==> e.len() == 2 && e[0].0 == "backend"@ && e[1].0
                == "oai_base_url"@
            &&& !(c is Cache || c is Voice || c is Endpoint) ==> e.len() == 1
        }),
{
}

/// A budget that is offered is asked for in tokens; any other label asks for nothing and
/// changes nothing.
pub proof fn budgets_are_asked_for(label: Seq<char>, d: SettingsDataV)
    ensures
        label_tokens_v(label) matches Some(n) ==> asks(
            ChangeV::History(label),
            "/api/history"@,
            "budget"@,
            uint_json(n),
        ) && change_shown_v(d, ChangeV::History(label)).history_budget_label == label,
        label_tokens_v(label) is None ==> change_body_v(ChangeV::History(label)) is None
            && change_shown_v(d, ChangeV::History(label)) == d,
{
    if label_tokens_v(label) is Some {
        said_first(ChangeV::History(label));
    }
}

/// A change that was made shows in its own setting, and in no other.
pub proof fn changes_show_in_their_setting(d: SettingsDataV, s: Seq<char>)
    ensures
        change_shown_v(d, ChangeV::Policy(s)) == (SettingsDataV { policy_mode: s, ..d }),
        change_shown_v(d, ChangeV::Model(s)) == (SettingsDataV { current_model: s, ..d }),
        change_shown_v(d, ChangeV::Backend(s)) == (SettingsDataV { backend: s, ..d }),
        change_shown_v(d, ChangeV::Sensors(s)) == (SettingsDataV { sensor_profile: s, ..d }),
        change_shown_v(d, ChangeV::Voice(s)) == (SettingsDataV { voice_backend: s, ..d }),
{
}

} // verus!

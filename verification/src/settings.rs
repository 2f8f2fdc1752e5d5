//! Settings: what the daemon's replies say of them, what is sent to change one, and the
//! catalogue of models.
use vstd::prelude::*;
use crate::effects::{notice, notice_v, Effect, EffectV, ToastKind};
use crate::json::{
    entries, flag_or, flagged, int_or, items_at, items_or_none, put, text_or, uint_at, uint_json,
    uint_or, Json, JsonV,
};
use crate::numbers::{humanize_tokens, tokens_v};
use crate::reader::{json_flag, json_str, str_v};
use crate::text::{
    cat, cat3, contains, copy, dec, dec_len, dec_u64, decimal, holds_text, lower_case, same,
    to_lower, trim, trimmed, views,
};

verus! {

broadcast use {
    crate::text::views_push,
    crate::text::views_empty,
    crate::json::entries_empty,
};

// ── The budget of the history ───────────────────────────────────────────────

/// The label of a budget: thousands of tokens, or that there is none.
pub open spec fn budget_label_v(budget: u64) -> Seq<char> {
    if budget == 0 {
        "off"@
    } else {
        dec((budget / 1000) as nat) + "k"@
    }
}

/// The budgets that the settings offer.
pub open spec fn offered(budget: u64) -> bool {
    budget == 0 || budget == 60_000 || budget == 120_000 || budget == 200_000 || budget == 400_000
}

/// The tokens behind a label that the settings offer.
pub open spec fn label_tokens_v(label: Seq<char>) -> Option<u64> {
    if label == "off"@ {
        Some(0)
    } else if label == "60k"@ {
        Some(60_000)
    } else if label == "120k"@ {
        Some(120_000)
    } else if label == "200k"@ {
        Some(200_000)
    } else if label == "400k"@ {
        Some(400_000)
    } else {
        None
    }
}

/// The label of a budget. One that the settings do not offer has a label all the same.
pub fn history_budget_label(budget: u64) -> (r: String)
    ensures
        r@ == budget_label_v(budget),
{
    if budget == 0 {
        copy("off")
    } else {
        cat(dec_u64(budget / 1000).as_str(), "k")
    }
}

/// The tokens behind a label; none for one that the settings do not offer.
pub fn history_label_tokens(label: &str) -> (r: Option<u64>)
    ensures
        r == label_tokens_v(label@),
{
    if same(label, "off") {
        Some(0)
    } else if same(label, "60k") {
        Some(60_000)
    } else if same(label, "120k") {
        Some(120_000)
    } else if same(label, "200k") {
        Some(200_000)
    } else if same(label, "400k") {
        Some(400_000)
    } else {
        None
    }
}

/// The size at which a window is trimmed, where nothing else is said: a fifth above the
/// budget.
pub open spec fn usual_trigger(budget: u64) -> nat {
    (budget + budget / 5) as nat
}

/// The largest window in use, against the budget; empty where no session is loaded.
pub open spec fn usage_line_v(h: JsonV) -> Seq<char> {
    let sessions = items_or_none(h, "sessions"@);
    if sessions.len() == 0 {
        Seq::empty()
    } else {
        let sid = dec(uint_or(sessions[0], "session_id"@, 0) as nat);
        let est = dec((uint_or(sessions[0], "est_tokens"@, 0) / 1000) as nat);
        let budget = uint_or(h, "budget"@, 0);
        if budget == 0 {
            "Largest window: session "@ + sid + " ≈ "@ + est + "k tokens (trimming off)"@
        } else {
            let trigger = match uint_at(h, "trim_trigger"@) {
                Some(t) => t as nat,
                None => usual_trigger(budget),
            };
            "Largest window: session "@ + sid + " ≈ "@ + est + "k of "@ + dec(
                (budget / 1000) as nat,
            ) + "k (trims at "@ + dec(trigger / 1000) + "k)"@
        }
    }
}

/// The largest window in use, against the budget; empty where no session is loaded.
pub fn history_usage_line(h: &Json) -> (r: String)
    ensures
        r@ == usage_line_v(h@),
{
    let sessions = h.items_at("sessions");
    if sessions.len() == 0 {
        return String::new();
    }
    assert(items_or_none(h@, "sessions"@)[0] == sessions@[0]@);
    let mut out = cat3(
        "Largest window: session ",
        dec_u64(sessions[0].u64_or("session_id", 0)).as_str(),
        " ≈ ",
    );
    out.append(dec_u64(sessions[0].u64_or("est_tokens", 0) / 1000).as_str());
    let budget = h.u64_or("budget", 0);
    if budget == 0 {
        out.append("k tokens (trimming off)");
    } else {
        let trigger: u128 = match h.u64_at("trim_trigger") {
            Some(t) => t as u128,
            None => budget as u128 + (budget / 5) as u128,
        };
        out.append("k of ");
        out.append(dec_u64(budget / 1000).as_str());
        out.append("k (trims at ");
        out.append(decimal(trigger / 1000).as_str());
        out.append("k)");
    }
    out
}

// ── Models ──────────────────────────────────────────────────────────────────

/// A model.
#[derive(Debug, PartialEq)]
pub struct ModelItem {
    pub model_id: String,
    pub model_name: String,
}

/// The model of a [`ModelItem`].
pub struct ModelItemV {
    pub model_id: Seq<char>,
    pub model_name: Seq<char>,
}

impl View for ModelItem {
    type V = ModelItemV;

    open spec fn view(&self) -> ModelItemV {
        ModelItemV {
            model_id: self.model_id@,
            model_name: self.model_name@,
        }
    }
}

/// A model, from its body.
pub open spec fn model_row_v(j: JsonV) -> ModelItemV {
    ModelItemV {
        model_id: str_v(j, "id"@),
        model_name: str_v(j, "name"@),
    }
}

fn model_row(j: &Json) -> (r: ModelItem)
    ensures
        r@ == model_row_v(j@),
{
    ModelItem {
        model_id: json_str(j, "id"),
        model_name: json_str(j, "name"),
    }
}

/// The rows of the first `n` models.
pub open spec fn model_rows_v(a: Seq<JsonV>, n: int) -> Seq<ModelItemV>
    decreases n,
{
    if n <= 0 {
        Seq::empty()
    } else {
        model_rows_v(a, n - 1).push(model_row_v(a[n - 1]))
    }
}

/// The models of a reply.
pub fn model_rows(body: &Json) -> (r: Vec<ModelItem>)
    ensures
        views(r@) == model_rows_v(items_or_none(body@, "models"@), items_or_none(body@, "models"@).len() as int),
{
    let arr = body.items_at("models");
    let ghost a = views(arr@);
    let mut out: Vec<ModelItem> = Vec::new();
    for i in 0..arr.len()
        invariant
            a == views(arr@),
            views(out@) == model_rows_v(a, i as int),
    {
        assert(a[i as int] == arr@[i as int]@);
        out.push(model_row(&arr[i]));
    }
    assert(a.len() == arr@.len());
    out
}

impl ModelItem {
    /// A copy of the row.
    pub fn copy(&self) -> (r: ModelItem)
        ensures
            r@ == self@,
    {
        ModelItem { model_id: copy(self.model_id.as_str()), model_name: copy(self.model_name.as_str()) }
    }
}

/// How many models the picker shows.
pub const MODELS_VIEW_CAP: usize = 60;

/// Whether one of two texts holds what is looked for; nothing is held by every text.
pub open spec fn either_holds(id: Seq<char>, name: Seq<char>, f: Seq<char>) -> bool {
    f.len() == 0 || holds_text(id, f) || holds_text(name, f)
}

/// Whether one of two texts holds what is looked for; nothing is held by every text.
pub fn model_matches(id: &str, name: &str, f: &str) -> (r: bool)
    ensures
        r == either_holds(id@, name@, f@),
{
    f.is_empty() || contains(id, f) || contains(name, f)
}

/// Whether a model's name or number holds what is looked for, letter case aside.
pub open spec fn matches_v(m: ModelItemV, f: Seq<char>) -> bool {
    either_holds(lower_case(m.model_id), lower_case(m.model_name), f)
}

/// Those of the first `n` models that match, up to the cap.
pub open spec fn narrowed(all: Seq<ModelItemV>, f: Seq<char>, n: int) -> Seq<ModelItemV>
    decreases n,
{
    if n <= 0 {
        Seq::empty()
    } else {
        let before = narrowed(all, f, n - 1);
        if before.len() < MODELS_VIEW_CAP && matches_v(all[n - 1], f) {
            before.push(all[n - 1])
        } else {
            before
        }
    }
}

/// What a filter leaves of a catalogue.
pub open spec fn filtered(all: Seq<ModelItemV>, filter: Seq<char>) -> Seq<ModelItemV> {
    narrowed(all, lower_case(trimmed(filter)), all.len() as int)
}

/// The head of a catalogue.
pub open spec fn head_of(all: Seq<ModelItemV>) -> Seq<ModelItemV> {
    if all.len() <= MODELS_VIEW_CAP {
        all
    } else {
        all.take(MODELS_VIEW_CAP as int)
    }
}

/// The catalogue of models, and the part of it that is shown.
#[derive(Debug)]
pub struct Models {
    pub full: Vec<ModelItem>,
    pub shown: Vec<ModelItem>,
}

/// The model of a catalogue.
pub struct ModelsV {
    pub full: Seq<ModelItemV>,
    pub shown: Seq<ModelItemV>,
}

impl View for Models {
    type V = ModelsV;

    open spec fn view(&self) -> ModelsV {
        ModelsV { full: views(self.full@), shown: views(self.shown@) }
    }
}

impl Models {
    /// An empty catalogue.
    pub fn new() -> (r: Models)
        ensures
            r@ == (ModelsV { full: Seq::empty(), shown: Seq::empty() }),
    {
        Models { full: Vec::new(), shown: Vec::new() }
    }

    /// Takes a new catalogue and shows its head.
    pub fn set_models_full(&mut self, items: Vec<ModelItem>)
        ensures
            final(self)@ == (ModelsV { full: views(items@), shown: head_of(views(items@)) }),
    {
        let mut shown: Vec<ModelItem> = Vec::new();
        let mut i: usize = 0;
        while i < items.len() && i < MODELS_VIEW_CAP
            invariant
                i <= items.len(),
                i <= MODELS_VIEW_CAP,
                views(shown@) == views(items@).take(i as int),
            decreases items.len() - i,
        {
            shown.push(items[i].copy());
            assert(views(items@).take(i as int).push(items@[i as int]@) =~= views(items@).take(
                i as int + 1,
            ));
            i = i + 1;
        }
        assert(views(shown@) =~= head_of(views(items@)));
        self.full = items;
        self.shown = shown;
    }

    /// Shows what a filter leaves of the catalogue.
    pub fn apply_model_filter(&mut self, filter: &str)
        ensures
            final(self)@ == (ModelsV { shown: filtered(old(self)@.full, filter@), ..old(self)@ }),
    {
        let f = to_lower(trim(filter));
        let ghost all = self@.full;
        let mut shown: Vec<ModelItem> = Vec::new();
        for i in 0..self.full.len()
            invariant
                all == views(self.full@),
                f@ == lower_case(trimmed(filter@)),
                views(shown@) == narrowed(all, f@, i as int),
        {
            assert(all[i as int] == self.full@[i as int]@);
            assert(views(shown@).len() == shown@.len());
            if shown.len() < MODELS_VIEW_CAP {
                let m = &self.full[i];
                let id = to_lower(m.model_id.as_str());
                let name = to_lower(m.model_name.as_str());
                if model_matches(id.as_str(), name.as_str(), f.as_str()) {
                    shown.push(m.copy());
                }
            }
        }
        assert(all.len() == self.full@.len());
        self.shown = shown;
    }
}

// ── What the replies say ────────────────────────────────────────────────────

/// The replies that the settings are read from; `Null` where there was none.
#[derive(Debug)]
pub struct Replies {
    pub status: Json,
    pub soul: Json,
    pub models: Json,
    pub cache: Json,
    pub history: Json,
    pub sensors: Json,
    pub voice: Json,
    pub backend: Json,
}

/// The model of [`Replies`].
pub struct RepliesV {
    pub status: JsonV,
    pub soul: JsonV,
    pub models: JsonV,
    pub cache: JsonV,
    pub history: JsonV,
    pub sensors: JsonV,
    pub voice: JsonV,
    pub backend: JsonV,
}

impl View for Replies {
    type V = RepliesV;

    open spec fn view(&self) -> RepliesV {
        RepliesV {
            status: self.status@,
            soul: self.soul@,
            models: self.models@,
            cache: self.cache@,
            history: self.history@,
            sensors: self.sensors@,
            voice: self.voice@,
            backend: self.backend@,
        }
    }
}

/// The settings.
#[derive(Debug)]
pub struct SettingsData {
    /// The text that the agent starts from.
    pub soul_text: String,
    pub policy_mode: String,
    pub current_model: String,
    pub api_key_set: bool,
    pub models: Vec<ModelItem>,
    pub cache_enabled: bool,
    pub cache_conversation: bool,
    pub cache_ttl: String,
    pub history_budget_label: String,
    pub history_usage: String,
    pub sensor_profile: String,
    pub voice_backend: String,
    /// Whether a voice can be had from outside.
    pub voice_api_available: bool,
    pub backend: String,
    pub oai_base_url: String,
    pub oai_key_set: bool,
}

/// The model of [`SettingsData`].
pub struct SettingsDataV {
    pub soul_text: Seq<char>,
    pub policy_mode: Seq<char>,
    pub current_model: Seq<char>,
    pub api_key_set: bool,
    pub models: Seq<ModelItemV>,
    pub cache_enabled: bool,
    pub cache_conversation: bool,
    pub cache_ttl: Seq<char>,
    pub history_budget_label: Seq<char>,
    pub history_usage: Seq<char>,
    pub sensor_profile: Seq<char>,
    pub voice_backend: Seq<char>,
    pub voice_api_available: bool,
    pub backend: Seq<char>,
    pub oai_base_url: Seq<char>,
    pub oai_key_set: bool,
}

impl View for SettingsData {
    type V = SettingsDataV;

    open spec fn view(&self) -> SettingsDataV {
        SettingsDataV {
            soul_text: self.soul_text@,
            policy_mode: self.policy_mode@,
            current_model: self.current_model@,
            api_key_set: self.api_key_set,
            models: views(self.models@),
            cache_enabled: self.cache_enabled,
            cache_conversation: self.cache_conversation,
            cache_ttl: self.cache_ttl@,
            history_budget_label: self.history_budget_label@,
            history_usage: self.history_usage@,
            sensor_profile: self.sensor_profile@,
            voice_backend: self.voice_backend@,
            voice_api_available: self.voice_api_available,
            backend: self.backend@,
            oai_base_url: self.oai_base_url@,
            oai_key_set: self.oai_key_set,
        }
    }
}

/// The settings that the replies say; each has a value of its own where its reply is missing.
pub open spec fn settings_v(r: RepliesV) -> SettingsDataV {
    SettingsDataV {
        soul_text: text_or(r.soul, "content"@, ""@),
        policy_mode: text_or(r.status, "policy_mode"@, "suggest"@),
        current_model: text_or(r.status, "model"@, ""@),
        api_key_set: flag_or(r.status, "api_key_set"@, false),
        models: model_rows_v(items_or_none(r.models, "models"@), items_or_none(r.models, "models"@).len() as int),
        cache_enabled: flag_or(r.cache, "enabled"@, true),
        cache_conversation: flag_or(r.cache, "cache_conversation"@, true),
        cache_ttl: text_or(r.cache, "ttl"@, "5m"@),
        history_budget_label: match uint_at(r.history, "budget"@) {
            Some(b) => budget_label_v(b),
            None => "120k"@,
        },
        history_usage: usage_line_v(r.history),
        sensor_profile: text_or(r.sensors, "profile"@, "standard"@),
        voice_backend: text_or(r.voice, "voice_backend"@, "auto"@),
        voice_api_available: flagged(r.voice, "has_elevenlabs"@) || flagged(r.voice, "has_openai"@),
        backend: text_or(r.backend, "backend"@, "anthropic"@),
        oai_base_url: text_or(r.backend, "oai_base_url"@, ""@),
        oai_key_set: flag_or(r.backend, "oai_key_set"@, false),
    }
}

/// The settings that the replies say.
pub fn settings_of(r: &Replies) -> (d: SettingsData)
    ensures
        d@ == settings_v(r@),
{
    SettingsData {
        soul_text: r.soul.str_or("content", ""),
        policy_mode: r.status.str_or("policy_mode", "suggest"),
        current_model: r.status.str_or("model", ""),
        api_key_set: r.status.bool_or("api_key_set", false),
        models: model_rows(&r.models),
        cache_enabled: r.cache.bool_or("enabled", true),
        cache_conversation: r.cache.bool_or("cache_conversation", true),
        cache_ttl: r.cache.str_or("ttl", "5m"),
        history_budget_label: match r.history.u64_at("budget") {
            Some(b) => history_budget_label(b),
            None => copy("120k"),
        },
        history_usage: history_usage_line(&r.history),
        sensor_profile: r.sensors.str_or("profile", "standard"),
        voice_backend: r.voice.str_or("voice_backend", "auto"),
        voice_api_available: json_flag(&r.voice, "has_elevenlabs") || json_flag(&r.voice, "has_openai"),
        backend: r.backend.str_or("backend", "anthropic"),
        oai_base_url: r.backend.str_or("oai_base_url", ""),
        oai_key_set: r.backend.bool_or("oai_key_set", false),
    }
}

/// Who is logged in, and whether the device logs them in by itself.
#[derive(Debug, PartialEq)]
pub struct Login {
    /// Empty where nobody is.
    pub user_id: String,
    pub name: String,
    pub is_default: bool,
}

/// Who is logged in, from the reply on that and the one on the profiles.
pub fn login_of(me: &Json, profiles: &Json) -> (r: Login)
    ensures
        r.user_id@ == str_v(me@, "user_id"@),
        r.name@ == str_v(me@, "name"@),
        r.is_default == (r.user_id@.len() > 0 && r.user_id@ == str_v(profiles@, "default_user"@)),
{
    let user_id = json_str(me, "user_id");
    let default_user = json_str(profiles, "default_user");
    let is_default = !user_id.as_str().is_empty() && same(user_id.as_str(), default_user.as_str());
    Login { user_id, name: json_str(me, "name"), is_default }
}

/// What the device's own login is set to: nobody may be logged in, then there is nothing
/// to set.
pub fn default_login(login: &Login, enabled: bool) -> (r: Option<Json>)
    ensures
        match r {
            Some(body) => login.user_id@.len() > 0 && body@ == JsonV::Obj(
                seq![
                    (
                        "user_id"@,
                        JsonV::Str(
                            if enabled {
                                login.user_id@
                            } else {
                                Seq::empty()
                            },
                        ),
                    ),
                ],
            ),
            None => login.user_id@.len() == 0,
        },
{
    if login.user_id.as_str().is_empty() {
        return None;
    }
    let user_id = if enabled {
        copy(login.user_id.as_str())
    } else {
        String::new()
    };
    let mut e: Vec<(String, Json)> = Vec::new();
    put(&mut e, "user_id", Json::str(user_id.as_str()));
    assert(entries(e@) =~= seq![("user_id"@, JsonV::Str(user_id@))]);
    Some(Json::object(e))
}

/// What was banked by the cache, and what was spent.
#[derive(Debug, PartialEq)]
pub struct Usage {
    pub turns: String,
    pub hit_rate: String,
    pub banked: String,
    pub saved: String,
    pub spent: String,
    pub detail: String,
    pub model: String,
}

/// The model of a [`Usage`].
pub struct UsageV {
    pub turns: Seq<char>,
    pub hit_rate: Seq<char>,
    pub banked: Seq<char>,
    pub saved: Seq<char>,
    pub spent: Seq<char>,
    pub detail: Seq<char>,
    pub model: Seq<char>,
}

impl View for Usage {
    type V = UsageV;

    open spec fn view(&self) -> UsageV {
        UsageV {
            turns: self.turns@,
            hit_rate: self.hit_rate@,
            banked: self.banked@,
            saved: self.saved@,
            spent: self.spent@,
            detail: self.detail@,
            model: self.model@,
        }
    }
}

/// The count `key` of the field `tokens`, as a signed number: a count beyond the largest
/// of those turns negative.
pub open spec fn counted(r: JsonV, key: Seq<char>) -> i64 {
    match crate::json::field(r, "tokens"@) {
        Some(t) => uint_or(t, key, 0) as i64,
        None => 0,
    }
}

fn count(r: &Json, key: &str) -> (n: i64)
    ensures
        n == counted(r@, key@),
{
    match r.get("tokens") {
        Some(t) => {
            let v = t.u64_or(key, 0);
            #[verifier::truncate]
            (v as i64)
        },
        None => 0,
    }
}

/// The readout of a reply; empty before the first turn. The amounts and the rate are
/// handed in as they are shown.
pub open spec fn usage_v(r: JsonV, hit: Seq<char>, saved: Seq<char>, spent: Seq<char>) -> UsageV {
    let turns = uint_or(r, "turns"@, 0);
    if turns == 0 {
        UsageV {
            turns: Seq::empty(),
            hit_rate: Seq::empty(),
            banked: Seq::empty(),
            saved: Seq::empty(),
            spent: Seq::empty(),
            detail: Seq::empty(),
            model: Seq::empty(),
        }
    } else {
        UsageV {
            turns: dec(turns as nat),
            hit_rate: hit,
            banked: tokens_v(int_or(r, "banked_tokens"@, 0) as int),
            saved,
            spent,
            detail: tokens_v(counted(r, "cache_read"@) as int) + " cached · "@ + tokens_v(
                counted(r, "input"@) as int,
            ) + " fresh · "@ + tokens_v(counted(r, "output"@) as int) + " out"@,
            model: str_v(r, "model"@),
        }
    }
}

/// The readout of a reply; empty before the first turn. The amounts and the rate are
/// handed in as they are shown.
pub fn build_usage(r: &Json, hit: &str, saved: &str, spent: &str) -> (u: Usage)
    ensures
        u@ == usage_v(r@, hit@, saved@, spent@),
{
    let turns = r.u64_or("turns", 0);
    if turns == 0 {
        return Usage {
            turns: String::new(),
            hit_rate: String::new(),
            banked: String::new(),
            saved: String::new(),
            spent: String::new(),
            detail: String::new(),
            model: String::new(),
        };
    }
    let mut detail = cat(humanize_tokens(count(r, "cache_read")).as_str(), " cached · ");
    detail.append(humanize_tokens(count(r, "input")).as_str());
    detail.append(" fresh · ");
    detail.append(humanize_tokens(count(r, "output")).as_str());
    detail.append(" out");
    Usage {
        turns: dec_u64(turns),
        hit_rate: copy(hit),
        banked: humanize_tokens(r.i64_or("banked_tokens", 0)),
        saved: copy(saved),
        spent: copy(spent),
        detail,
        model: json_str(r, "model"),
    }
}

/// What the inference view shows beside the usage.
pub fn inference_of(backend: &Json, models: &Json) -> (r: (String, String, Vec<ModelItem>))
    ensures
        r.0@ == text_or(backend@, "backend"@, "—"@),
        r.1@ == str_v(backend@, "oai_base_url"@),
        views(r.2@) == model_rows_v(
            items_or_none(models@, "models"@),
            items_or_none(models@, "models"@).len() as int,
        ),
{
    (backend.str_or("backend", "—"), json_str(backend, "oai_base_url"), model_rows(models))
}

// ── Changes ─────────────────────────────────────────────────────────────────

/// A setting that the human changes.
#[derive(Debug)]
pub enum Change {
    Soul(String),
    Policy(String),
    Model(String),
    Backend(String),
    Endpoint { url: String, kind: String },
    Key(String),
    Cache { enabled: bool, conversation: bool, ttl: String },
    /// The budget of the history, by its label.
    History(String),
    Sensors(String),
    Voice(String),
}

/// The model of a [`Change`].
pub enum ChangeV {
    Soul(Seq<char>),
    Policy(Seq<char>),
    Model(Seq<char>),
    Backend(Seq<char>),
    Endpoint { url: Seq<char>, kind: Seq<char> },
    Key(Seq<char>),
    Cache { enabled: bool, conversation: bool, ttl: Seq<char> },
    History(Seq<char>),
    Sensors(Seq<char>),
    Voice(Seq<char>),
}

impl View for Change {
    type V = ChangeV;

    open spec fn view(&self) -> ChangeV {
        match self {
            Change::Soul(s) => ChangeV::Soul(s@),
            Change::Policy(s) => ChangeV::Policy(s@),
            Change::Model(s) => ChangeV::Model(s@),
            Change::Backend(s) => ChangeV::Backend(s@),
            Change::Endpoint { url, kind } => ChangeV::Endpoint { url: url@, kind: kind@ },
            Change::Key(s) => ChangeV::Key(s@),
            Change::Cache { enabled, conversation, ttl } => ChangeV::Cache {
                enabled: *enabled,
                conversation: *conversation,
                ttl: ttl@,
            },
            Change::History(s) => ChangeV::History(s@),
            Change::Sensors(s) => ChangeV::Sensors(s@),
            Change::Voice(s) => ChangeV::Voice(s@),
        }
    }
}

/// Where a change is sent.
pub open spec fn change_path_v(c: ChangeV) -> Seq<char> {
    match c {
        ChangeV::Soul(_) => "/api/soul"@,
        ChangeV::Policy(_) => "/api/policy"@,
        ChangeV::Model(_) => "/api/model"@,
        ChangeV::Backend(_) => "/api/backend"@,
        ChangeV::Endpoint { .. } => "/api/backend"@,
        ChangeV::Key(_) => "/api/keys"@,
        ChangeV::Cache { .. } => "/api/cache"@,
        ChangeV::History(_) => "/api/history"@,
        ChangeV::Sensors(_) => "/api/sensors/config"@,
        ChangeV::Voice(_) => "/api/voice"@,
    }
}

/// What is sent for a change; nothing for a budget that the settings do not offer.
pub open spec fn change_body_v(c: ChangeV) -> Option<JsonV> {
    match c {
        ChangeV::Soul(s) => Some(JsonV::Obj(seq![("content"@, JsonV::Str(s))])),
        ChangeV::Policy(s) => Some(JsonV::Obj(seq![("mode"@, JsonV::Str(s))])),
        ChangeV::Model(s) => Some(JsonV::Obj(seq![("model"@, JsonV::Str(s))])),
        ChangeV::Backend(s) => Some(JsonV::Obj(seq![("backend"@, JsonV::Str(s))])),
        ChangeV::Endpoint { url, kind } => Some(
            JsonV::Obj(seq![("backend"@, JsonV::Str(kind)), ("oai_base_url"@, JsonV::Str(url))]),
        ),
        ChangeV::Key(s) => Some(JsonV::Obj(seq![("oai"@, JsonV::Str(s))])),
        ChangeV::Cache { enabled, conversation, ttl } => Some(
            JsonV::Obj(
                seq![
                    ("enabled"@, JsonV::Bool(enabled)),
                    ("cache_conversation"@, JsonV::Bool(conversation)),
                    ("ttl"@, JsonV::Str(ttl)),
                ],
            ),
        ),
        ChangeV::History(label) => match label_tokens_v(label) {
            Some(n) => Some(JsonV::Obj(seq![("budget"@, uint_json(n))])),
            None => None,
        },
        ChangeV::Sensors(s) => Some(JsonV::Obj(seq![("profile"@, JsonV::Str(s))])),
        ChangeV::Voice(s) => Some(
            JsonV::Obj(seq![("voice_backend"@, JsonV::Str(s)), ("stt_backend"@, JsonV::Str(s))]),
        ),
    }
}

/// The notice once a change was sent, with success or without.
pub open spec fn change_notice_v(c: ChangeV, ok: bool) -> EffectV {
    if ok {
        match c {
            ChangeV::Soul(_) => notice_v(ToastKind::Success, "Soul saved"@),
            ChangeV::Policy(_) => notice_v(ToastKind::Info, "Policy updated"@),
            ChangeV::Model(_) => notice_v(ToastKind::Info, "Model switched"@),
            ChangeV::Backend(_) => notice_v(ToastKind::Info, "Backend switched"@),
            ChangeV::Endpoint { .. } => notice_v(ToastKind::Info, "Endpoint adopted"@),
            ChangeV::Key(_) => notice_v(ToastKind::Success, "API key saved"@),
            ChangeV::Cache { .. } => notice_v(ToastKind::Info, "Cache settings updated"@),
            ChangeV::History(_) => notice_v(ToastKind::Info, "History window budget updated"@),
            ChangeV::Sensors(_) => notice_v(ToastKind::Info, "Sensor profile updated"@),
            ChangeV::Voice(_) => notice_v(ToastKind::Info, "Voice backend updated"@),
        }
    } else {
        notice_v(
            ToastKind::Error,
            match c {
                ChangeV::Soul(_) => "Failed to save soul"@,
                ChangeV::Policy(_) => "Failed to update policy"@,
                ChangeV::Model(_) => "Failed to switch model"@,
                ChangeV::Backend(_) => "Failed to switch backend"@,
                ChangeV::Endpoint { .. } => "Failed to set endpoint"@,
                ChangeV::Key(_) => "Failed to save key"@,
                ChangeV::Cache { .. } => "Failed to update cache settings"@,
                ChangeV::History(_) => "Failed to update history budget"@,
                ChangeV::Sensors(_) => "Failed to update sensor profile"@,
                ChangeV::Voice(_) => "Failed to update voice backend"@,
            },
        )
    }
}

/// The settings with a change shown before the daemon has it. A backend's address, its
/// key and the soul are not shown ahead.
pub open spec fn change_shown_v(d: SettingsDataV, c: ChangeV) -> SettingsDataV {
    match c {
        ChangeV::Policy(s) => SettingsDataV { policy_mode: s, ..d },
        ChangeV::Model(s) => SettingsDataV { current_model: s, ..d },
        ChangeV::Backend(s) => SettingsDataV { backend: s, ..d },
        ChangeV::Cache { enabled, conversation, ttl } => SettingsDataV {
            cache_enabled: enabled,
            cache_conversation: conversation,
            cache_ttl: ttl,
            ..d
        },
        ChangeV::History(label) => if label_tokens_v(label) is Some {
            SettingsDataV { history_budget_label: label, ..d }
        } else {
            d
        },
        ChangeV::Sensors(s) => SettingsDataV { sensor_profile: s, ..d },
        ChangeV::Voice(s) => SettingsDataV { voice_backend: s, ..d },
        _ => d,
    }
}

impl Change {
    /// Where the change is sent.
    pub fn path(&self) -> (r: &'static str)
        ensures
            r@ == change_path_v(self@),
    {
        match self {
            Change::Soul(_) => "/api/soul",
            Change::Policy(_) => "/api/policy",
            Change::Model(_) => "/api/model",
            Change::Backend(_) => "/api/backend",
            Change::Endpoint { .. } => "/api/backend",
            Change::Key(_) => "/api/keys",
            Change::Cache { .. } => "/api/cache",
            Change::History(_) => "/api/history",
            Change::Sensors(_) => "/api/sensors/config",
            Change::Voice(_) => "/api/voice",
        }
    }

    /// What is sent for the change; nothing for a budget that the settings do not offer.
    pub fn body(&self) -> (r: Option<Json>)
        ensures
            match r {
                Some(j) => change_body_v(self@) == Some(j@),
                None => change_body_v(self@) is None,
            },
    {
        let mut e: Vec<(String, Json)> = Vec::new();
        match self {
            Change::Soul(s) => put(&mut e, "content", Json::str(s.as_str())),
            Change::Policy(s) => put(&mut e, "mode", Json::str(s.as_str())),
            Change::Model(s) => put(&mut e, "model", Json::str(s.as_str())),
            Change::Backend(s) => put(&mut e, "backend", Json::str(s.as_str())),
            Change::Endpoint { url, kind } => {
                put(&mut e, "backend", Json::str(kind.as_str()));
                put(&mut e, "oai_base_url", Json::str(url.as_str()));
            },
            Change::Key(s) => put(&mut e, "oai", Json::str(s.as_str())),
            Change::Cache { enabled, conversation, ttl } => {
                put(&mut e, "enabled", Json::Bool(*enabled));
                put(&mut e, "cache_conversation", Json::Bool(*conversation));
                put(&mut e, "ttl", Json::str(ttl.as_str()));
            },
            Change::History(label) => match history_label_tokens(label.as_str()) {
                Some(n) => put(&mut e, "budget", Json::uint(n)),
                None => {
                    return None;
                },
            },
            Change::Sensors(s) => put(&mut e, "profile", Json::str(s.as_str())),
            Change::Voice(s) => {
                put(&mut e, "voice_backend", Json::str(s.as_str()));
                put(&mut e, "stt_backend", Json::str(s.as_str()));
            },
        }
        assert(entries(e@) =~= change_body_v(self@)->0->Obj_0);
        Some(Json::object(e))
    }

    /// The notice once the change was sent, with success or without.
    pub fn report(&self, ok: bool) -> (r: Effect)
        ensures
            r@ == change_notice_v(self@, ok),
    {
        if ok {
            match self {
                Change::Soul(_) => notice(ToastKind::Success, copy("Soul saved")),
                Change::Policy(_) => notice(ToastKind::Info, copy("Policy updated")),
                Change::Model(_) => notice(ToastKind::Info, copy("Model switched")),
                Change::Backend(_) => notice(ToastKind::Info, copy("Backend switched")),
                Change::Endpoint { .. } => notice(ToastKind::Info, copy("Endpoint adopted")),
                Change::Key(_) => notice(ToastKind::Success, copy("API key saved")),
                Change::Cache { .. } => notice(ToastKind::Info, copy("Cache settings updated")),
                Change::History(_) => notice(
                    ToastKind::Info,
                    copy("History window budget updated"),
                ),
                Change::Sensors(_) => notice(ToastKind::Info, copy("Sensor profile updated")),
                Change::Voice(_) => notice(ToastKind::Info, copy("Voice backend updated")),
            }
        } else {
            let what = match self {
                Change::Soul(_) => "Failed to save soul",
                Change::Policy(_) => "Failed to update policy",
                Change::Model(_) => "Failed to switch model",
                Change::Backend(_) => "Failed to switch backend",
                Change::Endpoint { .. } => "Failed to set endpoint",
                Change::Key(_) => "Failed to save key",
                Change::Cache { .. } => "Failed to update cache settings",
                Change::History(_) => "Failed to update history budget",
                Change::Sensors(_) => "Failed to update sensor profile",
                Change::Voice(_) => "Failed to update voice backend",
            };
            notice(ToastKind::Error, copy(what))
        }
    }
}

impl SettingsData {
    /// Shows a change before the daemon has it.
    pub fn show(&mut self, c: &Change)
        ensures
            final(self)@ == change_shown_v(old(self)@, c@),
    {
        match c {
            Change::Policy(s) => {
                self.policy_mode = copy(s.as_str());
            },
            Change::Model(s) => {
                self.current_model = copy(s.as_str());
            },
            Change::Backend(s) => {
                self.backend = copy(s.as_str());
            },
            Change::Cache { enabled, conversation, ttl } => {
                self.cache_enabled = *enabled;
                self.cache_conversation = *conversation;
                self.cache_ttl = copy(ttl.as_str());
            },
            Change::History(label) => {
                if history_label_tokens(label.as_str()).is_some() {
                    self.history_budget_label = copy(label.as_str());
                }
            },
            Change::Sensors(s) => {
                self.sensor_profile = copy(s.as_str());
            },
            Change::Voice(s) => {
                self.voice_backend = copy(s.as_str());
            },
            _ => {},
        }
    }

    /// A change was sent. A key that was taken is there from now on.
    pub fn sent(&mut self, c: &Change, ok: bool)
        ensures
            final(self)@ == (if ok && c@ is Key {
                SettingsDataV { oai_key_set: true, ..old(self)@ }
            } else {
                old(self)@
            }),
    {
        match c {
            Change::Key(_) => {
                if ok {
                    self.oai_key_set = true;
                }
            },
            _ => {},
        }
    }
}

// ── Compute on the network ──────────────────────────────────────────────────

/// A place on the network that runs models.
#[derive(Debug, PartialEq)]
pub struct EndpointItem {
    pub url: String,
    pub kind: String,
    pub host: String,
    pub model_count: i32,
}

/// The model of an [`EndpointItem`].
pub struct EndpointItemV {
    pub url: Seq<char>,
    pub kind: Seq<char>,
    pub host: Seq<char>,
    pub model_count: i32,
}

impl View for EndpointItem {
    type V = EndpointItemV;

    open spec fn view(&self) -> EndpointItemV {
        EndpointItemV {
            url: self.url@,
            kind: self.kind@,
            host: self.host@,
            model_count: self.model_count,
        }
    }
}

/// A place, from its body.
pub open spec fn endpoint_row_v(j: JsonV) -> EndpointItemV {
    EndpointItemV {
        url: str_v(j, "url"@),
        kind: str_v(j, "kind"@),
        host: str_v(j, "host"@),
        model_count: items_or_none(j, "models"@).len() as usize as i32,
    }
}

fn endpoint_row(j: &Json) -> (r: EndpointItem)
    ensures
        r@ == endpoint_row_v(j@),
{
    let models = j.items_at("models");
    let n: usize = models.len();
    assert(n == items_or_none(j@, "models"@).len());
    EndpointItem {
        url: json_str(j, "url"),
        kind: json_str(j, "kind"),
        host: json_str(j, "host"),
        model_count: #[verifier::truncate]
        (n as i32),
    }
}

/// The rows of the first `n` places.
pub open spec fn endpoint_rows_v(a: Seq<JsonV>, n: int) -> Seq<EndpointItemV>
    decreases n,
{
    if n <= 0 {
        Seq::empty()
    } else {
        endpoint_rows_v(a, n - 1).push(endpoint_row_v(a[n - 1]))
    }
}

/// The places of a reply.
pub fn endpoint_rows(body: &Json) -> (r: Vec<EndpointItem>)
    ensures
        views(r@) == endpoint_rows_v(
            items_or_none(body@, "endpoints"@),
            items_or_none(body@, "endpoints"@).len() as int,
        ),
{
    let arr = body.items_at("endpoints");
    let ghost a = views(arr@);
    let mut out: Vec<EndpointItem> = Vec::new();
    for i in 0..arr.len()
        invariant
            a == views(arr@),
            views(out@) == endpoint_rows_v(a, i as int),
    {
        assert(a[i as int] == arr@[i as int]@);
        out.push(endpoint_row(&arr[i]));
    }
    assert(a.len() == arr@.len());
    out
}

/// The notice once the network was searched.
pub fn scan_notice(n: usize) -> (r: Effect)
    ensures
        r@ == if n == 0 {
            notice_v(ToastKind::Info, "No LAN compute found"@)
        } else if n == 1 {
            notice_v(ToastKind::Success, "1 endpoint found"@)
        } else {
            notice_v(ToastKind::Success, dec(n as nat) + " endpoints found"@)
        },
{
    if n == 0 {
        notice(ToastKind::Info, copy("No LAN compute found"))
    } else if n == 1 {
        notice(ToastKind::Success, copy("1 endpoint found"))
    } else {
        notice(ToastKind::Success, cat(dec_len(n).as_str(), " endpoints found"))
    }
}

// ── Laws ────────────────────────────────────────────────────────────────────

proof fn dec_of_two(n: nat)
    requires
        10 <= n < 100,
    ensures
        dec(n) == seq![crate::text::digit(n / 10), crate::text::digit(n % 10)],
{
    reveal_with_fuel(dec, 3);
    assert(dec(n) =~= seq![crate::text::digit(n / 10), crate::text::digit(n % 10)]);
}

proof fn dec_of_three(n: nat)
    requires
        100 <= n < 1000,
    ensures
        dec(n) == seq![
            crate::text::digit(n / 100),
            crate::text::digit((n / 10) % 10),
            crate::text::digit(n % 10),
        ],
{
    reveal_with_fuel(dec, 4);
    assert(dec(n) =~= seq![
        crate::text::digit(n / 100),
        crate::text::digit((n / 10) % 10),
        crate::text::digit(n % 10),
    ]);
}

/// The labels of the budgets that the settings offer.
proof fn offered_labels()
    ensures
        budget_label_v(60_000) == "60k"@,
        budget_label_v(120_000) == "120k"@,
        budget_label_v(200_000) == "200k"@,
        budget_label_v(400_000) == "400k"@,
{
    reveal_strlit("k");
    reveal_strlit("60k");
    reveal_strlit("120k");
    reveal_strlit("200k");
    reveal_strlit("400k");
    dec_of_two(60);
    dec_of_three(120);
    dec_of_three(200);
    dec_of_three(400);
    assert(budget_label_v(60_000) =~= "60k"@);
    assert(budget_label_v(120_000) =~= "120k"@);
    assert(budget_label_v(200_000) =~= "200k"@);
    assert(budget_label_v(400_000) =~= "400k"@);
}

proof fn labels_differ()
    ensures
        "off"@ != "60k"@,
        "off"@ != "120k"@,
        "off"@ != "200k"@,
        "off"@ != "400k"@,
        "60k"@ != "120k"@,
        "60k"@ != "200k"@,
        "60k"@ != "400k"@,
        "120k"@ != "200k"@,
        "120k"@ != "400k"@,
        "200k"@ != "400k"@,
{
    reveal_strlit("off");
    reveal_strlit("60k");
    reveal_strlit("120k");
    reveal_strlit("200k");
    reveal_strlit("400k");
    assert("off"@[0] == 'o');
    assert("60k"@[0] == '6');
    assert("120k"@[0] == '1');
    assert("200k"@[0] == '2');
    assert("400k"@[0] == '4');
}

/// A label leads back to the budget that it stands for, for every budget that the
/// settings offer.
pub proof fn labels_lead_back(budget: u64)
    requires
        offered(budget),
    ensures
        label_tokens_v(budget_label_v(budget)) == Some(budget),
{
    offered_labels();
    labels_differ();
}

/// A label that the settings take stands for a budget that they offer, and is that
/// budget's label.
pub proof fn tokens_lead_back(label: Seq<char>)
    requires
        label_tokens_v(label) is Some,
    ensures
        offered(label_tokens_v(label)->0),
        budget_label_v(label_tokens_v(label)->0) == label,
{
    offered_labels();
}

/// What is shown of a catalogue is never more than the cap.
pub proof fn shown_within_cap(all: Seq<ModelItemV>, f: Seq<char>, n: int)
    requires
        0 <= n <= all.len(),
    ensures
        narrowed(all, f, n).len() <= MODELS_VIEW_CAP,
    decreases n,
{
    if n > 0 {
        shown_within_cap(all, f, n - 1);
    }
}

/// Everything that is shown matches what is looked for, and stands in the catalogue.
pub proof fn shown_matches(all: Seq<ModelItemV>, f: Seq<char>, n: int, i: int)
    requires
        0 <= n <= all.len(),
        0 <= i < narrowed(all, f, n).len(),
    ensures
        matches_v(narrowed(all, f, n)[i], f),
        all.contains(narrowed(all, f, n)[i]),
    decreases n,
{
    if n > 0 {
        if i < narrowed(all, f, n - 1).len() {
            shown_matches(all, f, n - 1, i);
        } else {
            assert(narrowed(all, f, n)[i] == all[n - 1]);
        }
    }
}

/// Looking for nothing shows the head of the catalogue, as a new catalogue does.
pub proof fn no_filter_shows_the_head(all: Seq<ModelItemV>, n: int)
    requires
        0 <= n <= all.len(),
    ensures
        narrowed(all, Seq::empty(), n) == if n <= MODELS_VIEW_CAP {
            all.take(n)
        } else {
            all.take(MODELS_VIEW_CAP as int)
        },
    decreases n,
{
    if n > 0 {
        no_filter_shows_the_head(all, n - 1);
        assert(all.take(n - 1).push(all[n - 1]) =~= all.take(n));
    } else {
        assert(all.take(0) =~= Seq::empty());
    }
}

} // verus!

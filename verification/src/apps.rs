//! The apps of the shell: their ordinals, names, and the sizes they open in.
use vstd::prelude::*;
use crate::text::{same, trim, trimmed, trimmed_of_trimmed, trimmed_when_tight};

verus! {

/// An app that can have a window. The order of the variants is the order of
/// [`APP_TABLE`].
#[derive(Clone, Copy, Debug, PartialEq, Eq, Structural)]
pub enum AppKind {
    Chat,
    System,
    Sensor,
    Sessions,
    Settings,
    Terminal,
    Council,
    EventLog,
    Mesh,
    Inference,
    AudioEditor,
    Sonus,
    Notes,
    Face,
    Sketchpad,
    Web,
    Calculator,
    Explorer,
    Occipital,
    Board,
    Imagine,
    Mandala,
}

/// How many apps there are.
pub const APP_COUNT: usize = 22;

/// The apps with the names by which the agent calls them. An app's place here is
/// its ordinal.
pub const APP_TABLE: [(AppKind, &'static str); 22] = [
    (AppKind::Chat, "chat"),
    (AppKind::System, "system"),
    (AppKind::Sensor, "sensor"),
    (AppKind::Sessions, "sessions"),
    (AppKind::Settings, "settings"),
    (AppKind::Terminal, "terminal"),
    (AppKind::Council, "council"),
    (AppKind::EventLog, "event-log"),
    (AppKind::Mesh, "mesh"),
    (AppKind::Inference, "inference"),
    (AppKind::AudioEditor, "audio-editor"),
    (AppKind::Sonus, "sonus"),
    (AppKind::Notes, "notes"),
    (AppKind::Face, "face"),
    (AppKind::Sketchpad, "sketchpad"),
    (AppKind::Web, "web"),
    (AppKind::Calculator, "calculator"),
    (AppKind::Explorer, "explorer"),
    (AppKind::Occipital, "occipital"),
    (AppKind::Board, "board"),
    (AppKind::Imagine, "imagine"),
    (AppKind::Mandala, "mandala"),
];

/// An app's ordinal.
pub open spec fn ordinal(k: AppKind) -> int {
    match k {
        AppKind::Chat => 0,
        AppKind::System => 1,
        AppKind::Sensor => 2,
        AppKind::Sessions => 3,
        AppKind::Settings => 4,
        AppKind::Terminal => 5,
        AppKind::Council => 6,
        AppKind::EventLog => 7,
        AppKind::Mesh => 8,
        AppKind::Inference => 9,
        AppKind::AudioEditor => 10,
        AppKind::Sonus => 11,
        AppKind::Notes => 12,
        AppKind::Face => 13,
        AppKind::Sketchpad => 14,
        AppKind::Web => 15,
        AppKind::Calculator => 16,
        AppKind::Explorer => 17,
        AppKind::Occipital => 18,
        AppKind::Board => 19,
        AppKind::Imagine => 20,
        AppKind::Mandala => 21,
    }
}

/// An app's name in the agent's words.
pub open spec fn slug(k: AppKind) -> Seq<char> {
    match k {
        AppKind::Chat => "chat"@,
        AppKind::System => "system"@,
        AppKind::Sensor => "sensor"@,
        AppKind::Sessions => "sessions"@,
        AppKind::Settings => "settings"@,
        AppKind::Terminal => "terminal"@,
        AppKind::Council => "council"@,
        AppKind::EventLog => "event-log"@,
        AppKind::Mesh => "mesh"@,
        AppKind::Inference => "inference"@,
        AppKind::AudioEditor => "audio-editor"@,
        AppKind::Sonus => "sonus"@,
        AppKind::Notes => "notes"@,
        AppKind::Face => "face"@,
        AppKind::Sketchpad => "sketchpad"@,
        AppKind::Web => "web"@,
        AppKind::Calculator => "calculator"@,
        AppKind::Explorer => "explorer"@,
        AppKind::Occipital => "occipital"@,
        AppKind::Board => "board"@,
        AppKind::Imagine => "imagine"@,
        AppKind::Mandala => "mandala"@,
    }
}

/// An app's name on its window.
pub open spec fn title(k: AppKind) -> Seq<char> {
    match k {
        AppKind::Chat => "Chat"@,
        AppKind::System => "System"@,
        AppKind::Sensor => "Sensors"@,
        AppKind::Sessions => "Sessions"@,
        AppKind::Settings => "Settings"@,
        AppKind::Terminal => "Terminal"@,
        AppKind::Council => "Council"@,
        AppKind::EventLog => "Event Log"@,
        AppKind::Mesh => "Mesh"@,
        AppKind::Inference => "Inference"@,
        AppKind::AudioEditor => "Audio Editor"@,
        AppKind::Sonus => "Sonus"@,
        AppKind::Notes => "Notes"@,
        AppKind::Face => "APEX"@,
        AppKind::Sketchpad => "Sketchpad"@,
        AppKind::Web => "Web"@,
        AppKind::Calculator => "Calculator"@,
        AppKind::Explorer => "Files"@,
        AppKind::Occipital => "Occipital"@,
        AppKind::Board => "Work Board"@,
        AppKind::Imagine => "Imagine"@,
        AppKind::Mandala => "Mandalas"@,
    }
}

/// The width and height in which an app's window first opens.
pub open spec fn opening_size(k: AppKind) -> (i32, i32) {
    match k {
        AppKind::Chat => (760, 540),
        AppKind::System => (440, 460),
        AppKind::Sensor => (560, 480),
        AppKind::Sessions => (500, 520),
        AppKind::Settings => (660, 560),
        AppKind::Terminal => (640, 420),
        AppKind::Council => (560, 560),
        AppKind::EventLog => (560, 520),
        AppKind::Mesh => (520, 460),
        AppKind::Inference => (520, 520),
        AppKind::AudioEditor => (660, 600),
        AppKind::Sonus => (480, 540),
        AppKind::Notes => (640, 540),
        AppKind::Face => (380, 460),
        AppKind::Sketchpad => (600, 580),
        AppKind::Web => (460, 400),
        AppKind::Calculator => (300, 440),
        AppKind::Explorer => (680, 520),
        AppKind::Occipital => (720, 620),
        AppKind::Board => (1040, 600),
        AppKind::Imagine => (900, 640),
        AppKind::Mandala => (640, 620),
    }
}

/// The app with an ordinal; the chat for any other number.
pub open spec fn app_at(o: i32) -> AppKind {
    match o {
        1 => AppKind::System,
        2 => AppKind::Sensor,
        3 => AppKind::Sessions,
        4 => AppKind::Settings,
        5 => AppKind::Terminal,
        6 => AppKind::Council,
        7 => AppKind::EventLog,
        8 => AppKind::Mesh,
        9 => AppKind::Inference,
        10 => AppKind::AudioEditor,
        11 => AppKind::Sonus,
        12 => AppKind::Notes,
        13 => AppKind::Face,
        14 => AppKind::Sketchpad,
        15 => AppKind::Web,
        16 => AppKind::Calculator,
        17 => AppKind::Explorer,
        18 => AppKind::Occipital,
        19 => AppKind::Board,
        20 => AppKind::Imagine,
        21 => AppKind::Mandala,
        _ => AppKind::Chat,
    }
}

/// The app with an ordinal; the chat for any other number.
pub fn kind_from_ordinal(o: i32) -> (r: AppKind)
    ensures
        r == app_at(o),
{
    match o {
        1 => AppKind::System,
        2 => AppKind::Sensor,
        3 => AppKind::Sessions,
        4 => AppKind::Settings,
        5 => AppKind::Terminal,
        6 => AppKind::Council,
        7 => AppKind::EventLog,
        8 => AppKind::Mesh,
        9 => AppKind::Inference,
        10 => AppKind::AudioEditor,
        11 => AppKind::Sonus,
        12 => AppKind::Notes,
        13 => AppKind::Face,
        14 => AppKind::Sketchpad,
        15 => AppKind::Web,
        16 => AppKind::Calculator,
        17 => AppKind::Explorer,
        18 => AppKind::Occipital,
        19 => AppKind::Board,
        20 => AppKind::Imagine,
        21 => AppKind::Mandala,
        _ => AppKind::Chat,
    }
}

/// An app's ordinal.
pub fn kind_ordinal(k: AppKind) -> (r: i32)
    ensures
        r == ordinal(k),
        0 <= r < APP_COUNT,
{
    match k {
        AppKind::Chat => 0,
        AppKind::System => 1,
        AppKind::Sensor => 2,
        AppKind::Sessions => 3,
        AppKind::Settings => 4,
        AppKind::Terminal => 5,
        AppKind::Council => 6,
        AppKind::EventLog => 7,
        AppKind::Mesh => 8,
        AppKind::Inference => 9,
        AppKind::AudioEditor => 10,
        AppKind::Sonus => 11,
        AppKind::Notes => 12,
        AppKind::Face => 13,
        AppKind::Sketchpad => 14,
        AppKind::Web => 15,
        AppKind::Calculator => 16,
        AppKind::Explorer => 17,
        AppKind::Occipital => 18,
        AppKind::Board => 19,
        AppKind::Imagine => 20,
        AppKind::Mandala => 21,
    }
}

/// An app's name in the agent's words.
pub fn kind_slug(k: AppKind) -> (r: &'static str)
    ensures
        r@ == slug(k),
{
    match k {
        AppKind::Chat => "chat",
        AppKind::System => "system",
        AppKind::Sensor => "sensor",
        AppKind::Sessions => "sessions",
        AppKind::Settings => "settings",
        AppKind::Terminal => "terminal",
        AppKind::Council => "council",
        AppKind::EventLog => "event-log",
        AppKind::Mesh => "mesh",
        AppKind::Inference => "inference",
        AppKind::AudioEditor => "audio-editor",
        AppKind::Sonus => "sonus",
        AppKind::Notes => "notes",
        AppKind::Face => "face",
        AppKind::Sketchpad => "sketchpad",
        AppKind::Web => "web",
        AppKind::Calculator => "calculator",
        AppKind::Explorer => "explorer",
        AppKind::Occipital => "occipital",
        AppKind::Board => "board",
        AppKind::Imagine => "imagine",
        AppKind::Mandala => "mandala",
    }
}

/// An app's name on its window.
pub fn kind_title(k: AppKind) -> (r: &'static str)
    ensures
        r@ == title(k),
{
    match k {
        AppKind::Chat => "Chat",
        AppKind::System => "System",
        AppKind::Sensor => "Sensors",
        AppKind::Sessions => "Sessions",
        AppKind::Settings => "Settings",
        AppKind::Terminal => "Terminal",
        AppKind::Council => "Council",
        AppKind::EventLog => "Event Log",
        AppKind::Mesh => "Mesh",
        AppKind::Inference => "Inference",
        AppKind::AudioEditor => "Audio Editor",
        AppKind::Sonus => "Sonus",
        AppKind::Notes => "Notes",
        AppKind::Face => "APEX",
        AppKind::Sketchpad => "Sketchpad",
        AppKind::Web => "Web",
        AppKind::Calculator => "Calculator",
        AppKind::Explorer => "Files",
        AppKind::Occipital => "Occipital",
        AppKind::Board => "Work Board",
        AppKind::Imagine => "Imagine",
        AppKind::Mandala => "Mandalas",
    }
}

/// The app that goes by a name, white space around it aside.
pub open spec fn app_named(s: Seq<char>) -> Option<AppKind> {
    let t = trimmed(s);
    if t == "chat"@ {
        Some(AppKind::Chat)
    } else if t == "system"@ {
        Some(AppKind::System)
    } else if t == "sensor"@ {
        Some(AppKind::Sensor)
    } else if t == "sessions"@ {
        Some(AppKind::Sessions)
    } else if t == "settings"@ {
        Some(AppKind::Settings)
    } else if t == "terminal"@ {
        Some(AppKind::Terminal)
    } else if t == "council"@ {
        Some(AppKind::Council)
    } else if t == "event-log"@ {
        Some(AppKind::EventLog)
    } else if t == "mesh"@ {
        Some(AppKind::Mesh)
    } else if t == "inference"@ {
        Some(AppKind::Inference)
    } else if t == "audio-editor"@ {
        Some(AppKind::AudioEditor)
    } else if t == "sonus"@ {
        Some(AppKind::Sonus)
    } else if t == "notes"@ {
        Some(AppKind::Notes)
    } else if t == "face"@ {
        Some(AppKind::Face)
    } else if t == "sketchpad"@ {
        Some(AppKind::Sketchpad)
    } else if t == "web"@ {
        Some(AppKind::Web)
    } else if t == "calculator"@ {
        Some(AppKind::Calculator)
    } else if t == "explorer"@ {
        Some(AppKind::Explorer)
    } else if t == "occipital"@ {
        Some(AppKind::Occipital)
    } else if t == "board"@ {
        Some(AppKind::Board)
    } else if t == "imagine"@ {
        Some(AppKind::Imagine)
    } else if t == "mandala"@ {
        Some(AppKind::Mandala)
    } else {
        None
    }
}

/// The app that goes by a name, white space around it aside.
pub fn kind_from_slug(s: &str) -> (r: Option<AppKind>)
    ensures
        r == app_named(s@),
{
    let t = trim(s);
    if same(t, "chat") {
        Some(AppKind::Chat)
    } else if same(t, "system") {
        Some(AppKind::System)
    } else if same(t, "sensor") {
        Some(AppKind::Sensor)
    } else if same(t, "sessions") {
        Some(AppKind::Sessions)
    } else if same(t, "settings") {
        Some(AppKind::Settings)
    } else if same(t, "terminal") {
        Some(AppKind::Terminal)
    } else if same(t, "council") {
        Some(AppKind::Council)
    } else if same(t, "event-log") {
        Some(AppKind::EventLog)
    } else if same(t, "mesh") {
        Some(AppKind::Mesh)
    } else if same(t, "inference") {
        Some(AppKind::Inference)
    } else if same(t, "audio-editor") {
        Some(AppKind::AudioEditor)
    } else if same(t, "sonus") {
        Some(AppKind::Sonus)
    } else if same(t, "notes") {
        Some(AppKind::Notes)
    } else if same(t, "face") {
        Some(AppKind::Face)
    } else if same(t, "sketchpad") {
        Some(AppKind::Sketchpad)
    } else if same(t, "web") {
        Some(AppKind::Web)
    } else if same(t, "calculator") {
        Some(AppKind::Calculator)
    } else if same(t, "explorer") {
        Some(AppKind::Explorer)
    } else if same(t, "occipital") {
        Some(AppKind::Occipital)
    } else if same(t, "board") {
        Some(AppKind::Board)
    } else if same(t, "imagine") {
        Some(AppKind::Imagine)
    } else if same(t, "mandala") {
        Some(AppKind::Mandala)
    } else {
        None
    }
}

/// Where a window first opens when `n` windows are there, and how large: new
/// windows step down and right, and start over after six.
pub open spec fn opening_rect(k: AppKind, n: nat) -> (i32, i32, i32, i32) {
    let step = (n % 6) * 30;
    (
        (72 + step) as i32,
        (32 + step) as i32,
        opening_size(k).0,
        opening_size(k).1,
    )
}

fn size_of(k: AppKind) -> (r: (i32, i32))
    ensures
        r == opening_size(k),
{
    match k {
        AppKind::Chat => (760, 540),
        AppKind::System => (440, 460),
        AppKind::Sensor => (560, 480),
        AppKind::Sessions => (500, 520),
        AppKind::Settings => (660, 560),
        AppKind::Terminal => (640, 420),
        AppKind::Council => (560, 560),
        AppKind::EventLog => (560, 520),
        AppKind::Mesh => (520, 460),
        AppKind::Inference => (520, 520),
        AppKind::AudioEditor => (660, 600),
        AppKind::Sonus => (480, 540),
        AppKind::Notes => (640, 540),
        AppKind::Face => (380, 460),
        AppKind::Sketchpad => (600, 580),
        AppKind::Web => (460, 400),
        AppKind::Calculator => (300, 440),
        AppKind::Explorer => (680, 520),
        AppKind::Occipital => (720, 620),
        AppKind::Board => (1040, 600),
        AppKind::Imagine => (900, 640),
        AppKind::Mandala => (640, 620),
    }
}

/// Where a window of `kind` first opens when `n` windows are there: left, top, width
/// and height in logical pixels.
pub fn default_geom(kind: AppKind, n: usize) -> (r: (i32, i32, i32, i32))
    ensures
        r == opening_rect(kind, n as nat),
{
    let step: i32 = (n % 6) as i32 * 30;
    let (w, h) = size_of(kind);
    (72 + step, 32 + step, w, h)
}

/// The bit of an app in a mask of apps.
pub open spec fn app_bit(k: AppKind) -> u32 {
    1u32 << (ordinal(k) as u32)
}

/// The bit of an app in a mask of apps.
pub fn ui_latch_bit(k: AppKind) -> (r: u32)
    ensures
        r == app_bit(k),
{
    let o: u32 = kind_ordinal(k) as u32;
    1u32 << o
}

// ── Laws ────────────────────────────────────────────────────────────────────

/// The table lists every app at its ordinal, under its name.
pub proof fn app_table_is_ordered(k: AppKind)
    ensures
        0 <= ordinal(k) < APP_TABLE@.len(),
        APP_TABLE@[ordinal(k)].0 == k,
        APP_TABLE@[ordinal(k)].1@ == slug(k),
{
}

/// An ordinal leads back to its app.
pub proof fn ordinal_round_trip(k: AppKind)
    ensures
        app_at(ordinal(k) as i32) == k,
{
}

/// Two apps never share a bit.
pub proof fn bits_are_distinct(a: AppKind, b: AppKind)
    requires
        a != b,
    ensures
        app_bit(a) & app_bit(b) == 0,
        app_bit(a) != 0,
{
    let x = ordinal(a) as u32;
    let y = ordinal(b) as u32;
    assert(x != y && x < 32 && y < 32 ==> (1u32 << x) & (1u32 << y) == 0 && (1u32 << x) != 0)
        by (bit_vector);
}

/// A name leads back to its app, so no two apps share a name.
pub proof fn slug_round_trip(k: AppKind)
    ensures
        app_named(slug(k)) == Some(k),
{
    reveal_strlit("chat");
    reveal_strlit("system");
    reveal_strlit("sensor");
    reveal_strlit("sessions");
    reveal_strlit("settings");
    reveal_strlit("terminal");
    reveal_strlit("council");
    reveal_strlit("event-log");
    reveal_strlit("mesh");
    reveal_strlit("inference");
    reveal_strlit("audio-editor");
    reveal_strlit("sonus");
    reveal_strlit("notes");
    reveal_strlit("face");
    reveal_strlit("sketchpad");
    reveal_strlit("web");
    reveal_strlit("calculator");
    reveal_strlit("explorer");
    reveal_strlit("occipital");
    reveal_strlit("board");
    reveal_strlit("imagine");
    reveal_strlit("mandala");
    assert("chat"@[0] == 'c' && "chat"@[1] == 'h' && "chat"@[2] == 'a' && "chat"@.last() == 't');
    assert("system"@[0] == 's' && "system"@[1] == 'y' && "system"@[2] == 's' && "system"@.last() == 'm');
    assert("sensor"@[0] == 's' && "sensor"@[1] == 'e' && "sensor"@[2] == 'n' && "sensor"@.last() == 'r');
    assert("sessions"@[0] == 's' && "sessions"@[1] == 'e' && "sessions"@[2] == 's' && "sessions"@.last() == 's');
    assert("settings"@[0] == 's' && "settings"@[1] == 'e' && "settings"@[2] == 't' && "settings"@.last() == 's');
    assert("terminal"@[0] == 't' && "terminal"@[1] == 'e' && "terminal"@[2] == 'r' && "terminal"@.last() == 'l');
    assert("council"@[0] == 'c' && "council"@[1] == 'o' && "council"@[2] == 'u' && "council"@.last() == 'l');
    assert("event-log"@[0] == 'e' && "event-log"@[1] == 'v' && "event-log"@[2] == 'e' && "event-log"@.last() == 'g');
    assert("mesh"@[0] == 'm' && "mesh"@[1] == 'e' && "mesh"@[2] == 's' && "mesh"@.last() == 'h');
    assert("inference"@[0] == 'i' && "inference"@[1] == 'n' && "inference"@[2] == 'f' && "inference"@.last() == 'e');
    assert("audio-editor"@[0] == 'a' && "audio-editor"@[1] == 'u' && "audio-editor"@[2] == 'd' && "audio-editor"@.last() == 'r');
    assert("sonus"@[0] == 's' && "sonus"@[1] == 'o' && "sonus"@[2] == 'n' && "sonus"@.last() == 's');
    assert("notes"@[0] == 'n' && "notes"@[1] == 'o' && "notes"@[2] == 't' && "notes"@.last() == 's');
    assert("face"@[0] == 'f' && "face"@[1] == 'a' && "face"@[2] == 'c' && "face"@.last() == 'e');
    assert("sketchpad"@[0] == 's' && "sketchpad"@[1] == 'k' && "sketchpad"@[2] == 'e' && "sketchpad"@.last() == 'd');
    assert("web"@[0] == 'w' && "web"@[1] == 'e' && "web"@[2] == 'b' && "web"@.last() == 'b');
    assert("calculator"@[0] == 'c' && "calculator"@[1] == 'a' && "calculator"@[2] == 'l' && "calculator"@.last() == 'r');
    assert("explorer"@[0] == 'e' && "explorer"@[1] == 'x' && "explorer"@[2] == 'p' && "explorer"@.last() == 'r');
    assert("occipital"@[0] == 'o' && "occipital"@[1] == 'c' && "occipital"@[2] == 'c' && "occipital"@.last() == 'l');
    assert("board"@[0] == 'b' && "board"@[1] == 'o' && "board"@[2] == 'a' && "board"@.last() == 'd');
    assert("imagine"@[0] == 'i' && "imagine"@[1] == 'm' && "imagine"@[2] == 'a' && "imagine"@.last() == 'e');
    assert("mandala"@[0] == 'm' && "mandala"@[1] == 'a' && "mandala"@[2] == 'n' && "mandala"@.last() == 'a');
    trimmed_when_tight(slug(k));
}

/// What goes by an app's name is that app, and nothing else does.
pub proof fn named_apps_have_their_name(s: Seq<char>, k: AppKind)
    ensures
        app_named(s) == Some(k) <==> trimmed(s) == slug(k),
{
    slug_round_trip(k);
    if trimmed(s) == slug(k) {
        trimmed_of_trimmed(s);
    }
}

} // verus!

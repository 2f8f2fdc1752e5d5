//! Personas: a skin, a voice and a shell mode under one name.
use vstd::prelude::*;
use crate::colour::{persona_rgb, rgb_v, Rgb};
use crate::desktop::ShellMode;
use crate::text::{same, trim, trimmed, trimmed_when_tight, views};

verus! {

broadcast use {crate::text::views_push, crate::text::views_empty};

/// A persona.
#[derive(Clone, Copy, Debug, PartialEq, Eq, Structural)]
pub enum Persona {
    Apex,
    Mom,
    UbuntuDad,
    WindowsDad,
    TechKid,
    Aurum,
}

/// A colour theme.
#[derive(Clone, Copy, Debug, PartialEq, Eq, Structural)]
pub enum Theme {
    ApexOS,
    MacOS,
    Gnome,
    Windows,
    Jarvis,
    Aurum,
}

/// The ordinal of a persona.
pub open spec fn persona_ordinal(p: Persona) -> int {
    match p {
        Persona::Apex => 0,
        Persona::Mom => 1,
        Persona::UbuntuDad => 2,
        Persona::WindowsDad => 3,
        Persona::TechKid => 4,
        Persona::Aurum => 5,
    }
}

/// The persona with an ordinal; Apex for any other number.
pub open spec fn persona_at(o: i32) -> Persona {
    match o {
        1 => Persona::Mom,
        2 => Persona::UbuntuDad,
        3 => Persona::WindowsDad,
        4 => Persona::TechKid,
        5 => Persona::Aurum,
        _ => Persona::Apex,
    }
}

/// The persona with an ordinal; Apex for any other number.
pub fn persona_from_ordinal(o: i32) -> (r: Persona)
    ensures
        r == persona_at(o),
{
    match o {
        1 => Persona::Mom,
        2 => Persona::UbuntuDad,
        3 => Persona::WindowsDad,
        4 => Persona::TechKid,
        5 => Persona::Aurum,
        _ => Persona::Apex,
    }
}

/// A persona's name in files and frames.
pub open spec fn persona_name(p: Persona) -> Seq<char> {
    match p {
        Persona::Apex => "apex"@,
        Persona::Mom => "mom"@,
        Persona::UbuntuDad => "ubuntu-dad"@,
        Persona::WindowsDad => "windows-dad"@,
        Persona::TechKid => "tech-kid"@,
        Persona::Aurum => "aurum"@,
    }
}

/// A persona's name in files and frames.
pub fn persona_slug(p: Persona) -> (r: &'static str)
    ensures
        r@ == persona_name(p),
{
    match p {
        Persona::Apex => "apex",
        Persona::Mom => "mom",
        Persona::UbuntuDad => "ubuntu-dad",
        Persona::WindowsDad => "windows-dad",
        Persona::TechKid => "tech-kid",
        Persona::Aurum => "aurum",
    }
}

/// The persona that goes by a name, white space around it aside.
pub open spec fn persona_named(s: Seq<char>) -> Option<Persona> {
    let t = trimmed(s);
    if t == "apex"@ {
        Some(Persona::Apex)
    } else if t == "mom"@ {
        Some(Persona::Mom)
    } else if t == "ubuntu-dad"@ {
        Some(Persona::UbuntuDad)
    } else if t == "windows-dad"@ {
        Some(Persona::WindowsDad)
    } else if t == "tech-kid"@ {
        Some(Persona::TechKid)
    } else if t == "aurum"@ {
        Some(Persona::Aurum)
    } else {
        None
    }
}

/// The persona that goes by a name, white space around it aside.
pub fn persona_from_slug(s: &str) -> (r: Option<Persona>)
    ensures
        r == persona_named(s@),
{
    let t = trim(s);
    if same(t, "apex") {
        Some(Persona::Apex)
    } else if same(t, "mom") {
        Some(Persona::Mom)
    } else if same(t, "ubuntu-dad") {
        Some(Persona::UbuntuDad)
    } else if same(t, "windows-dad") {
        Some(Persona::WindowsDad)
    } else if same(t, "tech-kid") {
        Some(Persona::TechKid)
    } else if same(t, "aurum") {
        Some(Persona::Aurum)
    } else {
        None
    }
}

/// A persona's theme.
pub open spec fn theme_of(p: Persona) -> Theme {
    match p {
        Persona::Apex => Theme::ApexOS,
        Persona::Mom => Theme::MacOS,
        Persona::UbuntuDad => Theme::Gnome,
        Persona::WindowsDad => Theme::Windows,
        Persona::TechKid => Theme::Jarvis,
        Persona::Aurum => Theme::Aurum,
    }
}

/// A persona's theme.
pub fn persona_theme(p: Persona) -> (r: Theme)
    ensures
        r == theme_of(p),
{
    match p {
        Persona::Apex => Theme::ApexOS,
        Persona::Mom => Theme::MacOS,
        Persona::UbuntuDad => Theme::Gnome,
        Persona::WindowsDad => Theme::Windows,
        Persona::TechKid => Theme::Jarvis,
        Persona::Aurum => Theme::Aurum,
    }
}

/// The shell mode in which a persona starts.
pub open spec fn default_mode(p: Persona) -> ShellMode {
    if p == Persona::TechKid {
        ShellMode::Focus
    } else {
        ShellMode::Desktop
    }
}

/// The shell mode in which a persona starts.
pub fn persona_default_mode(p: Persona) -> (r: ShellMode)
    ensures
        r == default_mode(p),
{
    match p {
        Persona::TechKid => ShellMode::Focus,
        _ => ShellMode::Desktop,
    }
}

/// The shell mode of a persona on a machine: the small renderer always takes Focus.
pub open spec fn mode_on(p: Persona, small_renderer: bool) -> ShellMode {
    if small_renderer {
        ShellMode::Focus
    } else {
        default_mode(p)
    }
}

/// The shell mode of a persona on a machine.
pub fn persona_mode(p: Persona, small_renderer: bool) -> (r: ShellMode)
    ensures
        r == mode_on(p, small_renderer),
{
    if small_renderer {
        ShellMode::Focus
    } else {
        persona_default_mode(p)
    }
}

/// A persona's name on its tile.
pub open spec fn persona_label(p: Persona) -> Seq<char> {
    match p {
        Persona::Apex => "Apex"@,
        Persona::Mom => "Simple"@,
        Persona::UbuntuDad => "Ubuntu"@,
        Persona::WindowsDad => "Classic"@,
        Persona::TechKid => "HUD"@,
        Persona::Aurum => "Aurum"@,
    }
}

/// A persona's name on its tile.
pub fn persona_title(p: Persona) -> (r: &'static str)
    ensures
        r@ == persona_label(p),
{
    match p {
        Persona::Apex => "Apex",
        Persona::Mom => "Simple",
        Persona::UbuntuDad => "Ubuntu",
        Persona::WindowsDad => "Classic",
        Persona::TechKid => "HUD",
        Persona::Aurum => "Aurum",
    }
}

// ── The catalogue ───────────────────────────────────────────────────────────

/// A tile of the persona picker.
#[derive(Debug)]
pub struct PersonaDef {
    pub id: i32,
    pub name: &'static str,
    pub title: &'static str,
    pub tagline: &'static str,
    pub glyph: &'static str,
    pub swatch: Rgb,
    pub swatch_bg: Rgb,
}

/// The model of a [`PersonaDef`].
pub struct PersonaDefV {
    pub id: i32,
    pub name: Seq<char>,
    pub title: Seq<char>,
    pub tagline: Seq<char>,
    pub glyph: Seq<char>,
    pub swatch: Rgb,
    pub swatch_bg: Rgb,
}

impl View for PersonaDef {
    type V = PersonaDefV;

    open spec fn view(&self) -> PersonaDefV {
        PersonaDefV {
            id: self.id,
            name: self.name@,
            title: self.title@,
            tagline: self.tagline@,
            glyph: self.glyph@,
            swatch: self.swatch,
            swatch_bg: self.swatch_bg,
        }
    }
}

pub open spec fn tile_v(
    p: Persona,
    title: Seq<char>,
    tagline: Seq<char>,
    glyph: Seq<char>,
    swatch: u32,
    bg: u32,
) -> PersonaDefV {
    PersonaDefV {
        id: persona_ordinal(p) as i32,
        name: persona_label(p),
        title,
        tagline,
        glyph,
        swatch: rgb_v(swatch),
        swatch_bg: rgb_v(bg),
    }
}

/// The tiles of the persona picker, one for each persona.
pub open spec fn persona_tiles() -> Seq<PersonaDefV> {
    seq![
        tile_v(
            Persona::Apex,
            "DEVELOPER"@,
            "Terse and technical — every surface exposed."@,
            "⬢"@,
            0x39ff14,
            0x0d0f18,
        ),
        tile_v(
            Persona::Mom,
            "WARM"@,
            "Big text, plain language, voice-friendly."@,
            "☺"@,
            0x007aff,
            0xf5f5f7,
        ),
        tile_v(
            Persona::UbuntuDad,
            "BALANCED"@,
            "A familiar Linux desktop with moderate detail."@,
            "◆"@,
            0xe95420,
            0x2c001e,
        ),
        tile_v(
            Persona::WindowsDad,
            "GUIDED"@,
            "Friendly and guided — classic Windows affordances."@,
            "▣"@,
            0x0078d4,
            0x0b1a2e,
        ),
        tile_v(
            Persona::TechKid,
            "TECH KID"@,
            "Telemetry-rich and fast — shows the reasoning."@,
            "⬡"@,
            0x00d4ff,
            0x000a14,
        ),
        tile_v(
            Persona::Aurum,
            "MEMORY"@,
            "Gold dashboard skin for the cerebro mind."@,
            "⚗"@,
            0xd4a017,
            0x1a0f00,
        ),
    ]
}

fn tile(
    p: Persona,
    id: i32,
    title: &'static str,
    tagline: &'static str,
    glyph: &'static str,
    swatch: u32,
    bg: u32,
) -> (r: PersonaDef)
    requires
        id == persona_ordinal(p),
    ensures
        r@ == tile_v(p, title@, tagline@, glyph@, swatch, bg),
{
    PersonaDef {
        id,
        name: persona_title(p),
        title,
        tagline,
        glyph,
        swatch: persona_rgb(swatch),
        swatch_bg: persona_rgb(bg),
    }
}

/// The tiles of the persona picker, one for each persona.
pub fn build_persona_defs() -> (r: Vec<PersonaDef>)
    ensures
        views(r@) == persona_tiles(),
{
    let mut out: Vec<PersonaDef> = Vec::new();
    out.push(
        tile(
            Persona::Apex,
            0,
            "DEVELOPER",
            "Terse and technical — every surface exposed.",
            "⬢",
            0x39ff14,
            0x0d0f18,
        ),
    );
    out.push(
        tile(
            Persona::Mom,
            1,
            "WARM",
            "Big text, plain language, voice-friendly.",
            "☺",
            0x007aff,
            0xf5f5f7,
        ),
    );
    out.push(
        tile(
            Persona::UbuntuDad,
            2,
            "BALANCED",
            "A familiar Linux desktop with moderate detail.",
            "◆",
            0xe95420,
            0x2c001e,
        ),
    );
    out.push(
        tile(
            Persona::WindowsDad,
            3,
            "GUIDED",
            "Friendly and guided — classic Windows affordances.",
            "▣",
            0x0078d4,
            0x0b1a2e,
        ),
    );
    out.push(
        tile(
            Persona::TechKid,
            4,
            "TECH KID",
            "Telemetry-rich and fast — shows the reasoning.",
            "⬡",
            0x00d4ff,
            0x000a14,
        ),
    );
    out.push(
        tile(
            Persona::Aurum,
            5,
            "MEMORY",
            "Gold dashboard skin for the cerebro mind.",
            "⚗",
            0xd4a017,
            0x1a0f00,
        ),
    );
    assert(views(out@) =~= persona_tiles());
    out
}

// ── Laws ────────────────────────────────────────────────────────────────────

/// A persona's ordinal and its name both lead back to it.
pub proof fn persona_round_trips(p: Persona)
    ensures
        persona_at(persona_ordinal(p) as i32) == p,
        persona_named(persona_name(p)) == Some(p),
{
    reveal_strlit("apex");
    reveal_strlit("mom");
    reveal_strlit("ubuntu-dad");
    reveal_strlit("windows-dad");
    reveal_strlit("tech-kid");
    reveal_strlit("aurum");
    assert("apex"@[0] == 'a' && "apex"@[1] == 'p' && "apex"@.last() == 'x');
    assert("mom"@[0] == 'm' && "mom"@.last() == 'm');
    assert("ubuntu-dad"@[0] == 'u' && "ubuntu-dad"@.last() == 'd');
    assert("windows-dad"@[0] == 'w' && "windows-dad"@.last() == 'd');
    assert("tech-kid"@[0] == 't' && "tech-kid"@.last() == 'd');
    assert("aurum"@[0] == 'a' && "aurum"@[1] == 'u' && "aurum"@.last() == 'm');
    trimmed_when_tight(persona_name(p));
}

} // verus!

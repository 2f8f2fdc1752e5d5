//! Starting up: the link to the daemon, the first windows, and what a freshly opened app
//! is filled with.
use vstd::prelude::*;
use crate::apps::AppKind;
use crate::demo::{demo_payload, occipital_demo_render};
use crate::desktop::{launch_v, DesktopV};
use crate::dispatch::revealed;
use crate::effects::{Effect, EffectV};
use crate::reader::{render_v, turned};
use crate::shell::{Shell, ShellV};
use crate::text::{cat3, dec, dec_u64, trimmed, views};

verus! {

broadcast use {crate::text::views_push, crate::text::views_empty};

// ── The link ────────────────────────────────────────────────────────────────

/// The first wait before another attempt, in seconds.
pub const FIRST_WAIT: u64 = 2;

/// The longest wait before another attempt, in seconds.
pub const LONGEST_WAIT: u64 = 30;

/// The link to the daemon: how long it waits before the next attempt.
#[derive(Clone, Copy, Debug, PartialEq, Eq, Structural)]
pub struct Link {
    pub wait: u64,
}

/// Whether a wait is one that the link can come to.
pub open spec fn link_wf(l: Link) -> bool {
    FIRST_WAIT <= l.wait <= LONGEST_WAIT
}

/// The link after a wait: the next one is twice as long, up to the longest.
pub open spec fn waited(l: Link) -> Link {
    Link {
        wait: if 2 * l.wait > LONGEST_WAIT {
            LONGEST_WAIT
        } else {
            (2 * l.wait) as u64
        },
    }
}

impl Link {
    /// A link that was not tried yet.
    pub fn new() -> (r: Link)
        ensures
            link_wf(r),
            r.wait == FIRST_WAIT,
    {
        Link { wait: FIRST_WAIT }
    }

    /// The connection stands: the next wait is the first one again.
    pub fn up(&mut self)
        ensures
            link_wf(*final(self)),
            final(self).wait == FIRST_WAIT,
    {
        self.wait = FIRST_WAIT;
    }

    /// The connection failed, or was lost where it stood: how long to wait, and what the
    /// status line says.
    pub fn down(&mut self, stood: bool) -> (r: (u64, String))
        ensures
            link_wf(*old(self)) ==> link_wf(*final(self)),
            *final(self) == waited(*old(self)),
            r.0 == old(self).wait,
            r.1@ == (if stood {
                "Disconnected — reconnecting in "@
            } else {
                "Connection failed — retrying in "@
            }) + dec(old(self).wait as nat) + "s"@,
    {
        let wait: u64 = self.wait;
        let what = if stood {
            "Disconnected — reconnecting in "
        } else {
            "Connection failed — retrying in "
        };
        let status = cat3(what, dec_u64(wait).as_str(), "s");
        self.wait = if wait > LONGEST_WAIT / 2 {
            LONGEST_WAIT
        } else {
            wait * 2
        };
        (wait, status)
    }
}

// ── The first windows ───────────────────────────────────────────────────────

/// How often the first windows wait for the desktop to have a size.
pub const SEED_TRIES: u32 = 40;

/// Whether the first windows wait once more: while the desktop has no size, for a while.
pub fn seed_waits(live: bool, tries: u32) -> (r: bool)
    ensures
        r == (!live && tries < SEED_TRIES),
{
    !live && tries < SEED_TRIES
}

/// The desktop with an app's window, where that is wanted.
pub open spec fn launched(d: DesktopV, wanted: bool, k: AppKind) -> DesktopV {
    if wanted {
        launch_v(d, k)
    } else {
        d
    }
}

/// The shell with its first windows: the chat, and what else was asked for.
pub open spec fn seeded(s: ShellV, face: bool, sketch: bool, sample: Option<Seq<char>>) -> (
    ShellV,
    Seq<EffectV>,
) {
    let t = ShellV {
        desk: launched(
            launched(launch_v(s.desk, AppKind::Chat), face, AppKind::Face),
            sketch,
            AppKind::Sketchpad,
        ),
        ..s
    };
    match sample {
        Some(mode) => revealed(
            ShellV { reader: turned(t.reader, render_v(demo_payload(trimmed(mode)))), ..t },
            AppKind::Occipital,
        ),
        None => (t, Seq::empty()),
    }
}

impl Shell {
    /// Opens the first windows.
    pub fn seed_windows(&mut self, face: bool, sketch: bool, sample: Option<&str>) -> (r: Vec<
        Effect,
    >)
        ensures
            (final(self)@, views(r@)) == seeded(
                old(self)@,
                face,
                sketch,
                match sample {
                    Some(mode) => Some(mode@),
                    None => None,
                },
            ),
    {
        self.desk.launch(AppKind::Chat);
        if face {
            self.desk.launch(AppKind::Face);
        }
        if sketch {
            self.desk.launch(AppKind::Sketchpad);
        }
        match sample {
            Some(mode) => {
                self.reader.apply_occipital_render(occipital_demo_render(mode));
                self.show_window(AppKind::Occipital)
            },
            None => Vec::new(),
        }
    }
}

// ── What fills an app ───────────────────────────────────────────────────────

/// What an app is filled with when it opens.
#[derive(Clone, Copy, Debug, PartialEq, Eq, Structural)]
pub enum Fill {
    Settings,
    Sessions,
    /// Start the terminal's own link.
    Terminal,
    /// Events of every kind, of so many hours.
    Events { hours: i32 },
    Mesh,
    Inference,
    Audio,
    Sonus,
    Notes,
    Explorer,
    Imagine,
}

/// What an app is filled with when it opens; most need nothing.
pub open spec fn fill_v(k: AppKind) -> Option<Fill> {
    match k {
        AppKind::Settings => Some(Fill::Settings),
        AppKind::Sessions => Some(Fill::Sessions),
        AppKind::Terminal => Some(Fill::Terminal),
        AppKind::EventLog => Some(Fill::Events { hours: 24 }),
        AppKind::Mesh => Some(Fill::Mesh),
        AppKind::Inference => Some(Fill::Inference),
        AppKind::AudioEditor => Some(Fill::Audio),
        AppKind::Sonus => Some(Fill::Sonus),
        AppKind::Notes => Some(Fill::Notes),
        AppKind::Explorer => Some(Fill::Explorer),
        AppKind::Imagine => Some(Fill::Imagine),
        _ => None,
    }
}

/// What an app is filled with when it opens.
pub fn fill_of(k: AppKind) -> (r: Option<Fill>)
    ensures
        r == fill_v(k),
{
    match k {
        AppKind::Settings => Some(Fill::Settings),
        AppKind::Sessions => Some(Fill::Sessions),
        AppKind::Terminal => Some(Fill::Terminal),
        AppKind::EventLog => Some(Fill::Events { hours: 24 }),
        AppKind::Mesh => Some(Fill::Mesh),
        AppKind::Inference => Some(Fill::Inference),
        AppKind::AudioEditor => Some(Fill::Audio),
        AppKind::Sonus => Some(Fill::Sonus),
        AppKind::Notes => Some(Fill::Notes),
        AppKind::Explorer => Some(Fill::Explorer),
        AppKind::Imagine => Some(Fill::Imagine),
        _ => None,
    }
}

// ── Laws ────────────────────────────────────────────────────────────────────

/// The link after `n` failures in a row.
pub open spec fn after_failures(l: Link, n: nat) -> Link
    decreases n,
{
    if n == 0 {
        l
    } else {
        waited(after_failures(l, (n - 1) as nat))
    }
}

/// The wait never gets shorter while attempts fail, and never leaves its bounds.
pub proof fn waits_grow_within_bounds(l: Link, n: nat)
    requires
        link_wf(l),
    ensures
        link_wf(after_failures(l, n)),
        after_failures(l, n).wait <= after_failures(l, n + 1).wait,
    decreases n,
{
    if n > 0 {
        waits_grow_within_bounds(l, (n - 1) as nat);
    }
}

/// After four failures in a row every wait is the longest.
pub proof fn waits_settle(l: Link, n: nat)
    requires
        link_wf(l),
        n >= 4,
    ensures
        after_failures(l, n).wait == LONGEST_WAIT,
    decreases n,
{
    if n > 4 {
        waits_settle(l, (n - 1) as nat);
    } else {
        reveal_with_fuel(after_failures, 5);
    }
}

} // verus!

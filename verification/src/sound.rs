//! Sound preferences and which tones each event plays. The tones are plain
//! numbers here; synthesising and playing them is left to the caller.

use vstd::prelude::*;

verus! {

/// Volume (percent) used when nothing else has been chosen.
pub const DEFAULT_VOLUME_PCT: u8 = 25;

/// Lowest and highest volume a player accepts, in percent.
pub const VOLUME_MIN: u8 = 1;
pub const VOLUME_MAX: u8 = 100;

/// The set of keystroke sounds, or none.
#[derive(Clone, Copy, PartialEq, Eq, Structural, Debug)]
pub enum SoundPack {
    Off,
    Click,
    Pop,
    Beep,
    Typewriter,
}

impl SoundPack {
    /// Number of variants.
    pub open spec fn count() -> int {
        5
    }

    /// Position of the variant in declaration order.
    pub open spec fn ord(self) -> int {
        match self {
            SoundPack::Off => 0,
            SoundPack::Click => 1,
            SoundPack::Pop => 2,
            SoundPack::Beep => 3,
            SoundPack::Typewriter => 4,
        }
    }

    /// The variant at position `i` modulo the variant count.
    pub open spec fn at(i: int) -> SoundPack {
        let j = i % 5;
        if j == 0 {
            SoundPack::Off
        } else if j == 1 {
            SoundPack::Click
        } else if j == 2 {
            SoundPack::Pop
        } else if j == 3 {
            SoundPack::Beep
        } else {
            SoundPack::Typewriter
        }
    }

    /// Every variant in declaration order.
    pub fn all() -> (v: Vec<SoundPack>)
        ensures
            v@.len() == Self::count(),
            forall|i: int| 0 <= i < Self::count() ==> (#[trigger] v@[i]).ord() == i,
    {
        vec![SoundPack::Off, SoundPack::Click, SoundPack::Pop, SoundPack::Beep, SoundPack::Typewriter]
    }

    pub fn label(self) -> (s: &'static str)
        ensures
            s@ == (match self {
                SoundPack::Off => "off"@,
                SoundPack::Click => "click"@,
                SoundPack::Pop => "pop"@,
                SoundPack::Beep => "beep"@,
                SoundPack::Typewriter => "typewriter"@,
            }),
    {
        match self {
            SoundPack::Off => "off",
            SoundPack::Click => "click",
            SoundPack::Pop => "pop",
            SoundPack::Beep => "beep",
            SoundPack::Typewriter => "typewriter",
        }
    }

    /// The following pack, wrapping from the last to the first.
    pub fn next(self) -> (r: SoundPack)
        ensures
            r == SoundPack::at(self.ord() + 1),
    {
        match self {
            SoundPack::Off => SoundPack::Click,
            SoundPack::Click => SoundPack::Pop,
            SoundPack::Pop => SoundPack::Beep,
            SoundPack::Beep => SoundPack::Typewriter,
            SoundPack::Typewriter => SoundPack::Off,
        }
    }

    /// The preceding pack, wrapping from the first to the last.
    pub fn prev(self) -> (r: SoundPack)
        ensures
            r == SoundPack::at(self.ord() + Self::count() - 1),
    {
        match self {
            SoundPack::Off => SoundPack::Typewriter,
            SoundPack::Click => SoundPack::Off,
            SoundPack::Pop => SoundPack::Click,
            SoundPack::Beep => SoundPack::Pop,
            SoundPack::Typewriter => SoundPack::Beep,
        }
    }
}

/// Stepping forward then back (or back then forward) through the sound
/// packs returns to the starting pack, and a full cycle is the identity.
pub proof fn sound_pack_cycle_law(p: SoundPack)
    ensures
        SoundPack::at(SoundPack::at(p.ord() + 1).ord() + 4) == p,
        SoundPack::at(SoundPack::at(p.ord() + 4).ord() + 1) == p,
        SoundPack::at(p.ord() + 5) == p,
        forall|i: int| 0 <= i < 5 ==> #[trigger] SoundPack::at(i).ord() == i,
{
}

/// `v` clamped into `lo..=hi`.
pub open spec fn clamp(v: int, lo: int, hi: int) -> int {
    if v < lo {
        lo
    } else if v > hi {
        hi
    } else {
        v
    }
}

/// A sine tone: its pitch in hertz and its length in milliseconds.
#[derive(Clone, Copy, PartialEq, Eq, Structural, Debug)]
pub struct Tone {
    pub hz: u32,
    pub ms: u64,
}

/// What happened that deserves a sound.
#[derive(Clone, Copy, PartialEq, Eq, Structural, Debug)]
pub enum Cue {
    /// A correctly typed character.
    Correct,
    /// A mistyped character.
    Error,
    /// The end of a test.
    Complete,
}

/// The tones, played one after the other, that `pack` makes for `cue`:
/// nothing when sound is off; a keystroke tone that depends on the pack;
/// a low buzz for a mistake; a rising two-note chime at the end.
pub open spec fn tones_of(pack: SoundPack, cue: Cue) -> Seq<Tone> {
    match pack {
        SoundPack::Off => seq![],
        _ => match cue {
            Cue::Correct => match pack {
                SoundPack::Click => seq![Tone { hz: 850, ms: 20 }],
                SoundPack::Pop => seq![Tone { hz: 500, ms: 30 }],
                SoundPack::Beep => seq![Tone { hz: 350, ms: 45 }],
                _ => seq![Tone { hz: 180, ms: 14 }],
            },
            Cue::Error => seq![Tone { hz: 200, ms: 80 }],
            Cue::Complete => seq![Tone { hz: 523, ms: 180 }, Tone { hz: 659, ms: 180 }],
        },
    }
}

/// The tones `pack` plays for `cue`, in order.
pub fn tones(pack: SoundPack, cue: Cue) -> (v: Vec<Tone>)
    ensures
        v@ == tones_of(pack, cue),
{
    let mut v: Vec<Tone> = Vec::new();
    match pack {
        SoundPack::Off => {},
        _ => match cue {
            Cue::Correct => {
                let t = match pack {
                    SoundPack::Click => Tone { hz: 850, ms: 20 },
                    SoundPack::Pop => Tone { hz: 500, ms: 30 },
                    SoundPack::Beep => Tone { hz: 350, ms: 45 },
                    _ => Tone { hz: 180, ms: 14 },
                };
                v.push(t);
            },
            Cue::Error => {
                v.push(Tone { hz: 200, ms: 80 });
            },
            Cue::Complete => {
                v.push(Tone { hz: 523, ms: 180 });
                v.push(Tone { hz: 659, ms: 180 });
            },
        },
    }
    assert(v@ =~= tones_of(pack, cue));
    v
}

/// The chosen sound pack and volume of an available audio device.
#[derive(Clone, Copy, PartialEq, Eq, Structural, Debug)]
pub struct SoundPrefs {
    pub pack: SoundPack,
    pub volume_pct: u8,
}

impl SoundPrefs {
    /// The volume is within `VOLUME_MIN..=VOLUME_MAX`.
    pub open spec fn wf(&self) -> bool {
        VOLUME_MIN <= self.volume_pct <= VOLUME_MAX
    }

    /// Default preferences of a freshly opened device.
    pub fn new() -> (p: SoundPrefs)
        ensures
            p.pack == SoundPack::Click,
            p.volume_pct == DEFAULT_VOLUME_PCT,
            p.wf(),
    {
        SoundPrefs { pack: SoundPack::Click, volume_pct: DEFAULT_VOLUME_PCT }
    }

    /// Sets the volume, clamped into `VOLUME_MIN..=VOLUME_MAX`.
    pub fn set_volume_pct(&mut self, pct: u8)
        ensures
            final(self).pack == old(self).pack,
            final(self).volume_pct == clamp(pct as int, VOLUME_MIN as int, VOLUME_MAX as int),
            final(self).wf(),
    {
        self.volume_pct = if pct < VOLUME_MIN {
            VOLUME_MIN
        } else if pct > VOLUME_MAX {
            VOLUME_MAX
        } else {
            pct
        };
    }
}

} // verus!

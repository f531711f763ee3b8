//! Sound effects as patterns of terminal bells and pauses.
use vstd::prelude::*;

verus! {

/// The sound effects.
#[derive(Debug, Clone, Copy, PartialEq, Eq, Structural)]
pub enum SoundEffect {
    /// A simple terminal bell.
    Bell,
    /// Rapid-fire bells.
    RapidBells,
    /// A crescendo of bells.
    Explosion,
    /// A dramatic pause, then two bells.
    MicDrop,
    /// An error beep.
    Error,
    /// A success chime.
    Success,
}

/// Whether sounds are played.
#[derive(Debug, Clone, Copy, PartialEq, Eq, Structural)]
pub enum SoundMode {
    /// No sound.
    Silent,
    /// Terminal bells only.
    Bell,
}

/// One step of a bell pattern: ring the terminal bell (and flush), or wait.
#[derive(Debug, Clone, Copy, PartialEq, Eq, Structural)]
pub enum SoundStep {
    Ring,
    PauseMs(u64),
}

/// The bells and pauses that make up an effect.
pub open spec fn bell_pattern(effect: SoundEffect) -> Seq<SoundStep> {
    match effect {
        SoundEffect::Bell => seq![SoundStep::Ring],
        SoundEffect::RapidBells => seq![
            SoundStep::Ring,
            SoundStep::PauseMs(50),
            SoundStep::Ring,
            SoundStep::PauseMs(50),
            SoundStep::Ring,
            SoundStep::PauseMs(50),
            SoundStep::Ring,
            SoundStep::PauseMs(50),
            SoundStep::Ring,
        ],
        SoundEffect::Explosion => seq![
            SoundStep::Ring,
            SoundStep::PauseMs(200),
            SoundStep::Ring,
            SoundStep::PauseMs(175),
            SoundStep::Ring,
            SoundStep::PauseMs(150),
            SoundStep::Ring,
            SoundStep::PauseMs(125),
            SoundStep::Ring,
            SoundStep::PauseMs(100),
            SoundStep::Ring,
            SoundStep::PauseMs(75),
            SoundStep::Ring,
            SoundStep::PauseMs(50),
        ],
        SoundEffect::MicDrop => seq![
            SoundStep::PauseMs(300),
            SoundStep::Ring,
            SoundStep::PauseMs(150),
            SoundStep::Ring,
        ],
        SoundEffect::Error => seq![SoundStep::Ring, SoundStep::PauseMs(80), SoundStep::Ring],
        SoundEffect::Success => seq![
            SoundStep::Ring,
            SoundStep::PauseMs(120),
            SoundStep::Ring,
            SoundStep::PauseMs(120),
            SoundStep::Ring,
            SoundStep::PauseMs(120),
        ],
    }
}

/// Plays sound effects in a given mode.
pub struct SoundPlayer {
    mode: SoundMode,
}

impl SoundPlayer {
    /// The mode the player was made with.
    pub closed spec fn spec_mode(&self) -> SoundMode {
        self.mode
    }

    /// A player in the given mode.
    pub fn new(mode: SoundMode) -> (p: Self)
        ensures
            p.spec_mode() == mode,
    {
        Self { mode }
    }

    /// The mode the player was made with.
    pub fn mode(&self) -> (m: SoundMode)
        ensures
            m == self.spec_mode(),
    {
        self.mode
    }

    /// The steps that playing `effect` performs: none when silent, else the
    /// effect's bell pattern.
    pub fn play(&self, effect: SoundEffect) -> (steps: Vec<SoundStep>)
        ensures
            steps@ == if self.spec_mode() == SoundMode::Silent {
                Seq::<SoundStep>::empty()
            } else {
                bell_pattern(effect)
            },
    {
        let mut steps: Vec<SoundStep> = Vec::new();
        if self.mode == SoundMode::Silent {
            return steps;
        }
        match effect {
            SoundEffect::Bell => {
                steps.push(SoundStep::Ring);
            },
            SoundEffect::RapidBells => {
                let mut i: u64 = 0;
                while i < 5
                    invariant
                        i <= 5,
                        steps@ == bell_pattern(SoundEffect::RapidBells).take(2 * i - if i > 0 {
                            1int
                        } else {
                            0int
                        }),
                    decreases 5 - i,
                {
                    if i > 0 {
                        steps.push(SoundStep::PauseMs(50));
                    }
                    steps.push(SoundStep::Ring);
                    assert(steps@ =~= bell_pattern(SoundEffect::RapidBells).take(2 * (i + 1) - 1));
                    i = i + 1;
                }
                assert(steps@ =~= bell_pattern(SoundEffect::RapidBells));
            },
            SoundEffect::Explosion => {
                let mut i: u64 = 0;
                while i < 7
                    invariant
                        i <= 7,
                        steps@ == bell_pattern(SoundEffect::Explosion).take(2 * i),
                    decreases 7 - i,
                {
                    steps.push(SoundStep::Ring);
                    steps.push(SoundStep::PauseMs(200 - i * 25));
                    assert(steps@ =~= bell_pattern(SoundEffect::Explosion).take(2 * (i + 1)));
                    i = i + 1;
                }
                assert(steps@ =~= bell_pattern(SoundEffect::Explosion));
            },
            SoundEffect::MicDrop => {
                steps.push(SoundStep::PauseMs(300));
                steps.push(SoundStep::Ring);
                steps.push(SoundStep::PauseMs(150));
                steps.push(SoundStep::Ring);
            },
            SoundEffect::Error => {
                steps.push(SoundStep::Ring);
                steps.push(SoundStep::PauseMs(80));
                steps.push(SoundStep::Ring);
            },
            SoundEffect::Success => {
                let mut i: u64 = 0;
                while i < 3
                    invariant
                        i <= 3,
                        steps@ == bell_pattern(SoundEffect::Success).take(2 * i),
                    decreases 3 - i,
                {
                    steps.push(SoundStep::Ring);
                    steps.push(SoundStep::PauseMs(120));
                    assert(steps@ =~= bell_pattern(SoundEffect::Success).take(2 * (i + 1)));
                    i = i + 1;
                }
                assert(steps@ =~= bell_pattern(SoundEffect::Success));
            },
        }
        assert(steps@ =~= bell_pattern(effect));
        steps
    }
}

/// The mode chosen from the command-line flags: silent wins, and bells are
/// the default otherwise.
pub open spec fn spec_player_mode(silent: bool, sound: bool, bell_only: bool) -> SoundMode {
    if silent {
        SoundMode::Silent
    } else {
        SoundMode::Bell
    }
}

/// Create a sound player from the command-line flags.
pub fn create_player(silent: bool, sound: bool, bell_only: bool) -> (p: SoundPlayer)
    ensures
        p.spec_mode() == spec_player_mode(silent, sound, bell_only),
{
    let mode = if silent {
        SoundMode::Silent
    } else if sound || bell_only {
        SoundMode::Bell
    } else {
        SoundMode::Bell
    };
    SoundPlayer::new(mode)
}

/// Every effect rings the bell at least once when sound is on.
pub proof fn law_every_effect_rings(effect: SoundEffect)
    ensures
        bell_pattern(effect).contains(SoundStep::Ring),
{
    match effect {
        SoundEffect::Bell => assert(bell_pattern(effect)[0] == SoundStep::Ring),
        SoundEffect::RapidBells => assert(bell_pattern(effect)[0] == SoundStep::Ring),
        SoundEffect::Explosion => assert(bell_pattern(effect)[0] == SoundStep::Ring),
        SoundEffect::MicDrop => assert(bell_pattern(effect)[1] == SoundStep::Ring),
        SoundEffect::Error => assert(bell_pattern(effect)[0] == SoundStep::Ring),
        SoundEffect::Success => assert(bell_pattern(effect)[0] == SoundStep::Ring),
    }
}

} // verus!

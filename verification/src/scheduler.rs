//! Playback scheduling: the three harmony voices are started together,
//! play for a fixed interval, and are then all stopped and immediately
//! restarted, repeating until the loop is cancelled. The scheduler decides;
//! the caller performs each returned voice command and reports when the
//! interval has elapsed.

use vstd::prelude::*;

verus! {

/// Number of harmony voices in a session.
pub const VOICE_COUNT: u8 = 3;
/// Milliseconds each iteration plays before the voices are restarted.
pub const PLAY_DURATION_MS: u64 = 5000;

/// One action the caller must perform on the playback output.
#[derive(Clone, Copy, Debug, PartialEq, Eq, Structural)]
pub enum VoiceCommand {
    /// Start the given voice at its planned speed, from the beginning of
    /// the shared recording.
    Start { voice: u8 },
    /// Stop the given voice.
    Stop { voice: u8 },
}

/// The commands that start all three voices at the same instant, in voice
/// order.
pub open spec fn spec_start_all() -> Seq<VoiceCommand> {
    seq![
        (VoiceCommand::Start { voice: 0 }),
        (VoiceCommand::Start { voice: 1 }),
        (VoiceCommand::Start { voice: 2 }),
    ]
}

/// The commands that stop all three voices, in voice order.
pub open spec fn spec_stop_all() -> Seq<VoiceCommand> {
    seq![
        (VoiceCommand::Stop { voice: 0 }),
        (VoiceCommand::Stop { voice: 1 }),
        (VoiceCommand::Stop { voice: 2 }),
    ]
}

/// The repeat-loop state: whether the voices are currently playing and how
/// many full intervals have elapsed.
pub struct PlaybackScheduler {
    pub running: bool,
    pub iterations: u64,
}

impl PlaybackScheduler {
    /// A scheduler that has not started playback yet.
    pub fn new() -> (r: Self)
        ensures
            !r.running,
            r.iterations == 0,
    {
        PlaybackScheduler { running: false, iterations: 0 }
    }

    /// Starts the session: all three voices begin together.
    pub fn begin(&mut self) -> (commands: Vec<VoiceCommand>)
        requires
            !old(self).running,
        ensures
            final(self).running,
            final(self).iterations == old(self).iterations,
            commands@ == spec_start_all(),
    {
        self.running = true;
        let mut commands: Vec<VoiceCommand> = Vec::new();
        commands.push(VoiceCommand::Start { voice: 0 });
        commands.push(VoiceCommand::Start { voice: 1 });
        commands.push(VoiceCommand::Start { voice: 2 });
        commands
    }

    /// Decides what to do once a play interval has elapsed: stop all three
    /// voices, and, unless the loop has been cancelled, restart them at once
    /// for the next iteration.
    pub fn on_interval_elapsed(&mut self, cancelled: bool) -> (commands: Vec<VoiceCommand>)
        requires
            old(self).running,
            old(self).iterations < u64::MAX,
        ensures
            final(self).iterations == old(self).iterations + 1,
            final(self).running == !cancelled,
            cancelled ==> commands@ == spec_stop_all(),
            !cancelled ==> commands@ == spec_stop_all() + spec_start_all(),
    {
        self.iterations = self.iterations + 1;
        let mut commands: Vec<VoiceCommand> = Vec::new();
        commands.push(VoiceCommand::Stop { voice: 0 });
        commands.push(VoiceCommand::Stop { voice: 1 });
        commands.push(VoiceCommand::Stop { voice: 2 });
        if cancelled {
            self.running = false;
        } else {
            commands.push(VoiceCommand::Start { voice: 0 });
            commands.push(VoiceCommand::Start { voice: 1 });
            commands.push(VoiceCommand::Start { voice: 2 });
        }
        commands
    }
}

} // verus!

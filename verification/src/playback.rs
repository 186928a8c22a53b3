use vstd::prelude::*;

verus! {

/// What the audio engine reports of a playback instance. A position is in
/// microseconds of the engine's position unit; a queued or stopped instance
/// has none.
#[derive(Debug, Clone, Copy, PartialEq, Eq, Hash, Structural)]
pub enum PlaybackStatus {
    /// Paused at `position`.
    Paused { position: u64 },
    /// Fading out, to be paused when the fade ends.
    Pausing { position: u64 },
    /// Playing, now at `position`.
    Playing { position: u64 },
    /// Waiting to be started by the engine.
    Queued,
    /// Not there any more, or never played.
    Stopped,
    /// Fading out, to be stopped when the fade ends.
    Stopping { position: u64 },
}

/// The two faces of the status icon.
#[derive(Debug, Clone, Copy, PartialEq, Eq, PartialOrd, Ord, Hash, Structural)]
pub enum AeiouMedia {
    Paused,
    Play,
}

/// What the toggle asks of the audio engine.
#[derive(Debug, Clone, Copy, PartialEq, Eq, Hash, Structural)]
pub enum AudioCommand {
    /// Resume the paused instance.
    Resume,
    /// Pause the playing instance.
    Pause,
    /// Play the track from its beginning as a new instance, whose handle
    /// takes the place of the stored one.
    Start,
}

/// The handle of the one playback instance that is live.
#[derive(Debug, PartialEq, Eq)]
pub struct Ai<H> {
    pub instance: H,
}

impl PlaybackStatus {
    /// The playback position, where the status has one.
    pub open spec fn spec_position(self) -> Option<u64> {
        match self {
            PlaybackStatus::Queued | PlaybackStatus::Stopped => None,
            PlaybackStatus::Playing { position }
            | PlaybackStatus::Paused { position }
            | PlaybackStatus::Pausing { position }
            | PlaybackStatus::Stopping { position } => Some(position),
        }
    }

    /// The statuses from which a toggle resumes: paused, pausing, queued.
    pub open spec fn resumable(self) -> bool {
        self is Paused || self is Pausing || self is Queued
    }

    /// The statuses from which a toggle starts over: stopped, stopping.
    pub open spec fn ended(self) -> bool {
        self is Stopped || self is Stopping
    }

    /// The command that a toggle sends in this status.
    pub open spec fn command(self) -> AudioCommand {
        if self.resumable() {
            AudioCommand::Resume
        } else if self is Playing {
            AudioCommand::Pause
        } else {
            AudioCommand::Start
        }
    }

    /// The face that the status icon takes on a toggle in this status.
    pub open spec fn icon(self) -> AeiouMedia {
        if self is Playing {
            AeiouMedia::Paused
        } else {
            AeiouMedia::Play
        }
    }

    /// The status that the engine is expected to report once it has carried
    /// out the toggle's command: a playing instance is paused where it is, a
    /// paused or pausing one plays on from where it is, and a queued or
    /// ended one plays from the beginning.
    pub open spec fn toggled(self) -> PlaybackStatus {
        match self {
            PlaybackStatus::Playing { position } => PlaybackStatus::Paused { position },
            PlaybackStatus::Paused { position } | PlaybackStatus::Pausing { position } => {
                PlaybackStatus::Playing { position }
            },
            PlaybackStatus::Queued | PlaybackStatus::Stopped | PlaybackStatus::Stopping { .. } => {
                PlaybackStatus::Playing { position: 0 }
            },
        }
    }

    /// The playback position in microseconds, or `None` where the engine
    /// knows of none: for a queued and for a stopped instance.
    pub fn position(&self) -> (position: Option<u64>)
        ensures
            position == self.spec_position(),
            position is None <==> (self is Queued || self is Stopped),
    {
        match self {
            PlaybackStatus::Queued | PlaybackStatus::Stopped => None,
            PlaybackStatus::Playing { position }
            | PlaybackStatus::Paused { position }
            | PlaybackStatus::Pausing { position }
            | PlaybackStatus::Stopping { position } => Some(*position),
        }
    }

    /// What a press of the toggle key does in this status: the command for
    /// the audio engine and the face for the status icon.
    pub fn toggle(self) -> (change: (AudioCommand, AeiouMedia))
        ensures
            change.0 == self.command(),
            change.1 == self.icon(),
    {
        match self {
            PlaybackStatus::Paused { .. } | PlaybackStatus::Pausing { .. } | PlaybackStatus::Queued => {
                (AudioCommand::Resume, AeiouMedia::Play)
            },
            PlaybackStatus::Playing { .. } => (AudioCommand::Pause, AeiouMedia::Paused),
            PlaybackStatus::Stopped | PlaybackStatus::Stopping { .. } => {
                (AudioCommand::Start, AeiouMedia::Play)
            },
        }
    }

    /// The status to expect after the toggle's command has been carried out.
    pub fn after_toggle(self) -> (next: PlaybackStatus)
        ensures
            next == self.toggled(),
    {
        match self {
            PlaybackStatus::Playing { position } => PlaybackStatus::Paused { position },
            PlaybackStatus::Paused { position } => PlaybackStatus::Playing { position },
            PlaybackStatus::Pausing { position } => PlaybackStatus::Playing { position },
            PlaybackStatus::Queued => PlaybackStatus::Playing { position: 0 },
            PlaybackStatus::Stopped => PlaybackStatus::Playing { position: 0 },
            PlaybackStatus::Stopping { .. } => PlaybackStatus::Playing { position: 0 },
        }
    }
}

impl AeiouMedia {
    /// The frame of the icon sheet that shows this face: 0 for the pause
    /// icon, 1 for the play icon.
    pub open spec fn spec_frame(self) -> usize {
        match self {
            AeiouMedia::Paused => 0,
            AeiouMedia::Play => 1,
        }
    }

    /// The frame of the icon sheet that shows this face.
    #[verifier::when_used_as_spec(spec_frame)]
    pub fn frame(self) -> (index: usize)
        ensures
            index == self.spec_frame(),
            index < 2,
    {
        match self {
            AeiouMedia::Paused => 0,
            AeiouMedia::Play => 1,
        }
    }
}

impl<H> Ai<H> {
    /// Stores the handle of a newly started instance in place of the one
    /// held so far.
    pub fn replace(&mut self, handle: H)
        ensures
            final(self).instance == handle,
    {
        self.instance = handle;
    }
}

/// Takes the handle that the audio engine gave for the first playback of the
/// track and keeps it as the one live instance.
pub fn play<H>(handle: H) -> (ai: Ai<H>)
    ensures
        ai.instance == handle,
{
    Ai { instance: handle }
}

/// The icon never shows anything but one of its two frames, and after a
/// toggle it shows the play frame exactly when the instance is then in none
/// of the statuses paused, pausing and queued.
pub proof fn lemma_icon_follows_status(status: PlaybackStatus)
    ensures
        status.icon().frame() == 0 || status.icon().frame() == 1,
        status.icon().frame() == 1 <==> !status.toggled().resumable(),
{
}

/// The three rows of the toggle's table: each status falls under exactly one
/// of them, and the row gives command, next status and icon.
pub proof fn lemma_toggle_table(status: PlaybackStatus)
    ensures
        status.resumable() ==> status.command() == AudioCommand::Resume && status.toggled() is Playing
            && status.icon() == AeiouMedia::Play,
        status is Playing ==> status.command() == AudioCommand::Pause && status.toggled() is Paused
            && status.icon() == AeiouMedia::Paused,
        status.ended() ==> status.command() == AudioCommand::Start && status.toggled() is Playing
            && status.icon() == AeiouMedia::Play,
        status.resumable() || status is Playing || status.ended(),
        !(status.resumable() && status is Playing),
        !(status.resumable() && status.ended()),
        !(status is Playing && status.ended()),
{
}

} // verus!

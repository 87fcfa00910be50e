//! The player thread's decisions: what each command does to the playback state and which
//! operation it asks of mpv.
use vstd::prelude::*;

verus! {

/// A command to the player thread.
#[derive(Debug)]
pub enum PlayerCommand {
    /// Play the stream at this URL.
    Play(String),
    Pause,
    Resume,
    TogglePause,
    Stop,
    /// Seek forward by this many seconds.
    SeekForward(u32),
    /// Seek backward by this many seconds.
    SeekBackward(u32),
    /// Set the volume in percent (clamped to 0..=100).
    SetVolume(i64),
    Quit,
}

/// Playback state as the player thread reports it. The position and duration within the
/// track, which mpv reports in floating point, travel beside it.
#[derive(Debug, Clone, Copy, PartialEq, Eq, Structural)]
pub struct PlayerState {
    pub playing: bool,
    pub paused: bool,
    pub volume: i64,
    pub finished: bool,
}

impl Default for PlayerState {
    fn default() -> (s: Self)
        ensures
            s == (PlayerState { playing: false, paused: false, volume: 80, finished: false }),
    {
        PlayerState { playing: false, paused: false, volume: 80, finished: false }
    }
}

/// What the player thread asks of mpv.
#[derive(Debug)]
pub enum MpvOp {
    /// `loadfile <url> replace`; the position starts again at zero.
    LoadFile(String),
    /// Set the `pause` property.
    SetPause(bool),
    /// `stop`; position and duration go back to zero.
    Stop,
    /// `seek <seconds> relative`.
    SeekRelative(i64),
    /// Set the `volume` property.
    SetVolume(i64),
    /// Leave the player loop.
    Quit,
    /// Nothing to do.
    Nothing,
}

/// `v` clamped to 0..=100.
pub open spec fn clamp_volume(v: i64) -> i64 {
    if v < 0 { 0 } else if v > 100 { 100 } else { v }
}

/// What a command does: `n` is the playback state after it and `op` the operation mpv is
/// asked for. Play starts playing (unpaused, not finished); pause and resume set the pause
/// flag; toggling flips it while playing and does nothing otherwise; stop ends playing; seeks
/// act only while playing; the volume is clamped to 0..=100.
pub open spec fn command_post(o: PlayerState, cmd: PlayerCommand, n: PlayerState, op: MpvOp) -> bool {
    match cmd {
        PlayerCommand::Play(url) => {
            &&& op matches MpvOp::LoadFile(u) && u == url
            &&& n == (PlayerState { playing: true, paused: false, finished: false, ..o })
        },
        PlayerCommand::Pause => {
            &&& op matches MpvOp::SetPause(true)
            &&& n == (PlayerState { paused: true, ..o })
        },
        PlayerCommand::Resume => {
            &&& op matches MpvOp::SetPause(false)
            &&& n == (PlayerState { paused: false, ..o })
        },
        PlayerCommand::TogglePause => if o.playing {
            &&& op matches MpvOp::SetPause(p) && p == !o.paused
            &&& n == (PlayerState { paused: !o.paused, ..o })
        } else {
            &&& op is Nothing
            &&& n == o
        },
        PlayerCommand::Stop => {
            &&& op is Stop
            &&& n == (PlayerState { playing: false, paused: false, ..o })
        },
        PlayerCommand::SeekForward(secs) => {
            &&& o.playing ==> (op matches MpvOp::SeekRelative(s) && s == secs as i64)
            &&& !o.playing ==> op is Nothing
            &&& n == o
        },
        PlayerCommand::SeekBackward(secs) => {
            &&& o.playing ==> (op matches MpvOp::SeekRelative(s) && s == -(secs as i64))
            &&& !o.playing ==> op is Nothing
            &&& n == o
        },
        PlayerCommand::SetVolume(v) => {
            &&& op matches MpvOp::SetVolume(x) && x == clamp_volume(v)
            &&& n == (PlayerState { volume: clamp_volume(v), ..o })
        },
        PlayerCommand::Quit => {
            &&& op is Quit
            &&& n == o
        },
    }
}

/// Applies a command (see [`command_post`]): updates the playback state and returns the mpv
/// operation to perform.
pub fn apply_command(state: &mut PlayerState, cmd: PlayerCommand) -> (op: MpvOp)
    ensures
        command_post(*old(state), cmd, *final(state), op),
{
    match cmd {
        PlayerCommand::Play(url) => {
            state.playing = true;
            state.paused = false;
            state.finished = false;
            MpvOp::LoadFile(url)
        },
        PlayerCommand::Pause => {
            state.paused = true;
            MpvOp::SetPause(true)
        },
        PlayerCommand::Resume => {
            state.paused = false;
            MpvOp::SetPause(false)
        },
        PlayerCommand::TogglePause => {
            if state.playing {
                let new_val = !state.paused;
                state.paused = new_val;
                MpvOp::SetPause(new_val)
            } else {
                MpvOp::Nothing
            }
        },
        PlayerCommand::Stop => {
            state.playing = false;
            state.paused = false;
            MpvOp::Stop
        },
        PlayerCommand::SeekForward(secs) => {
            if state.playing { MpvOp::SeekRelative(secs as i64) } else { MpvOp::Nothing }
        },
        PlayerCommand::SeekBackward(secs) => {
            if state.playing { MpvOp::SeekRelative(-(secs as i64)) } else { MpvOp::Nothing }
        },
        PlayerCommand::SetVolume(vol) => {
            let v = if vol < 0 { 0 } else if vol > 100 { 100 } else { vol };
            state.volume = v;
            MpvOp::SetVolume(v)
        },
        PlayerCommand::Quit => MpvOp::Quit,
    }
}

/// Records the end of a file: only the end of a stream (not a stop or a replacement by the
/// next file) marks the track finished and playback over.
pub fn apply_end_file(state: &mut PlayerState, end_of_stream: bool)
    ensures
        end_of_stream ==> *final(state) == (PlayerState { finished: true, playing: false, ..*old(state) }),
        !end_of_stream ==> *final(state) == *old(state),
{
    if end_of_stream {
        state.finished = true;
        state.playing = false;
    }
}

/// Toggling pause twice while playing gives back the state one started from.
pub proof fn lemma_toggle_twice_restores(s0: PlayerState, s1: PlayerState, s2: PlayerState, op1: MpvOp, op2: MpvOp)
    requires
        command_post(s0, PlayerCommand::TogglePause, s1, op1),
        command_post(s1, PlayerCommand::TogglePause, s2, op2),
    ensures
        s2 == s0,
{
}

/// After any command a volume within 0..=100 stays within it, and setting the volume always
/// lands within it.
pub proof fn lemma_volume_in_range(o: PlayerState, cmd: PlayerCommand, n: PlayerState, op: MpvOp)
    requires
        command_post(o, cmd, n, op),
    ensures
        0 <= o.volume <= 100 ==> 0 <= n.volume <= 100,
        cmd is SetVolume ==> 0 <= n.volume <= 100,
{
}

/// Playing and then stopping leaves the player neither playing nor paused.
pub proof fn lemma_play_then_stop(
    s0: PlayerState,
    url: String,
    s1: PlayerState,
    op1: MpvOp,
    s2: PlayerState,
    op2: MpvOp,
)
    requires
        command_post(s0, PlayerCommand::Play(url), s1, op1),
        command_post(s1, PlayerCommand::Stop, s2, op2),
    ensures
        s1.playing && !s1.paused,
        !s2.playing && !s2.paused,
        s2.volume == s0.volume,
{
}

/// The offset, in seconds, of a relative seek; 0 for any other operation.
pub open spec fn seek_offset(op: MpvOp) -> int {
    match op {
        MpvOp::SeekRelative(s) => s as int,
        _ => 0,
    }
}

/// While a track plays, seeking forward by `secs` asks mpv for a relative seek of exactly
/// `secs` seconds ahead (a positive offset when `secs` is positive), and the playback state
/// stays as it was.
pub proof fn lemma_seek_forward_goes_ahead(o: PlayerState, secs: u32, n: PlayerState, op: MpvOp)
    requires
        o.playing,
        command_post(o, PlayerCommand::SeekForward(secs), n, op),
    ensures
        op matches MpvOp::SeekRelative(s) && s == secs && s >= 0 && (secs > 0 ==> s > 0),
        n == o,
{
}

/// While a track plays, seeking forward and seeking backward by the same amount ask mpv for
/// opposite offsets: forward is ahead (`+secs`), backward is behind (`-secs`).
pub proof fn lemma_seeks_are_opposite(
    o: PlayerState,
    secs: u32,
    n1: PlayerState,
    op1: MpvOp,
    n2: PlayerState,
    op2: MpvOp,
)
    requires
        o.playing,
        command_post(o, PlayerCommand::SeekForward(secs), n1, op1),
        command_post(o, PlayerCommand::SeekBackward(secs), n2, op2),
    ensures
        op1 is SeekRelative,
        op2 is SeekRelative,
        seek_offset(op1) + seek_offset(op2) == 0,
        seek_offset(op1) == secs,
        seek_offset(op2) == -(secs as int),
{
}

/// Seeking while nothing plays asks nothing of mpv and changes nothing.
pub proof fn lemma_seek_when_idle_does_nothing(o: PlayerState, cmd: PlayerCommand, n: PlayerState, op: MpvOp)
    requires
        !o.playing,
        cmd is SeekForward || cmd is SeekBackward,
        command_post(o, cmd, n, op),
    ensures
        op is Nothing,
        n == o,
{
}

/// Pausing then resuming: mpv is told to pause and then to play on; the player ends unpaused
/// with everything else as it was.
pub proof fn lemma_pause_then_resume(o: PlayerState, n1: PlayerState, op1: MpvOp, n2: PlayerState, op2: MpvOp)
    requires
        command_post(o, PlayerCommand::Pause, n1, op1),
        command_post(n1, PlayerCommand::Resume, n2, op2),
    ensures
        n1.paused,
        op1 matches MpvOp::SetPause(p) && p,
        op2 matches MpvOp::SetPause(p) && !p,
        !n2.paused,
        n2.playing == o.playing && n2.volume == o.volume && n2.finished == o.finished,
{
}

/// Setting the volume: a value within 0..=100 is taken as it is, a lower one gives 0 and a
/// higher one 100; mpv is told the same volume the state records, and playback is untouched.
pub proof fn lemma_set_volume_takes_value(o: PlayerState, v: i64, n: PlayerState, op: MpvOp)
    requires
        command_post(o, PlayerCommand::SetVolume(v), n, op),
    ensures
        0 <= v <= 100 ==> n.volume == v,
        v < 0 ==> n.volume == 0,
        v > 100 ==> n.volume == 100,
        op matches MpvOp::SetVolume(x) && x == n.volume,
        n.playing == o.playing && n.paused == o.paused && n.finished == o.finished,
{
}

/// Playing a URL loads exactly that URL and leaves the player playing, unpaused and not
/// finished, at the same volume.
pub proof fn lemma_play_loads_url(o: PlayerState, url: String, n: PlayerState, op: MpvOp)
    requires
        command_post(o, PlayerCommand::Play(url), n, op),
    ensures
        op matches MpvOp::LoadFile(u) && u@ == url@,
        n.playing && !n.paused && !n.finished,
        n.volume == o.volume,
{
}

} // verus!

//! How the external player is started and watched.
use vstd::prelude::*;

use crate::text::owned;

verus! {

/// The texts of a list of strings.
pub open spec fn strings_view(v: Seq<String>) -> Seq<Seq<char>> {
    v.map_values(|s: String| s@)
}

/// The command-line arguments of mpv: the IPC socket, a window even for
/// audio, no terminal output, the Wayland Vulkan context when running under
/// Wayland, the URL, and the start position when there is one.
pub open spec fn mpv_args_text(
    socket_path: Seq<char>,
    wayland: bool,
    url: Seq<char>,
    start_position: Option<Seq<char>>,
) -> Seq<Seq<char>> {
    let head = seq!["--input-ipc-server="@ + socket_path, "--force-window=yes"@, "--terminal=no"@];
    let with_gpu = if wayland {
        head.push("--gpu-context=waylandvk"@)
    } else {
        head
    };
    let with_url = with_gpu.push(url);
    match start_position {
        Some(p) => with_url.push("--start="@ + p),
        None => with_url,
    }
}

fn push_arg(args: &mut Vec<String>, arg: String)
    ensures
        strings_view(final(args)@) == strings_view(old(args)@).push(arg@),
{
    args.push(arg);
    assert(strings_view(args@) =~= strings_view(old(args)@).push(arg@));
}

/// The arguments mpv is started with; `start_position` is the position in
/// seconds, as text, to start at (given only when it is past the start).
pub fn mpv_args(socket_path: &str, wayland: bool, url: &str, start_position: Option<&str>) -> (res: Vec<String>)
    ensures
        strings_view(res@) == mpv_args_text(
            socket_path@,
            wayland,
            url@,
            match start_position {
                Some(p) => Some(p@),
                None => None,
            },
        ),
{
    let mut args: Vec<String> = Vec::new();
    assert(strings_view(args@) =~= Seq::<Seq<char>>::empty());
    let mut ipc = owned("--input-ipc-server=");
    ipc.append(socket_path);
    push_arg(&mut args, ipc);
    push_arg(&mut args, owned("--force-window=yes"));
    push_arg(&mut args, owned("--terminal=no"));
    if wayland {
        push_arg(&mut args, owned("--gpu-context=waylandvk"));
    }
    push_arg(&mut args, owned(url));
    match start_position {
        Some(p) => {
            let mut start = owned("--start=");
            start.append(p);
            push_arg(&mut args, start);
        },
        None => {},
    }
    args
}

/// What reading the playback position from the player gave.
#[derive(Debug, Clone, Copy, PartialEq, Eq, Structural)]
pub enum PositionRead {
    /// A position was read.
    Read,
    /// The player answered with an error: playback is over.
    Failed,
    /// The player did not answer in time.
    TimedOut,
}

/// What the playback monitor does next.
#[derive(Debug, Clone, Copy, PartialEq, Eq, Structural)]
pub enum MonitorStep {
    /// Report the position and keep watching.
    Report,
    /// Report that playback finished and stop watching.
    Finish,
    /// Report an error and stop watching.
    Fail,
}

/// The monitor's next step after reading the position: report it, or end
/// with "finished" when the player refused, or with an error on a time-out.
pub fn monitor_step(read: PositionRead) -> (res: MonitorStep)
    ensures
        read == PositionRead::Read ==> res == MonitorStep::Report,
        read == PositionRead::Failed ==> res == MonitorStep::Finish,
        read == PositionRead::TimedOut ==> res == MonitorStep::Fail,
{
    match read {
        PositionRead::Read => MonitorStep::Report,
        PositionRead::Failed => MonitorStep::Finish,
        PositionRead::TimedOut => MonitorStep::Fail,
    }
}

/// The error reported when the player's socket refused the connection.
pub fn connect_failed_text(reason: &str) -> (res: String)
    ensures
        res@ == "Failed to connect to MPV: "@ + reason@,
{
    let mut s = owned("Failed to connect to MPV: ");
    s.append(reason);
    s
}

/// The error reported when connecting to the player timed out.
pub fn connect_timeout_text() -> (res: String)
    ensures
        res@ == "Timed out while connecting to MPV"@,
{
    owned("Timed out while connecting to MPV")
}

/// The error reported when reading the playback state timed out.
pub fn read_timeout_text() -> (res: String)
    ensures
        res@ == "Timed out while reading playback state from MPV"@,
{
    owned("Timed out while reading playback state from MPV")
}

/// The error reported when the player's socket did not appear in time.
pub fn socket_timeout_text(socket_path: &str) -> (res: String)
    ensures
        res@ == "Timed out waiting for MPV IPC socket at "@ + socket_path@,
{
    let mut s = owned("Timed out waiting for MPV IPC socket at ");
    s.append(socket_path);
    s
}

/// The error shown when the player reported a failure.
pub fn player_error_text(message: &str, log_path: &str) -> (res: String)
    ensures
        res@ == "Player error: "@ + message@ + ". MPV log: "@ + log_path@,
{
    let mut s = owned("Player error: ");
    s.append(message);
    s.append(". MPV log: ");
    s.append(log_path);
    s
}

/// The error shown when the player could not be started.
pub fn start_error_text(reason: &str, log_path: &str) -> (res: String)
    ensures
        res@ == "Failed to start player: "@ + reason@ + ". MPV log: "@ + log_path@,
{
    let mut s = owned("Failed to start player: ");
    s.append(reason);
    s.append(". MPV log: ");
    s.append(log_path);
    s
}

} // verus!

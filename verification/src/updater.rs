//! Installing an update: where the unpacked package's binaries are, how
//! the updater is started, and how long it waits for the old program to
//! let go of its binary.
use vstd::prelude::*;
use crate::paths::{join_of, join};

verus! {

/// The longest the updater waits for the old binary's lock (30 s).
pub const MAX_WAIT_MS: u64 = 30000;

/// The pause between two looks at the old binary's lock (100 ms).
pub const WAIT_INTERVAL_MS: u64 = 100;

/// The names of the updater and of the main program on a platform.
pub open spec fn binary_names(windows: bool) -> (Seq<char>, Seq<char>) {
    if windows {
        ("kerr-updater.exe"@, "kerr.exe"@)
    } else {
        ("kerr-updater"@, "kerr"@)
    }
}

/// Where an update is unpacked and where its binaries are.
#[derive(Debug)]
pub struct UpdateLayout {
    pub extract_dir: String,
    pub new_updater: String,
    pub new_main: String,
    pub main_name: String,
}

/// The layout of an update unpacked in the download directory
/// `download_dir`: the `extracted` directory and, in it, the two binaries.
pub fn update_layout(download_dir: &str, windows: bool) -> (l: UpdateLayout)
    ensures
        l.extract_dir@ == join_of(download_dir@, "extracted"@),
        l.new_updater@ == join_of(l.extract_dir@, binary_names(windows).0),
        l.new_main@ == join_of(l.extract_dir@, binary_names(windows).1),
        l.main_name@ == binary_names(windows).1,
{
    let (updater, main) = if windows { ("kerr-updater.exe", "kerr.exe") } else { ("kerr-updater", "kerr") };
    let extract_dir = join(download_dir, "extracted");
    let new_updater = join(extract_dir.as_str(), updater);
    let new_main = join(extract_dir.as_str(), main);
    UpdateLayout { extract_dir, new_updater, new_main, main_name: main.to_owned() }
}

/// The updater's location beside the running program's binary.
pub fn updater_path(exe_dir: &str, windows: bool) -> (r: String)
    ensures
        r@ == join_of(exe_dir@, binary_names(windows).0),
{
    let name = if windows { "kerr-updater.exe" } else { "kerr-updater" };
    join(exe_dir, name)
}

/// The arguments the updater is started with: the binary to replace, the
/// program's name, and the new binary.
pub fn updater_args(current_exe: &str, layout: &UpdateLayout) -> (r: Vec<String>)
    ensures
        r@.len() == 3,
        r@[0]@ == current_exe@,
        r@[1]@ == layout.main_name@,
        r@[2]@ == layout.new_main@,
{
    let mut r: Vec<String> = Vec::new();
    r.push(current_exe.to_owned());
    r.push(layout.main_name.clone());
    r.push(layout.new_main.clone());
    r
}

/// What a look at the old binary found.
#[derive(Clone, Copy, Debug, PartialEq, Eq, Structural)]
pub enum LockProbe {
    /// The lock could be taken: the old program is gone.
    Released,
    /// The binary is still locked.
    Held,
    /// The system refused to open the binary (it is still running).
    Denied,
    /// Another error: the replacement is tried anyway.
    Failed,
}

/// What the updater does after a look at the old binary.
#[derive(Clone, Copy, Debug, PartialEq, Eq, Structural)]
pub enum WaitStep {
    /// Go on with the replacement (`timed_out` when the wait ran out).
    Proceed { timed_out: bool },
    /// Sleep one interval and look again.
    Sleep,
}

/// The updater's decision after waiting `waited_ms` and finding `probe`.
pub open spec fn wait_step_of(waited_ms: u64, probe: LockProbe) -> WaitStep {
    match probe {
        LockProbe::Released => WaitStep::Proceed { timed_out: false },
        LockProbe::Failed => WaitStep::Proceed { timed_out: false },
        _ => if waited_ms >= MAX_WAIT_MS {
            WaitStep::Proceed { timed_out: true }
        } else {
            WaitStep::Sleep
        },
    }
}

/// Decides the next step of the wait for the old binary.
pub fn wait_step(waited_ms: u64, probe: LockProbe) -> (s: WaitStep)
    ensures
        s == wait_step_of(waited_ms, probe),
{
    match probe {
        LockProbe::Released => WaitStep::Proceed { timed_out: false },
        LockProbe::Failed => WaitStep::Proceed { timed_out: false },
        _ => {
            if waited_ms >= MAX_WAIT_MS {
                WaitStep::Proceed { timed_out: true }
            } else {
                WaitStep::Sleep
            }
        },
    }
}

/// The time waited after one more interval, and whether a progress dot
/// is printed (once a second).
pub fn after_sleep(waited_ms: u64) -> (r: (u64, bool))
    requires
        waited_ms < MAX_WAIT_MS,
    ensures
        r.0 == waited_ms + WAIT_INTERVAL_MS,
        r.1 == (r.0 % 1000 == 0),
{
    let w = waited_ms + WAIT_INTERVAL_MS;
    (w, w % 1000 == 0)
}

/// The wait is bounded: it sleeps only while less than the maximum has
/// been waited, so starting from nothing it sleeps at most 300 times.
pub proof fn law_wait_is_bounded(waited_ms: u64, probe: LockProbe)
    ensures
        wait_step_of(waited_ms, probe) == WaitStep::Sleep ==> waited_ms < MAX_WAIT_MS,
        waited_ms >= MAX_WAIT_MS ==> wait_step_of(waited_ms, probe) != WaitStep::Sleep,
        MAX_WAIT_MS / WAIT_INTERVAL_MS == 300,
{
}

/// The updater's arguments, when there are enough: the binary to replace,
/// the program's name and the new binary (after the updater's own path).
pub fn parse_updater_args(args: &Vec<String>) -> (r: Option<(String, String, String)>)
    ensures
        args@.len() < 4 ==> r is None,
        args@.len() >= 4 ==> (r matches Some((a, b, c))
            && a@ == args@[1]@ && b@ == args@[2]@ && c@ == args@[3]@),
{
    if args.len() < 4 {
        None
    } else {
        Some((args[1].clone(), args[2].clone(), args[3].clone()))
    }
}

} // verus!

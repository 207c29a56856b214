//! The binary locator's decision logic.
//!
//! Each platform has an ordered candidate list of installation locations.
//! An explicit, existing path wins; otherwise the first candidate present
//! on disk is taken; otherwise the bare executable name is left to the
//! normal program search path.  Probing the disk is the embedding
//! application's business: it reports which paths exist and the choice is
//! made here.

use vstd::prelude::*;

verus! {

/// The platform the orchestrator runs on, as far as the candidate lists
/// and the termination capability care.
#[derive(Debug, Clone, Copy, PartialEq, Eq, Structural)]
pub enum Platform {
    Windows,
    Linux,
    MacOs,
}

/// The ordered candidate locations of the primary player's executable.
pub open spec fn mpv_candidates_spec(p: Platform) -> Seq<Seq<char>> {
    match p {
        Platform::Windows => seq![
            "C:\\Program Files\\mpv\\mpv.exe"@,
            "C:\\Program Files (x86)\\mpv\\mpv.exe"@,
        ],
        Platform::Linux => seq!["/usr/bin/mpv"@, "/usr/local/bin/mpv"@, "/snap/bin/mpv"@],
        Platform::MacOs => seq![
            "/Applications/mpv.app/Contents/MacOS/mpv"@,
            "/opt/homebrew/bin/mpv"@,
            "/usr/local/bin/mpv"@,
        ],
    }
}

/// The ordered candidate locations of the secondary player's executable.
pub open spec fn vlc_candidates_spec(p: Platform) -> Seq<Seq<char>> {
    match p {
        Platform::Windows => seq![
            "C:\\Program Files\\VideoLAN\\VLC\\vlc.exe"@,
            "C:\\Program Files (x86)\\VideoLAN\\VLC\\vlc.exe"@,
        ],
        Platform::Linux => seq!["/usr/bin/vlc"@, "/usr/local/bin/vlc"@, "/snap/bin/vlc"@],
        Platform::MacOs => seq![
            "/Applications/VLC.app/Contents/MacOS/VLC"@,
            "/opt/homebrew/bin/vlc"@,
            "/usr/local/bin/vlc"@,
        ],
    }
}

/// Whether the platform can send a termination signal to a process by
/// identifier.
pub open spec fn can_signal_spec(p: Platform) -> bool {
    match p {
        Platform::Windows => false,
        Platform::Linux => true,
        Platform::MacOs => true,
    }
}

/// Whether this platform can terminate a process by identifier.
pub fn platform_can_signal(p: Platform) -> (r: bool)
    ensures
        r == can_signal_spec(p),
{
    match p {
        Platform::Windows => false,
        Platform::Linux => true,
        Platform::MacOs => true,
    }
}

/// The candidate locations of the primary player on `p`, in probe order.
pub fn mpv_candidates(p: Platform) -> (r: Vec<String>)
    ensures
        r@.map_values(|s: String| s@) == mpv_candidates_spec(p),
{
    let mut out: Vec<String> = Vec::new();
    match p {
        Platform::Windows => {
            out.push("C:\\Program Files\\mpv\\mpv.exe".to_string());
            out.push("C:\\Program Files (x86)\\mpv\\mpv.exe".to_string());
        },
        Platform::Linux => {
            out.push("/usr/bin/mpv".to_string());
            out.push("/usr/local/bin/mpv".to_string());
            out.push("/snap/bin/mpv".to_string());
        },
        Platform::MacOs => {
            out.push("/Applications/mpv.app/Contents/MacOS/mpv".to_string());
            out.push("/opt/homebrew/bin/mpv".to_string());
            out.push("/usr/local/bin/mpv".to_string());
        },
    }
    proof {
        assert(out@.map_values(|s: String| s@) =~= mpv_candidates_spec(p));
    }
    out
}

/// The candidate locations of the secondary player on `p`, in probe order.
pub fn vlc_candidates(p: Platform) -> (r: Vec<String>)
    ensures
        r@.map_values(|s: String| s@) == vlc_candidates_spec(p),
{
    let mut out: Vec<String> = Vec::new();
    match p {
        Platform::Windows => {
            out.push("C:\\Program Files\\VideoLAN\\VLC\\vlc.exe".to_string());
            out.push("C:\\Program Files (x86)\\VideoLAN\\VLC\\vlc.exe".to_string());
        },
        Platform::Linux => {
            out.push("/usr/bin/vlc".to_string());
            out.push("/usr/local/bin/vlc".to_string());
            out.push("/snap/bin/vlc".to_string());
        },
        Platform::MacOs => {
            out.push("/Applications/VLC.app/Contents/MacOS/VLC".to_string());
            out.push("/opt/homebrew/bin/vlc".to_string());
            out.push("/usr/local/bin/vlc".to_string());
        },
    }
    proof {
        assert(out@.map_values(|s: String| s@) =~= vlc_candidates_spec(p));
    }
    out
}

/// Picks the executable to spawn.
///
/// `explicit` is the caller-supplied path and `explicit_exists` whether it
/// is present on disk; `on_disk[i]` reports whether `candidates[i]` is.  A
/// non-empty, existing explicit path wins; otherwise the first candidate
/// present on disk; otherwise the bare `fallback` name, to be resolved by
/// the normal program search path.
pub fn resolve_binary(
    explicit: &String,
    explicit_exists: bool,
    candidates: &Vec<String>,
    on_disk: &Vec<bool>,
    fallback: &str,
) -> (r: String)
    requires
        candidates@.len() == on_disk@.len(),
    ensures
        explicit@.len() > 0 && explicit_exists ==> r@ == explicit@,
        !(explicit@.len() > 0 && explicit_exists) ==> {
            ||| exists|i: int|
                #![trigger on_disk@[i]]
                0 <= i < on_disk@.len() && on_disk@[i] && r@ == candidates@[i]@ && (forall|j: int|
                    0 <= j < i ==> !on_disk@[j])
            ||| (forall|i: int| 0 <= i < on_disk@.len() ==> !on_disk@[i]) && r@ == fallback@
        },
{
    if !explicit.as_str().is_empty() && explicit_exists {
        return explicit.clone();
    }
    let n = candidates.len();
    let mut i: usize = 0;
    while i < n
        invariant
            n == candidates@.len(),
            n == on_disk@.len(),
            i <= n,
            !(explicit@.len() > 0 && explicit_exists),
            forall|j: int| 0 <= j < i ==> !on_disk@[j],
        decreases n - i,
    {
        if on_disk[i] {
            return candidates[i].clone();
        }
        i += 1;
    }
    fallback.to_string()
}

} // verus!

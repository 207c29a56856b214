//! The control-channel protocol: the well-known endpoint and the one
//! directive the orchestrator ever issues over it.
//!
//! The directive asks the running instance to load the given media,
//! replacing whatever is current.  It is written newline-terminated; no
//! response is read.  Connecting and writing are the embedding
//! application's business.

use vstd::prelude::*;
use vstd::string::StringExecFns;

verus! {

/// The text of the replace-media directive for `url`, without the
/// terminating newline.
pub open spec fn load_directive_spec(url: Seq<char>) -> Seq<char> {
    "{\"command\": [\"loadfile\", \""@ + url + "\", \"replace\"]}"@
}

/// The well-known filesystem path of the local control endpoint.
pub fn control_endpoint() -> (r: &'static str)
    ensures
        r@ == "/tmp/mpv-socket"@,
{
    "/tmp/mpv-socket"
}

/// Builds the replace-media directive for `url`.
pub fn load_directive(url: &String) -> (r: String)
    ensures
        r@ == load_directive_spec(url@),
{
    let mut s = "{\"command\": [\"loadfile\", \"".to_string();
    s.append(url.as_str());
    s.append("\", \"replace\"]}");
    s
}

/// The command-line arguments a fresh player instance is spawned with:
/// idle start, forced window creation, the control endpoint attached at the
/// well-known path, and the media resource itself.
pub open spec fn spawn_args_spec(url: Seq<char>) -> Seq<Seq<char>> {
    seq![
        "--idle=yes"@,
        "--force-window=yes"@,
        "--input-ipc-server=/tmp/mpv-socket"@,
        url,
    ]
}

/// Builds the argument list a fresh player instance is spawned with.
pub fn spawn_args(url: &String) -> (r: Vec<String>)
    ensures
        r@.map_values(|s: String| s@) == spawn_args_spec(url@),
{
    let mut args: Vec<String> = Vec::new();
    args.push("--idle=yes".to_string());
    args.push("--force-window=yes".to_string());
    args.push("--input-ipc-server=/tmp/mpv-socket".to_string());
    args.push(url.clone());
    proof {
        assert(args@.map_values(|s: String| s@) =~= spawn_args_spec(url@));
    }
    args
}

} // verus!

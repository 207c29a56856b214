//! The secondary, fire-and-forget launch path.
//!
//! A parallel launch operation for a different external player resolves a
//! binary the same way as the primary path, optionally appends header-style
//! arguments, and reports around the spawn attempt.  It registers nothing
//! and tracks no exit.  The argument list and the launch reports are
//! decided here; the spawn itself is the embedding application's business.

use vstd::prelude::*;
use vstd::string::StringExecFns;
use crate::events::PlayerEvent;

verus! {

/// The header-style argument derived from one optional header value:
/// present and non-empty yields one `prefix`-joined argument, anything
/// else yields none.
pub open spec fn header_arg(prefix: Seq<char>, v: Option<Seq<char>>) -> Seq<Seq<char>> {
    match v {
        Some(s) => if s.len() > 0 {
            seq![prefix + s]
        } else {
            Seq::empty()
        },
        None => Seq::empty(),
    }
}

/// The full argument list of the secondary player: the media resource,
/// then the user-agent header argument if one was supplied, then the
/// referer header argument if one was supplied.
pub open spec fn vlc_args_spec(
    url: Seq<char>,
    user_agent: Option<Seq<char>>,
    referer: Option<Seq<char>>,
) -> Seq<Seq<char>> {
    seq![url] + header_arg("--http-user-agent="@, user_agent) + header_arg(
        "--http-referrer="@,
        referer,
    )
}

/// The diagnostic produced when the secondary player's spawn fails, built
/// from the operating-system error text.
pub open spec fn vlc_failure_message(error: Seq<char>) -> Seq<char> {
    "Failed to launch VLC: "@ + error
}

/// Builds the secondary player's argument list.
pub fn vlc_args(url: &String, user_agent: &Option<String>, referer: &Option<String>) -> (r: Vec<
    String,
>)
    ensures
        r@.map_values(|s: String| s@) == vlc_args_spec(
            url@,
            user_agent.deep_view(),
            referer.deep_view(),
        ),
{
    let mut args: Vec<String> = Vec::new();
    args.push(url.clone());
    match user_agent {
        Some(ua) => if !ua.as_str().is_empty() {
            let mut a = "--http-user-agent=".to_string();
            a.append(ua.as_str());
            args.push(a);
        },
        None => {},
    }
    match referer {
        Some(re) => if !re.as_str().is_empty() {
            let mut a = "--http-referrer=".to_string();
            a.append(re.as_str());
            args.push(a);
        },
        None => {},
    }
    proof {
        assert(args@.map_values(|s: String| s@) =~= vlc_args_spec(
            url@,
            user_agent.deep_view(),
            referer.deep_view(),
        ));
    }
    args
}

/// Turns the outcome of the secondary player's spawn attempt into the
/// report that is due: a "launched" report when the spawn succeeded, and
/// an error report carrying the launch failure message when it did not.
pub fn vlc_spawn_report(spawn_error: Option<String>) -> (r: PlayerEvent)
    ensures
        spawn_error matches Option::None ==> (r matches PlayerEvent::Launched(tag) && tag@
            == "VLC"@),
        spawn_error matches Option::Some(error) ==> (r matches PlayerEvent::Error(message)
            && message@ == vlc_failure_message(error@)),
{
    match spawn_error {
        None => PlayerEvent::Launched("VLC".to_string()),
        Some(error) => {
            let mut message = "Failed to launch VLC: ".to_string();
            message.append(error.as_str());
            PlayerEvent::Error(message)
        },
    }
}

} // verus!

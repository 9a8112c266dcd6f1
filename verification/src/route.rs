//! Request routing of the control surface.
//!
//! The control surface receives operator commands as request paths and
//! republishes them as top-level state-machine restarts.  This module
//! decides, from the path alone, which command a request carries, what
//! the response says, and which animation state a command seeds; the
//! network listener around it only moves requests and responses.

use vstd::prelude::*;
use vstd::string::StrSliceExecFns;
use vstd::string::StringExecFns;
use crate::colour::BRIGHTNESS_SCALE;
use crate::lighting::{Mode, State, spec_state_wf};

verus! {

/// Compare two strings character by character.
pub fn str_eq(a: &str, b: &str) -> (r: bool)
    ensures
        r == (a@ == b@),
{
    let la = a.unicode_len();
    let lb = b.unicode_len();
    if la != lb {
        return false;
    }
    let mut i: usize = 0;
    while i < la
        invariant
            i <= la,
            la == a@.len(),
            lb == b@.len(),
            la == lb,
            forall|j: int| 0 <= j < i ==> a@[j] == b@[j],
        decreases la - i,
    {
        if a.get_char(i) != b.get_char(i) {
            return false;
        }
        i = i + 1;
    }
    proof {
        assert(a@ =~= b@);
    }
    true
}

/// What a request asks for.
#[derive(Clone, Copy, Debug, PartialEq, Eq, Structural)]
pub enum Route {
    /// Begin a fade toward On.
    StartOn,
    /// Begin a fade toward Off.
    StartOff,
    /// Acknowledged but deliberately without effect: no reviewed variant
    /// of the control surface ever halted the supervisor here.
    Stop,
    /// The static landing page.
    Index,
    /// Anything else.
    NotFound,
}

/// Which route a request path selects.
pub open spec fn spec_route(p: Seq<char>) -> Route {
    if p == "/start_on"@ {
        Route::StartOn
    } else if p == "/start_off"@ {
        Route::StartOff
    } else if p == "/stop"@ {
        Route::Stop
    } else if p == "/"@ {
        Route::Index
    } else {
        Route::NotFound
    }
}

/// Decide the route of a request path.
pub fn route(path: &str) -> (r: Route)
    ensures
        r == spec_route(path@),
{
    if str_eq(path, "/start_on") {
        Route::StartOn
    } else if str_eq(path, "/start_off") {
        Route::StartOff
    } else if str_eq(path, "/stop") {
        Route::Stop
    } else if str_eq(path, "/") {
        Route::Index
    } else {
        Route::NotFound
    }
}

/// The status code of a route's response: not-found for unknown paths,
/// success everywhere else.
pub fn route_status(r: &Route) -> (status: u16)
    ensures
        status == (match r {
            Route::NotFound => 404u16,
            _ => 200u16,
        }),
{
    match r {
        Route::NotFound => 404,
        _ => 200,
    }
}

/// The response body of a route, except the landing page, whose static
/// text the shell owns.
pub fn route_body(r: &Route) -> (body: Option<String>)
    ensures
        match r {
            Route::StartOn => body matches Some(s) && s@ == "Starting: ON"@,
            Route::StartOff => body matches Some(s) && s@ == "Starting: OFF"@,
            Route::Stop => body matches Some(s) && s@ == "Stopped state machine"@,
            Route::NotFound => body matches Some(s) && s@ == "Not found"@,
            Route::Index => body is None,
        },
{
    match r {
        Route::StartOn => Some(String::from_str("Starting: ON")),
        Route::StartOff => Some(String::from_str("Starting: OFF")),
        Route::Stop => Some(String::from_str("Stopped state machine")),
        Route::NotFound => Some(String::from_str("Not found")),
        Route::Index => None,
    }
}

/// The state-machine restart a route publishes: the start commands seed
/// a full-ramp fade toward their mode; every other route publishes
/// nothing.
pub fn route_command(r: &Route) -> (cmd: Option<State>)
    ensures
        match r {
            Route::StartOn => cmd matches Some(s) && s == State::Fading(Mode::On, BRIGHTNESS_SCALE),
            Route::StartOff => cmd matches Some(s) && s == State::Fading(
                Mode::Off,
                BRIGHTNESS_SCALE,
            ),
            _ => cmd is None,
        },
        cmd matches Some(s) ==> spec_state_wf(s),
{
    match r {
        Route::StartOn => Some(State::Fading(Mode::On, BRIGHTNESS_SCALE)),
        Route::StartOff => Some(State::Fading(Mode::Off, BRIGHTNESS_SCALE)),
        _ => None,
    }
}

} // verus!

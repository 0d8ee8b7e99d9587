//! Talking to Hyprland: where its sockets are, the commands written to its
//! control socket, and the reading of its event socket.

use vstd::prelude::*;
use crate::text::push_char;
use crate::hyprland::event::{parse_event, HyprEvent, HyprEventView, ParseEventError, ParseEventErrorView};

verus! {

broadcast use vstd::string::group_string_axioms;

/// The directory of a Hyprland instance's sockets:
/// `<runtime dir>/hypr/<instance signature>`.
pub open spec fn instance_dir(runtime_dir: Seq<char>, his: Seq<char>) -> Seq<char> {
    runtime_dir + "/hypr/"@ + his
}

/// The paths of the control socket (`.socket.sock`) and of the event socket
/// (`.socket2.sock`) of the Hyprland instance with signature `his`.
pub fn socket_paths(runtime_dir: &str, his: &str) -> (r: (String, String))
    ensures
        r.0@ == instance_dir(runtime_dir@, his@) + "/.socket.sock"@,
        r.1@ == instance_dir(runtime_dir@, his@) + "/.socket2.sock"@,
{
    let mut dir = runtime_dir.to_owned();
    dir.append("/hypr/");
    dir.append(his);
    let control = dir.clone().concat("/.socket.sock");
    let events = dir.concat("/.socket2.sock");
    (control, events)
}

/// The request that evaluates the Lua text `lua`: `eval <lua>` and a NUL.
pub fn eval_command(lua: &str) -> (r: String)
    ensures
        r@ == "eval "@ + lua@ + seq!['\0'],
{
    let mut r = "eval ".to_owned().concat(lua);
    push_char(&mut r, '\0');
    r
}

/// The request that dispatches `dsp`: `dispatch <dsp>` and a NUL.
pub fn dispatch_command(dsp: &str) -> (r: String)
    ensures
        r@ == "dispatch "@ + dsp@ + seq!['\0'],
{
    let mut r = "dispatch ".to_owned().concat(dsp);
    push_char(&mut r, '\0');
    r
}

/// The meaning of reading one line of the event socket: nothing at its end,
/// else the line parsed as an event.
pub open spec fn line_event(line: Option<Seq<char>>) -> Result<Option<HyprEventView>, ParseEventErrorView> {
    match line {
        None => Ok(None),
        Some(l) => match parse_event(l) {
            Ok(e) => Ok(Some(e)),
            Err(e) => Err(e),
        },
    }
}

/// The event that a line read from the event socket holds; `None` at the
/// end of the stream.
pub fn wait_event(line: Option<String>) -> (r: Result<Option<HyprEvent>, ParseEventError>)
    ensures
        line_event(
            match line {
                Some(l) => Some(l@),
                None => None,
            },
        ) == match r {
            Ok(Some(e)) => Ok(Some(e@)),
            Ok(None) => Ok(None),
            Err(e) => Err(e@),
        },
{
    match line {
        None => Ok(None),
        Some(l) => match HyprEvent::from_str(l.as_str()) {
            Ok(e) => Ok(Some(e)),
            Err(e) => Err(e),
        },
    }
}

} // verus!

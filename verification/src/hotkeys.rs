//! Global shortcuts: parsing the configured shortcuts and deciding what a key
//! event means.
use vstd::prelude::*;
use global_hotkey::hotkey::HotKey;

verus! {

#[verifier::external_type_specification]
#[verifier::external_body]
pub struct ExHotKey(HotKey);

/// What global-hotkey's `HotKey::from_str` makes of `shortcut`: the id that key
/// events of the parsed hotkey carry (`HotKey::id`, computed from the parsed
/// modifiers and key alone), or the message of the parse error it returns.
pub uninterp spec fn hotkey_parse(shortcut: Seq<char>) -> Result<u32, Seq<char>>;

/// `HotKey::from_str` (global-hotkey) on a shortcut such as
/// `CommandOrControl+Shift+Space`. The parsed hotkey is handed out with its
/// event id (read with `HotKey::id`), and a parse error as its message
/// (`to_string`). The contract claims that both depend on the text alone (named
/// by `hotkey_parse`) and that an empty shortcut is refused (an empty token is
/// no key). Which key an accepted shortcut denotes is not stated: the value is
/// opaque here.
#[verifier::external_body]
fn parse_hotkey(shortcut: &str) -> (parsed: Result<(HotKey, u32), String>)
    ensures
        match hotkey_parse(shortcut@) {
            Ok(id) => parsed matches Ok((_, i)) && i == id,
            Err(message) => parsed matches Err(e) && e@ == message,
        },
        shortcut@.len() == 0 ==> parsed is Err,
{
    match shortcut.parse::<HotKey>() {
        Ok(hotkey) => Ok((hotkey, hotkey.id())),
        Err(error) => Err(error.to_string()),
    }
}

/// The two configured global shortcuts, with the ids their events carry.
pub struct Shortcuts {
    pub transcribe: HotKey,
    pub cancel: HotKey,
    pub transcribe_id: u32,
    pub cancel_id: u32,
}

/// Whether `s` begins with `prefix`.
pub open spec fn starts_with(s: Seq<char>, prefix: Seq<char>) -> bool {
    s.len() >= prefix.len() && s.take(prefix.len() as int) == prefix
}

/// What a global shortcut asks for.
#[derive(Clone, Copy, Debug, PartialEq, Eq, Structural)]
pub enum HotkeyAction {
    Transcribe,
    Cancel,
}

/// The shortcuts from the two parse results (each hotkey with its event id),
/// the push-to-talk one first: the first failure is reported, prefixed with the
/// shortcut it concerns.
pub fn shortcuts_from(transcribe: Result<(HotKey, u32), String>, cancel: Result<(HotKey, u32), String>) -> (res: Result<Shortcuts, String>)
    ensures
        match (transcribe, cancel) {
            (Err(m), _) => res matches Err(e) && e@ == "invalid transcribe shortcut: "@ + m@,
            (Ok(_), Err(m)) => res matches Err(e) && e@ == "invalid cancel shortcut: "@ + m@,
            (Ok((t, tid)), Ok((c, cid))) => res matches Ok(s) && s.transcribe == t && s.cancel == c
                && s.transcribe_id == tid && s.cancel_id == cid,
        },
{
    let (transcribe_key, transcribe_id) = match transcribe {
        Ok(k) => k,
        Err(error) => {
            let mut message = String::from_str("invalid transcribe shortcut: ");
            message.append(error.as_str());
            return Err(message);
        },
    };
    let (cancel_key, cancel_id) = match cancel {
        Ok(k) => k,
        Err(error) => {
            let mut message = String::from_str("invalid cancel shortcut: ");
            message.append(error.as_str());
            return Err(message);
        },
    };
    Ok(Shortcuts { transcribe: transcribe_key, cancel: cancel_key, transcribe_id, cancel_id })
}

/// Parses the configured shortcuts, the push-to-talk one first. The error names
/// the shortcut that failed, followed by the parser's message; on success each
/// shortcut carries the event id of its own parse.
pub fn parse_shortcuts(transcribe: &str, cancel: &str) -> (res: Result<Shortcuts, String>)
    ensures
        match (hotkey_parse(transcribe@), hotkey_parse(cancel@)) {
            (Err(m), _) => res matches Err(e) && e@ == "invalid transcribe shortcut: "@ + m,
            (Ok(_), Err(m)) => res matches Err(e) && e@ == "invalid cancel shortcut: "@ + m,
            (Ok(tid), Ok(cid)) => res matches Ok(s) && s.transcribe_id == tid && s.cancel_id == cid,
        },
        transcribe@.len() == 0 ==> (res matches Err(e) && starts_with(e@, "invalid transcribe shortcut: "@)),
        cancel@.len() == 0 ==> res is Err,
{
    let t = parse_hotkey(transcribe);
    let c = parse_hotkey(cancel);
    let res = shortcuts_from(t, c);
    proof {
        if transcribe@.len() == 0 {
            let m = hotkey_parse(transcribe@)->Err_0;
            assert(("invalid transcribe shortcut: "@ + m).take("invalid transcribe shortcut: "@.len() as int)
                =~= "invalid transcribe shortcut: "@);
        }
    }
    res
}

/// What a key event means: a press of the push-to-talk shortcut toggles
/// recording, a press of the cancel shortcut cancels, anything else is ignored.
pub fn action_for_event(shortcuts: &Shortcuts, pressed: bool, event_id: u32) -> (action: Option<HotkeyAction>)
    ensures
        !pressed ==> action is None,
        pressed && event_id == shortcuts.transcribe_id ==> action == Some(HotkeyAction::Transcribe),
        pressed && event_id != shortcuts.transcribe_id && event_id == shortcuts.cancel_id ==> action == Some(
            HotkeyAction::Cancel,
        ),
        pressed && event_id != shortcuts.transcribe_id && event_id != shortcuts.cancel_id ==> action is None,
{
    if !pressed {
        return None;
    }
    if event_id == shortcuts.transcribe_id {
        Some(HotkeyAction::Transcribe)
    } else if event_id == shortcuts.cancel_id {
        Some(HotkeyAction::Cancel)
    } else {
        None
    }
}

} // verus!

//! The recording hotkey: one trigger for each time the key goes down.

use vstd::prelude::*;

verus! {

/// What the key did.
#[derive(Clone, Copy, Debug, PartialEq, Eq, Structural)]
pub enum HotKeyState {
    /// It went down, or is held down and repeats.
    Pressed,
    /// It came up.
    Released,
}

/// Whether the key is down after it did `event`.
pub open spec fn down_after(event: HotKeyState) -> bool {
    event is Pressed
}

/// Whether the key is down after a run of events.
pub open spec fn down_after_all(down: bool, events: Seq<HotKeyState>) -> bool {
    if events.len() == 0 {
        down
    } else {
        down_after(events.last())
    }
}

/// Whether event `i` of a run triggers: the key goes down, and was up before.
pub open spec fn triggers(down: bool, events: Seq<HotKeyState>, i: int) -> bool {
    events[i] is Pressed && !down_after_all(down, events.take(i))
}

/// The hotkey of a host.
pub struct RecordingHotkey {
    installed: bool,
    error: Option<String>,
    down: bool,
}

/// What a hotkey holds.
pub struct HotkeyView {
    /// Whether the host listens to the key.
    pub installed: bool,
    /// Why it does not.
    pub error: Option<Seq<char>>,
    /// Whether the key is down.
    pub down: bool,
}

impl View for RecordingHotkey {
    type V = HotkeyView;

    closed spec fn view(&self) -> HotkeyView {
        HotkeyView {
            installed: self.installed,
            error: crate::text::optional(self.error),
            down: self.down,
        }
    }
}

/// The id of the recording key, F8 on its own.
pub const RECORDING_KEY: u32 = 167;

/// `global_hotkey::hotkey::HotKey::new` without modifiers, and `HotKey::id`: the
/// id of a key on its own is its place among the key codes.
#[verifier::external_body]
fn hotkey_id() -> (r: u32)
    ensures
        r == RECORDING_KEY,
{
    global_hotkey::hotkey::HotKey::new(None, global_hotkey::hotkey::Code::F8).id()
}

/// What an event of key `id` means for the recording: nothing, unless the key is
/// F8.
pub fn relay(id: u32, state: HotKeyState) -> (r: Option<HotKeyState>)
    ensures
        r == if id == RECORDING_KEY {
            Some(state)
        } else {
            None
        },
{
    if id == hotkey_id() {
        Some(state)
    } else {
        None
    }
}

impl RecordingHotkey {
    /// A hotkey that the host does not listen to yet.
    pub fn new() -> (r: RecordingHotkey)
        ensures
            r@ == (HotkeyView { installed: false, error: None, down: false }),
    {
        RecordingHotkey { installed: false, error: None, down: false }
    }

    /// Takes note of how the host registered the key.
    pub fn install(&mut self, outcome: Result<(), String>)
        ensures
            final(self)@ == match outcome {
                Ok(_) => HotkeyView { installed: true, error: None, ..old(self)@ },
                Err(cause) => HotkeyView {
                    error: Some("cannot register F8 hotkey: "@ + cause@),
                    ..old(self)@
                },
            },
    {
        match outcome {
            Ok(_) => {
                self.installed = true;
                self.error = None;
            },
            Err(cause) => {
                let mut message: String = "cannot register F8 hotkey: ".to_owned();
                message.append(cause.as_str());
                self.error = Some(message);
            },
        }
    }

    /// Takes all the events that have come in, in their order: whether any of
    /// them triggers. Nothing comes in before the key is registered.
    pub fn pressed(&mut self, events: &Vec<HotKeyState>) -> (r: bool)
        ensures
            r == (old(self)@.installed && exists|i: int|
                0 <= i < events@.len() && triggers(old(self)@.down, events@, i)),
            final(self)@ == if old(self)@.installed {
                HotkeyView { down: down_after_all(old(self)@.down, events@), ..old(self)@ }
            } else {
                old(self)@
            },
    {
        let mut pressed: bool = false;
        if !self.installed {
            return false;
        }
        let mut i: usize = 0;
        while i < events.len()
            invariant
                i <= events@.len(),
                self@ == (HotkeyView {
                    down: down_after_all(old(self)@.down, events@.take(i as int)),
                    ..old(self)@
                }),
                pressed == exists|j: int| 0 <= j < i && triggers(old(self)@.down, events@, j),
            decreases events.len() - i,
        {
            let triggered: bool = self.accept(events[i]);
            assert(triggered == triggers(old(self)@.down, events@, i as int));
            if triggered {
                pressed = true;
            }
            i = i + 1;
        }
        assert(events@.take(events@.len() as int) =~= events@);
        pressed
    }

    /// Why the host does not listen to the key.
    pub fn error(&self) -> (r: Option<&str>)
        ensures
            match r {
                Some(error) => self@.error == Some(error@),
                None => self@.error is None,
            },
    {
        match &self.error {
            Some(error) => Some(error.as_str()),
            None => None,
        }
    }

    /// Takes one event: whether the key went down. A key that is held down does
    /// not trigger again before it was released.
    pub fn accept(&mut self, state: HotKeyState) -> (r: bool)
        ensures
            r == (state is Pressed && !old(self)@.down),
            final(self)@ == (HotkeyView { down: down_after(state), ..old(self)@ }),
    {
        match state {
            HotKeyState::Pressed => if !self.down {
                self.down = true;
                true
            } else {
                false
            },
            HotKeyState::Released => {
                self.down = false;
                false
            },
        }
    }
}

impl Default for RecordingHotkey {
    fn default() -> (r: RecordingHotkey)
        ensures
            r@ == (HotkeyView { installed: false, error: None, down: false }),
    {
        RecordingHotkey::new()
    }
}

/// Between two triggers the key was released.
pub proof fn triggers_once_until_released(down: bool, events: Seq<HotKeyState>, i: int, j: int)
    requires
        0 <= i < j < events.len(),
        triggers(down, events, i),
        triggers(down, events, j),
    ensures
        exists|k: int| i < k < j && events[k] is Released,
{
    let before = events.take(j);
    assert(before.last() == events[j - 1]);
    assert(events[j - 1] is Released);
    assert(j - 1 != i);
}

/// A held key that only repeats never triggers.
pub proof fn repeats_do_not_trigger(down: bool, events: Seq<HotKeyState>, i: int)
    requires
        0 <= i < events.len(),
        forall|k: int| 0 <= k < events.len() ==> #[trigger] events[k] is Pressed,
        i > 0 || down,
    ensures
        !triggers(down, events, i),
{
    if i > 0 {
        assert(events.take(i).last() == events[i - 1]);
    }
}

/// An event triggers exactly where the key goes down right after it came up, or as
/// the first event of a key that was up.
pub proof fn triggers_right_after_a_release(down: bool, events: Seq<HotKeyState>, i: int)
    requires
        0 <= i < events.len(),
    ensures
        triggers(down, events, i) <==> events[i] is Pressed && if i == 0 {
            !down
        } else {
            events[i - 1] is Released
        },
{
    if i > 0 {
        assert(events.take(i).last() == events[i - 1]);
    }
}

/// Events that come in at once are taken as if they had come in one batch after
/// the other: the key ends up the same, and the same events trigger.
pub proof fn batches_do_not_matter(
    down: bool,
    first: Seq<HotKeyState>,
    second: Seq<HotKeyState>,
    i: int,
)
    requires
        0 <= i < first.len() + second.len(),
    ensures
        down_after_all(down, first + second) == down_after_all(
            down_after_all(down, first),
            second,
        ),
        triggers(down, first + second, i) == if i < first.len() {
            triggers(down, first, i)
        } else {
            triggers(down_after_all(down, first), second, i - first.len())
        },
{
    let events = first + second;
    triggers_right_after_a_release(down, events, i);
    if i < first.len() {
        triggers_right_after_a_release(down, first, i);
    } else {
        triggers_right_after_a_release(down_after_all(down, first), second, i - first.len());
    }
    if second.len() == 0 {
        assert(events =~= first);
    }
}

/// The key is down exactly after it was last pressed, and where nothing came in as
/// it was.
pub proof fn the_last_event_counts(down: bool, events: Seq<HotKeyState>, event: HotKeyState)
    ensures
        down_after(event) <==> !(event is Released),
        down_after_all(down, events.push(event)) == down_after(event),
        down_after_all(down, Seq::empty()) == down,
{
}

} // verus!

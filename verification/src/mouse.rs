//! The synthetic mouse-event bridge.
//!
//! The native engine reports presses of the extra mouse buttons (index 3 =
//! back, index 4 = forward) but does not dispatch them as web events. This
//! module classifies a raw native event and, for those two buttons, builds
//! the script that dispatches a browser-standard pointer event into the page,
//! including the default back/forward history navigation on release. Every
//! other event is forwarded to the default handler unchanged.
//!
//! The caller (the platform glue) hands events in as plain values and is
//! responsible for evaluating the produced script against the page.

use vstd::prelude::*;

use crate::text::{bool_text, decimal_string, spec_bool_text, spec_decimal};

verus! {

/// Bit of the native modifier bitmask for the shift key.
pub const SHIFT_KEY_MASK: u64 = 0x20000;

/// Bit of the native modifier bitmask for the control key.
pub const CONTROL_KEY_MASK: u64 = 0x40000;

/// Bit of the native modifier bitmask for the alt/option key.
pub const OPTION_KEY_MASK: u64 = 0x80000;

/// Bit of the native modifier bitmask for the command key.
pub const COMMAND_KEY_MASK: u64 = 0x100000;

/// Native event-type code of an extra-button press.
pub const OTHER_MOUSE_DOWN_TYPE: u64 = 25;

/// Native event-type code of an extra-button release.
pub const OTHER_MOUSE_UP_TYPE: u64 = 26;

/// Native button index carrying "back" semantics.
pub const BACK_BUTTON: i64 = 3;

/// Native button index carrying "forward" semantics.
pub const FORWARD_BUTTON: i64 = 4;

/// Press or release phase of a mouse event.
#[derive(Clone, Copy, PartialEq, Eq, Structural, Debug)]
pub enum MousePhase {
    Down,
    Up,
}

/// The four independent modifier-key states carried by a synthetic event.
#[derive(Clone, Copy, PartialEq, Eq, Structural, Debug)]
pub struct ModifierKeys {
    pub ctrl: bool,
    pub alt: bool,
    pub shift: bool,
    pub meta: bool,
}

/// One raw native mouse event, as plain values.
///
/// Coordinates are the cursor position in view space, already truncated to
/// integer pixels; the platform glue converts the native floating-point
/// window coordinates before handing the event in.
#[derive(Clone, Copy, PartialEq, Eq, Structural, Debug)]
pub struct MouseEventInput {
    pub phase: MousePhase,
    /// The native event's type code.
    pub event_type: u64,
    /// The native button index.
    pub button_number: i64,
    pub x: u32,
    pub y: u32,
    /// The raw native modifier bitmask.
    pub modifier_flags: u64,
    /// The native click count (never negative on real events).
    pub click_count: u64,
    /// The native bitmask of currently pressed buttons.
    pub pressed_buttons: u64,
}

/// The synthetic pointer-event descriptor: every varying field that the
/// emitted script carries.
#[derive(Clone, Copy, PartialEq, Eq, Structural, Debug)]
pub struct SyntheticEvent {
    pub phase: MousePhase,
    /// The web button code: 3 for back, 4 for forward.
    pub button: u32,
    pub buttons: u64,
    pub x: u32,
    pub y: u32,
    pub detail: u64,
    pub modifiers: ModifierKeys,
}

/// What becomes of one raw native event.
pub enum MouseDisposition {
    /// Suppress default handling and evaluate this script against the page.
    Synthesize { script: String },
    /// Hand the raw event to the default handler unchanged.
    Forward,
}

/// The modifier-key decomposition of a raw bitmask: each flag is set exactly
/// when its bit is set.
pub open spec fn spec_modifiers(flags: u64) -> ModifierKeys {
    ModifierKeys {
        ctrl: flags & CONTROL_KEY_MASK == CONTROL_KEY_MASK,
        alt: flags & OPTION_KEY_MASK == OPTION_KEY_MASK,
        shift: flags & SHIFT_KEY_MASK == SHIFT_KEY_MASK,
        meta: flags & COMMAND_KEY_MASK == COMMAND_KEY_MASK,
    }
}

/// The DOM event name dispatched for a phase.
pub open spec fn spec_phase_name(phase: MousePhase) -> Seq<char> {
    if phase is Down {
        "mousedown"@
    } else {
        "mouseup"@
    }
}

/// The native event-type code expected for a phase.
pub open spec fn spec_expected_type(phase: MousePhase) -> u64 {
    if phase is Down {
        OTHER_MOUSE_DOWN_TYPE
    } else {
        OTHER_MOUSE_UP_TYPE
    }
}

/// The synthetic event built from a raw back/forward button event.
pub open spec fn spec_event_of(input: MouseEventInput) -> SyntheticEvent {
    SyntheticEvent {
        phase: input.phase,
        button: if input.button_number == BACK_BUTTON {
            3
        } else {
            4
        },
        buttons: input.pressed_buttons,
        x: input.x,
        y: input.y,
        detail: input.click_count,
        modifiers: spec_modifiers(input.modifier_flags),
    }
}

/// Whether the bridge takes an event over: its type code matches its phase
/// and its button is one of the two back/forward indices.
pub open spec fn spec_takes_over(input: MouseEventInput) -> bool {
    &&& input.event_type == spec_expected_type(input.phase)
    &&& (input.button_number == BACK_BUTTON || input.button_number == FORWARD_BUTTON)
}

/// The full text of the script that dispatches the synthetic pointer event.
///
/// It looks up the topmost element at the event's coordinates, constructs a
/// mouse event with the descriptor's fields (the integer coordinates populate
/// every coordinate-bearing field; the screen coordinates are window-origin
/// offsets, a documented approximation), dispatches it on that element, and —
/// only on release, only when page script did not suppress the default —
/// navigates history back or forward according to the button.
pub open spec fn spec_event_script(ev: SyntheticEvent) -> Seq<char> {
    "(() => {\n        const el = document.elementFromPoint("@ + spec_decimal(ev.x as nat)
        + ","@ + spec_decimal(ev.y as nat) + ");\n        const ev = new MouseEvent('"@
        + spec_phase_name(ev.phase) + "', {\n          view: window,\n          button: "@
        + spec_decimal(ev.button as nat) + ",\n          buttons: "@
        + spec_decimal(ev.buttons as nat) + ",\n          x: "@ + spec_decimal(ev.x as nat)
        + ",\n          y: "@ + spec_decimal(ev.y as nat)
        + ",\n          bubbles: true,\n          detail: "@ + spec_decimal(ev.detail as nat)
        + ",\n          cancelBubble: false,\n          cancelable: true,\n          clientX: "@
        + spec_decimal(ev.x as nat) + ",\n          clientY: "@ + spec_decimal(ev.y as nat)
        + ",\n          composed: true,\n          layerX: "@ + spec_decimal(ev.x as nat)
        + ",\n          layerY: "@ + spec_decimal(ev.y as nat) + ",\n          pageX: "@
        + spec_decimal(ev.x as nat) + ",\n          pageY: "@ + spec_decimal(ev.y as nat)
        + ",\n          screenX: window.screenX + "@ + spec_decimal(ev.x as nat)
        + ",\n          screenY: window.screenY + "@ + spec_decimal(ev.y as nat)
        + ",\n          ctrlKey: "@ + spec_bool_text(ev.modifiers.ctrl)
        + ",\n          metaKey: "@ + spec_bool_text(ev.modifiers.meta)
        + ",\n          shiftKey: "@ + spec_bool_text(ev.modifiers.shift)
        + ",\n          altKey: "@ + spec_bool_text(ev.modifiers.alt)
        + ",\n        });\n        el.dispatchEvent(ev)\n        if (!ev.defaultPrevented && \""@
        + spec_phase_name(ev.phase)
        + "\" === \"mouseup\") {\n          if (ev.button === 3) {\n            window.history.back();\n          }\n          if (ev.button === 4) {\n            window.history.forward();\n          }\n        }\n      })()"@
}

/// Decomposes a raw modifier bitmask into the four independent flags.
pub fn decompose_modifiers(flags: u64) -> (m: ModifierKeys)
    ensures
        m == spec_modifiers(flags),
{
    ModifierKeys {
        ctrl: flags & CONTROL_KEY_MASK == CONTROL_KEY_MASK,
        alt: flags & OPTION_KEY_MASK == OPTION_KEY_MASK,
        shift: flags & SHIFT_KEY_MASK == SHIFT_KEY_MASK,
        meta: flags & COMMAND_KEY_MASK == COMMAND_KEY_MASK,
    }
}

/// The DOM event name for a phase.
pub fn event_name(phase: MousePhase) -> (s: &'static str)
    ensures
        s@ == spec_phase_name(phase),
{
    match phase {
        MousePhase::Down => "mousedown",
        MousePhase::Up => "mouseup",
    }
}

/// Builds the synthetic event descriptor for a raw back/forward button event:
/// the button index becomes the web button code, the coordinates, click count
/// and pressed-button bitmask are carried over, and the modifier bitmask is
/// decomposed.
pub fn synthetic_event_of(input: &MouseEventInput) -> (ev: SyntheticEvent)
    requires
        input.button_number == BACK_BUTTON || input.button_number == FORWARD_BUTTON,
    ensures
        ev == spec_event_of(*input),
{
    SyntheticEvent {
        phase: input.phase,
        button: if input.button_number == BACK_BUTTON {
            3
        } else {
            4
        },
        buttons: input.pressed_buttons,
        x: input.x,
        y: input.y,
        detail: input.click_count,
        modifiers: decompose_modifiers(input.modifier_flags),
    }
}

/// Renders the script text for a synthetic event descriptor.
pub fn render_event_script(ev: &SyntheticEvent) -> (s: String)
    ensures
        s@ == spec_event_script(*ev),
{
    let x_text = decimal_string(ev.x as u64);
    let y_text = decimal_string(ev.y as u64);
    let button_text = decimal_string(ev.button as u64);
    let buttons_text = decimal_string(ev.buttons);
    let detail_text = decimal_string(ev.detail);
    let name = event_name(ev.phase);
    let mut s = String::new();
    s.append("(() => {\n        const el = document.elementFromPoint(");
    proof {
        assert(s@ =~= "(() => {\n        const el = document.elementFromPoint("@);
    }
    s.append(x_text.as_str());
    s.append(",");
    s.append(y_text.as_str());
    s.append(");\n        const ev = new MouseEvent('");
    s.append(name);
    s.append("', {\n          view: window,\n          button: ");
    s.append(button_text.as_str());
    s.append(",\n          buttons: ");
    s.append(buttons_text.as_str());
    s.append(",\n          x: ");
    s.append(x_text.as_str());
    s.append(",\n          y: ");
    s.append(y_text.as_str());
    s.append(",\n          bubbles: true,\n          detail: ");
    s.append(detail_text.as_str());
    s.append(",\n          cancelBubble: false,\n          cancelable: true,\n          clientX: ");
    s.append(x_text.as_str());
    s.append(",\n          clientY: ");
    s.append(y_text.as_str());
    s.append(",\n          composed: true,\n          layerX: ");
    s.append(x_text.as_str());
    s.append(",\n          layerY: ");
    s.append(y_text.as_str());
    s.append(",\n          pageX: ");
    s.append(x_text.as_str());
    s.append(",\n          pageY: ");
    s.append(y_text.as_str());
    s.append(",\n          screenX: window.screenX + ");
    s.append(x_text.as_str());
    s.append(",\n          screenY: window.screenY + ");
    s.append(y_text.as_str());
    s.append(",\n          ctrlKey: ");
    s.append(bool_text(ev.modifiers.ctrl));
    s.append(",\n          metaKey: ");
    s.append(bool_text(ev.modifiers.meta));
    s.append(",\n          shiftKey: ");
    s.append(bool_text(ev.modifiers.shift));
    s.append(",\n          altKey: ");
    s.append(bool_text(ev.modifiers.alt));
    s.append(",\n        });\n        el.dispatchEvent(ev)\n        if (!ev.defaultPrevented && \"");
    s.append(name);
    s.append(
        "\" === \"mouseup\") {\n          if (ev.button === 3) {\n            window.history.back();\n          }\n          if (ev.button === 4) {\n            window.history.forward();\n          }\n        }\n      })()",
    );
    s
}

/// Builds the synthetic-event script for a raw back/forward button event.
pub fn build_event_script(input: &MouseEventInput) -> (s: String)
    requires
        input.button_number == BACK_BUTTON || input.button_number == FORWARD_BUTTON,
    ensures
        s@ == spec_event_script(spec_event_of(*input)),
{
    let ev = synthetic_event_of(input);
    render_event_script(&ev)
}

/// Classifies one raw native extra-button event.
///
/// An event whose type code matches its phase and whose button is one of the
/// two back/forward indices is taken over: its synthetic script is produced
/// and default handling is to be suppressed. Every other event — in
/// particular any button index outside back/forward — is forwarded to the
/// default handler unchanged.
pub fn handle_other_mouse_event(input: &MouseEventInput) -> (r: MouseDisposition)
    ensures
        spec_takes_over(*input) ==> (r matches MouseDisposition::Synthesize { script } &&
            script@ == spec_event_script(spec_event_of(*input))),
        !spec_takes_over(*input) ==> r is Forward,
        (input.button_number != BACK_BUTTON && input.button_number != FORWARD_BUTTON) ==> r is Forward,
{
    let expected: u64 = match input.phase {
        MousePhase::Down => OTHER_MOUSE_DOWN_TYPE,
        MousePhase::Up => OTHER_MOUSE_UP_TYPE,
    };
    if input.event_type == expected
        && (input.button_number == BACK_BUTTON || input.button_number == FORWARD_BUTTON) {
        let script = build_event_script(input);
        MouseDisposition::Synthesize { script }
    } else {
        MouseDisposition::Forward
    }
}

} // verus!

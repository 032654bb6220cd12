use vstd::prelude::*;

pub mod input;
pub mod patch;
pub mod text;

use crate::input::{active_style, any_triggering, display_key, InputSnapshot, SlotReading};

verus! {

/// What the character-select hook does with the prompt argument, given what every
/// controller slot reported in scan order: while no connected controller holds its
/// reveal button, the prompt identifier for the first connected controller
/// replaces the argument (`Some`); while one does, the argument is left as it is
/// (`None`).
pub fn gsp_in_online_character_select(slots: &[SlotReading], companion_loaded: bool) -> (r:
    Option<&'static str>)
    ensures
        any_triggering(slots@) ==> r.is_none(),
        !any_triggering(slots@) ==> r.is_some() && r.unwrap()@ == display_key(
            active_style(slots@),
            companion_loaded,
        ),
{
    let (style, button_down) = InputSnapshot::active_inputs(slots);
    if button_down {
        None
    } else {
        Some(style.get_input_display(companion_loaded))
    }
}

} // verus!

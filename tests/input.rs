use gsp_input::gsp_in_online_character_select;
use gsp_input::input::{controller_slots, InputSnapshot, PadStyle, SlotReading, StateQuery, HANDHELD_SLOT};

#[test]
fn single_style_bits_classify() {
    assert_eq!(PadStyle::from_flags(1 << 0), PadStyle::ProController);
    assert_eq!(PadStyle::from_flags(1 << 1), PadStyle::Handheld);
    assert_eq!(PadStyle::from_flags(1 << 2), PadStyle::DualJoycon);
    assert_eq!(PadStyle::from_flags(1 << 3), PadStyle::LeftJoyconOnly);
    assert_eq!(PadStyle::from_flags(1 << 4), PadStyle::RightJoyconOnly);
    assert_eq!(PadStyle::from_flags(1 << 5), PadStyle::GameCube);
}

#[test]
fn lowest_style_bit_takes_precedence() {
    assert_eq!(PadStyle::from_flags(0b1001), PadStyle::ProController);
    assert_eq!(PadStyle::from_flags(0b110), PadStyle::Handheld);
    assert_eq!(PadStyle::from_flags(0b11_1000), PadStyle::LeftJoyconOnly);
    assert_eq!(PadStyle::from_flags(0x8000_0030), PadStyle::RightJoyconOnly);
}

#[test]
fn no_style_bit_is_unknown() {
    assert_eq!(PadStyle::from_flags(0), PadStyle::Unknown);
    assert_eq!(PadStyle::from_flags(1 << 6), PadStyle::Unknown);
    assert_eq!(PadStyle::from_flags(0xFFFF_FFC0), PadStyle::Unknown);
}

#[test]
fn reveal_button_per_variant() {
    let left = InputSnapshot::from_state(1 << 3, 1 << 25);
    assert!(left.is_button_down());
    assert!(!InputSnapshot::from_state(1 << 3, 1 << 7).is_button_down());
    assert!(!InputSnapshot::from_state(1 << 3, 1 << 27).is_button_down());

    assert!(InputSnapshot::from_state(1 << 4, 1 << 27).is_button_down());
    assert!(!InputSnapshot::from_state(1 << 4, 1 << 25).is_button_down());
    assert!(!InputSnapshot::from_state(1 << 4, 1 << 7).is_button_down());

    for flags in [1u32 << 0, 1 << 1, 1 << 2, 1 << 5, 0, 1 << 9] {
        assert!(InputSnapshot::from_state(flags, 1 << 7).is_button_down());
        assert!(!InputSnapshot::from_state(flags, (1 << 25) | (1 << 27)).is_button_down());
        assert!(!InputSnapshot::from_state(flags, 0).is_button_down());
    }
    assert!(InputSnapshot::from_state(1, u64::MAX).is_button_down());
}

#[test]
fn snapshot_keeps_its_state() {
    let s = InputSnapshot::from_state(1 << 5, 0xABCD);
    assert_eq!(s.style(), PadStyle::GameCube);
    assert_eq!(s.buttons(), 0xABCD);
}

#[test]
fn state_query_per_variant() {
    assert_eq!(PadStyle::Handheld.state_query(), StateQuery::Handheld);
    assert_eq!(PadStyle::GameCube.state_query(), StateQuery::GameCube);
    assert_eq!(PadStyle::LeftJoyconOnly.state_query(), StateQuery::JoyLeft);
    assert_eq!(PadStyle::RightJoyconOnly.state_query(), StateQuery::JoyRight);
    assert_eq!(PadStyle::DualJoycon.state_query(), StateQuery::JoyDual);
    assert_eq!(PadStyle::ProController.state_query(), StateQuery::FullKey);
    assert_eq!(PadStyle::Unknown.state_query(), StateQuery::FullKey);
}

#[test]
fn display_key_per_variant_and_flag() {
    assert_eq!(PadStyle::GameCube.get_input_display(false), "cmn_button_gc_r\0");
    assert_eq!(PadStyle::GameCube.get_input_display(true), "cmn_gsp_gc\0");
    assert_eq!(PadStyle::LeftJoyconOnly.get_input_display(false), "cmn_button_fill_nx_sr\0");
    assert_eq!(PadStyle::RightJoyconOnly.get_input_display(true), "cmn_gsp_sr\0");
    assert_eq!(PadStyle::ProController.get_input_display(false), "cmn_button_fill_nx_r\0");
    assert_eq!(PadStyle::Handheld.get_input_display(true), "cmn_gsp_nx\0");
    assert_eq!(PadStyle::DualJoycon.get_input_display(true), "cmn_gsp_nx\0");
    assert_eq!(PadStyle::Unknown.get_input_display(false), "\0");
    assert_eq!(PadStyle::Unknown.get_input_display(true), "\0");
}

#[test]
fn display_key_depends_on_its_inputs_alone() {
    for _ in 0..3 {
        assert_eq!(PadStyle::GameCube.get_input_display(false), "cmn_button_gc_r\0");
        assert_eq!(PadStyle::GameCube.get_input_display(true), "cmn_gsp_gc\0");
    }
}

#[test]
fn scan_order_ends_with_handheld() {
    assert_eq!(controller_slots(), vec![0, 1, 2, 3, 4, 5, 6, 7, HANDHELD_SLOT]);
    assert_eq!(HANDHELD_SLOT, 0x20);
}

fn unplugged() -> SlotReading {
    SlotReading { style_flags: 0, buttons: u64::MAX }
}

#[test]
fn no_slots_give_unknown_and_no_press() {
    assert_eq!(InputSnapshot::active_inputs(&[]), (PadStyle::Unknown, false));
    let slots = vec![unplugged(); 9];
    assert_eq!(InputSnapshot::active_inputs(&slots), (PadStyle::Unknown, false));
}

#[test]
fn dual_joycon_first_pro_controller_pressing() {
    let mut slots = vec![unplugged(); 9];
    slots[0] = SlotReading { style_flags: 1 << 2, buttons: 0 };
    slots[3] = SlotReading { style_flags: 1 << 0, buttons: 1 << 7 };
    assert_eq!(InputSnapshot::active_inputs(&slots), (PadStyle::DualJoycon, true));
}

#[test]
fn press_is_an_or_over_connected_slots() {
    let slots = vec![
        unplugged(),
        SlotReading { style_flags: 1 << 3, buttons: 1 << 7 },
        SlotReading { style_flags: 1 << 4, buttons: 1 << 25 },
        SlotReading { style_flags: 1 << 1, buttons: 0 },
    ];
    assert_eq!(InputSnapshot::active_inputs(&slots), (PadStyle::LeftJoyconOnly, false));
    let mut pressed = slots.clone();
    pressed[3].buttons = 1 << 7;
    assert_eq!(InputSnapshot::active_inputs(&pressed), (PadStyle::LeftJoyconOnly, true));
}

#[test]
fn connected_slot_with_unknown_style_still_counts() {
    let slots = vec![
        SlotReading { style_flags: 1 << 8, buttons: 1 << 7 },
        SlotReading { style_flags: 1 << 5, buttons: 0 },
    ];
    assert_eq!(InputSnapshot::active_inputs(&slots), (PadStyle::Unknown, true));
}

#[test]
fn handheld_slot_last_in_scan() {
    let mut slots = vec![unplugged(); 9];
    slots[8] = SlotReading { style_flags: 1 << 1, buttons: 1 << 7 };
    assert_eq!(InputSnapshot::active_inputs(&slots), (PadStyle::Handheld, true));
    slots[6] = SlotReading { style_flags: 1 << 5, buttons: 0 };
    assert_eq!(InputSnapshot::active_inputs(&slots), (PadStyle::GameCube, true));
}

#[test]
fn hook_overrides_prompt_when_not_pressed() {
    let slots = vec![SlotReading { style_flags: 1 << 5, buttons: 0 }];
    assert_eq!(gsp_in_online_character_select(&slots, true), Some("cmn_gsp_gc\0"));
    assert_eq!(gsp_in_online_character_select(&slots, false), Some("cmn_button_gc_r\0"));
    assert_eq!(gsp_in_online_character_select(&[], false), Some("\0"));
}

#[test]
fn hook_leaves_prompt_when_pressed() {
    let slots = vec![
        SlotReading { style_flags: 1 << 2, buttons: 0 },
        SlotReading { style_flags: 1 << 0, buttons: 1 << 7 },
    ];
    assert_eq!(gsp_in_online_character_select(&slots, true), None);
}

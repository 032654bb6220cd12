use vstd::prelude::*;

verus! {

/// The kind of controller attached to a slot, decoded from the host's style bitmask.
#[derive(Debug, Clone, Copy, PartialEq, Eq, Structural)]
pub enum PadStyle {
    ProController,
    Handheld,
    DualJoycon,
    LeftJoyconOnly,
    RightJoyconOnly,
    GameCube,
    Unknown,
}

/// Whether bit `bit` of a style bitmask is set.
pub open spec fn style_bit(flags: u32, bit: u32) -> bool {
    flags & (1u32 << bit) != 0
}

/// Whether bit `bit` of a button bitmask is set.
pub open spec fn button_bit(buttons: u64, bit: u64) -> bool {
    buttons & (1u64 << bit) != 0
}

/// The variant that each of the style bits 0 to 5 stands for.
pub open spec fn style_of_bit(bit: u32) -> PadStyle {
    if bit == 0 {
        PadStyle::ProController
    } else if bit == 1 {
        PadStyle::Handheld
    } else if bit == 2 {
        PadStyle::DualJoycon
    } else if bit == 3 {
        PadStyle::LeftJoyconOnly
    } else if bit == 4 {
        PadStyle::RightJoyconOnly
    } else if bit == 5 {
        PadStyle::GameCube
    } else {
        PadStyle::Unknown
    }
}

/// Classification of a style bitmask: the lowest of bits 0 to 5 that is set decides.
pub open spec fn classify(flags: u32) -> PadStyle {
    if style_bit(flags, 0) {
        PadStyle::ProController
    } else if style_bit(flags, 1) {
        PadStyle::Handheld
    } else if style_bit(flags, 2) {
        PadStyle::DualJoycon
    } else if style_bit(flags, 3) {
        PadStyle::LeftJoyconOnly
    } else if style_bit(flags, 4) {
        PadStyle::RightJoyconOnly
    } else if style_bit(flags, 5) {
        PadStyle::GameCube
    } else {
        PadStyle::Unknown
    }
}

/// The button bit that reveals the prompt on a controller of the given variant.
pub open spec fn reveal_bit(style: PadStyle) -> u64 {
    match style {
        PadStyle::LeftJoyconOnly => 25,
        PadStyle::RightJoyconOnly => 27,
        _ => 7,
    }
}

/// Whether a controller of variant `style` holding `buttons` presses its reveal button.
pub open spec fn is_triggering(style: PadStyle, buttons: u64) -> bool {
    button_bit(buttons, reveal_bit(style))
}

impl PadStyle {
    pub fn from_flags(style_flags: u32) -> (r: PadStyle)
        ensures
            r == classify(style_flags),
    {
        if style_flags & (1u32 << 0u32) != 0 {
            PadStyle::ProController
        } else if style_flags & (1u32 << 1u32) != 0 {
            PadStyle::Handheld
        } else if style_flags & (1u32 << 2u32) != 0 {
            PadStyle::DualJoycon
        } else if style_flags & (1u32 << 3u32) != 0 {
            PadStyle::LeftJoyconOnly
        } else if style_flags & (1u32 << 4u32) != 0 {
            PadStyle::RightJoyconOnly
        } else if style_flags & (1u32 << 5u32) != 0 {
            PadStyle::GameCube
        } else {
            PadStyle::Unknown
        }
    }
}

/// The lowest of the style bits 0 to 5 that is set picks the variant, whatever
/// bits above it are set too.
pub proof fn lemma_lowest_style_bit_wins(flags: u32, bit: u32)
    requires
        bit < 6,
        style_bit(flags, bit),
        forall|lower: u32| lower < bit ==> !style_bit(flags, lower),
    ensures
        classify(flags) == style_of_bit(bit),
{
    if bit > 0 {
        assert(!style_bit(flags, 0));
    }
    if bit > 1 {
        assert(!style_bit(flags, 1));
    }
    if bit > 2 {
        assert(!style_bit(flags, 2));
    }
    if bit > 3 {
        assert(!style_bit(flags, 3));
    }
    if bit > 4 {
        assert(!style_bit(flags, 4));
    }
}

/// A bitmask with exactly one of the style bits 0 to 5 set classifies as that bit's variant.
pub proof fn lemma_single_style_bit(bit: u32)
    requires
        bit < 6,
    ensures
        classify(1u32 << bit) == style_of_bit(bit),
{
    let flags = 1u32 << bit;
    assert(style_bit(flags, bit)) by (bit_vector)
        requires
            flags == 1u32 << bit,
            bit < 6,
    ;
    assert forall|lower: u32| lower < bit implies !style_bit(flags, lower) by {
        assert(flags & (1u32 << lower) == 0) by (bit_vector)
            requires
                flags == 1u32 << bit,
                bit < 6,
                lower < bit,
        ;
    }
    lemma_lowest_style_bit_wins(flags, bit);
}

/// A bitmask with none of the style bits 0 to 5 set, zero among them, classifies as `Unknown`.
pub proof fn lemma_no_style_bit(flags: u32)
    requires
        flags & 0x3fu32 == 0,
    ensures
        classify(flags) == PadStyle::Unknown,
{
    assert(forall|bit: u32| bit < 6 ==> #[trigger] (flags & (1u32 << bit)) == 0) by (bit_vector)
        requires
            flags & 0x3fu32 == 0,
    ;
    assert(!style_bit(flags, 0));
    assert(!style_bit(flags, 1));
    assert(!style_bit(flags, 2));
    assert(!style_bit(flags, 3));
    assert(!style_bit(flags, 4));
    assert(!style_bit(flags, 5));
}


/// The host query that reads the button state of a controller of a given variant.
#[derive(Debug, Clone, Copy, PartialEq, Eq, Structural)]
pub enum StateQuery {
    Handheld,
    GameCube,
    JoyLeft,
    JoyRight,
    JoyDual,
    FullKey,
}

/// The query for each variant: five have their own, the rest read the full key state.
pub open spec fn query_for(style: PadStyle) -> StateQuery {
    match style {
        PadStyle::Handheld => StateQuery::Handheld,
        PadStyle::GameCube => StateQuery::GameCube,
        PadStyle::LeftJoyconOnly => StateQuery::JoyLeft,
        PadStyle::RightJoyconOnly => StateQuery::JoyRight,
        PadStyle::DualJoycon => StateQuery::JoyDual,
        _ => StateQuery::FullKey,
    }
}

/// The prompt identifier shown for a variant; `companion` tells whether the text
/// patcher has added its own entries. Each identifier ends in a NUL; `Unknown`
/// gets the empty one.
pub open spec fn display_key(style: PadStyle, companion: bool) -> Seq<char> {
    match style {
        PadStyle::Unknown => "\0"@,
        PadStyle::LeftJoyconOnly | PadStyle::RightJoyconOnly => {
            if companion {
                "cmn_gsp_sr\0"@
            } else {
                "cmn_button_fill_nx_sr\0"@
            }
        },
        PadStyle::GameCube => {
            if companion {
                "cmn_gsp_gc\0"@
            } else {
                "cmn_button_gc_r\0"@
            }
        },
        _ => {
            if companion {
                "cmn_gsp_nx\0"@
            } else {
                "cmn_button_fill_nx_r\0"@
            }
        },
    }
}

impl PadStyle {
    /// Which host query reads the buttons of a controller of this variant.
    pub fn state_query(&self) -> (r: StateQuery)
        ensures
            r == query_for(*self),
    {
        match self {
            PadStyle::Handheld => StateQuery::Handheld,
            PadStyle::GameCube => StateQuery::GameCube,
            PadStyle::LeftJoyconOnly => StateQuery::JoyLeft,
            PadStyle::RightJoyconOnly => StateQuery::JoyRight,
            PadStyle::DualJoycon => StateQuery::JoyDual,
            _ => StateQuery::FullKey,
        }
    }

    /// The NUL-terminated prompt identifier for this variant.
    pub fn get_input_display(self, companion_loaded: bool) -> (r: &'static str)
        ensures
            r@ == display_key(self, companion_loaded),
    {
        match self {
            PadStyle::Unknown => "\0",
            PadStyle::LeftJoyconOnly | PadStyle::RightJoyconOnly => {
                if companion_loaded {
                    "cmn_gsp_sr\0"
                } else {
                    "cmn_button_fill_nx_sr\0"
                }
            },
            PadStyle::GameCube => {
                if companion_loaded {
                    "cmn_gsp_gc\0"
                } else {
                    "cmn_button_gc_r\0"
                }
            },
            _ => {
                if companion_loaded {
                    "cmn_gsp_nx\0"
                } else {
                    "cmn_button_fill_nx_r\0"
                }
            },
        }
    }
}

/// The decoded state of one controller at one instant.
pub struct InputSnapshot {
    style: PadStyle,
    buttons: u64,
}

impl InputSnapshot {
    pub closed spec fn spec_style(&self) -> PadStyle {
        self.style
    }

    pub closed spec fn spec_buttons(&self) -> u64 {
        self.buttons
    }

    /// A snapshot of a controller whose style bitmask is `style_flags` and whose
    /// host query reported `buttons`.
    pub fn from_state(style_flags: u32, buttons: u64) -> (r: InputSnapshot)
        ensures
            r.spec_style() == classify(style_flags),
            r.spec_buttons() == buttons,
    {
        InputSnapshot { style: PadStyle::from_flags(style_flags), buttons }
    }

    pub fn style(&self) -> (r: PadStyle)
        ensures
            r == self.spec_style(),
    {
        self.style
    }

    pub fn buttons(&self) -> (r: u64)
        ensures
            r == self.spec_buttons(),
    {
        self.buttons
    }

    /// Whether the reveal button of this controller's variant is held.
    pub fn is_button_down(&self) -> (r: bool)
        ensures
            r == is_triggering(self.spec_style(), self.spec_buttons()),
    {
        let bit: u64 = match self.style {
            PadStyle::LeftJoyconOnly => 25,
            PadStyle::RightJoyconOnly => 27,
            _ => 7,
        };
        self.buttons & (1u64 << bit) != 0
    }
}


/// The slot that the handheld controller reports on.
pub const HANDHELD_SLOT: u32 = 0x20;

/// What the host reported for one controller slot: its style bitmask and the
/// buttons that the query for its variant returned. A slot whose style bitmask is
/// zero is not connected, and its buttons are not looked at.
#[derive(Debug, Clone, Copy, PartialEq, Eq, Structural)]
pub struct SlotReading {
    pub style_flags: u32,
    pub buttons: u64,
}

pub open spec fn is_connected(r: SlotReading) -> bool {
    r.style_flags != 0
}

pub open spec fn slot_triggering(r: SlotReading) -> bool {
    is_connected(r) && is_triggering(classify(r.style_flags), r.buttons)
}

/// The style bitmask of the first connected slot, if any.
pub open spec fn first_connected_flags(slots: Seq<SlotReading>) -> Option<u32>
    decreases slots.len(),
{
    if slots.len() == 0 {
        None
    } else {
        match first_connected_flags(slots.drop_last()) {
            Some(f) => Some(f),
            None => if is_connected(slots.last()) {
                Some(slots.last().style_flags)
            } else {
                None
            },
        }
    }
}

/// The variant reported for a scan: that of the first connected slot, or `Unknown`.
pub open spec fn active_style(slots: Seq<SlotReading>) -> PadStyle {
    match first_connected_flags(slots) {
        Some(f) => classify(f),
        None => PadStyle::Unknown,
    }
}

/// Whether any connected slot holds its reveal button.
pub open spec fn any_triggering(slots: Seq<SlotReading>) -> bool {
    exists|i: int| 0 <= i < slots.len() && #[trigger] slot_triggering(slots[i])
}

/// The slots in the order they are scanned: 0 to 7, then the handheld slot.
pub open spec fn scan_order() -> Seq<u32> {
    seq![0u32, 1, 2, 3, 4, 5, 6, 7, HANDHELD_SLOT]
}

/// The controller slots to read, in scan order.
pub fn controller_slots() -> (r: Vec<u32>)
    ensures
        r@ == scan_order(),
{
    let mut r: Vec<u32> = Vec::new();
    let mut i: u32 = 0;
    while i < 8
        invariant
            i <= 8,
            r@ == scan_order().take(i as int),
        decreases 8 - i,
    {
        r.push(i);
        i = i + 1;
        assert(r@ =~= scan_order().take(i as int));
    }
    r.push(HANDHELD_SLOT);
    assert(r@ =~= scan_order());
    r
}

impl InputSnapshot {
    /// Given what each slot reported, in scan order, returns the variant of the
    /// first connected controller and whether any connected controller is holding
    /// its reveal button.
    pub fn active_inputs(slots: &[SlotReading]) -> (r: (PadStyle, bool))
        ensures
            r.0 == active_style(slots@),
            r.1 == any_triggering(slots@),
    {
        let mut first: Option<u32> = None;
        let mut has_input = false;
        let mut i: usize = 0;
        while i < slots.len()
            invariant
                i <= slots@.len(),
                first == first_connected_flags(slots@.take(i as int)),
                has_input == any_triggering(slots@.take(i as int)),
            decreases slots@.len() - i,
        {
            let reading = slots[i];
            proof {
                let next = slots@.take(i + 1);
                assert(next.drop_last() =~= slots@.take(i as int));
                assert(next.last() == reading);
                if any_triggering(slots@.take(i as int)) {
                    let j = choose|j: int|
                        0 <= j < i && #[trigger] slot_triggering(slots@.take(i as int)[j]);
                    assert(slot_triggering(next[j]));
                }
                if any_triggering(next) {
                    let j = choose|j: int| 0 <= j < i + 1 && #[trigger] slot_triggering(next[j]);
                    if j < i {
                        assert(slot_triggering(slots@.take(i as int)[j]));
                    }
                }
            }
            if reading.style_flags != 0 {
                if first.is_none() {
                    first = Some(reading.style_flags);
                }
                let snapshot = InputSnapshot::from_state(reading.style_flags, reading.buttons);
                if snapshot.is_button_down() {
                    has_input = true;
                    assert(slot_triggering(slots@.take(i + 1)[i as int]));
                }
            }
            i = i + 1;
        }
        assert(slots@.take(slots@.len() as int) =~= slots@);
        let style = match first {
            Some(f) => PadStyle::from_flags(f),
            None => PadStyle::Unknown,
        };
        (style, has_input)
    }
}


/// The first connected slot in scan order decides the reported variant, whatever
/// the slots after it hold.
pub proof fn lemma_first_connected_decides(slots: Seq<SlotReading>, k: int)
    requires
        0 <= k < slots.len(),
        is_connected(slots[k]),
        forall|j: int| 0 <= j < k ==> !is_connected(#[trigger] slots[j]),
    ensures
        first_connected_flags(slots) == Some(slots[k].style_flags),
        active_style(slots) == classify(slots[k].style_flags),
    decreases slots.len(),
{
    let rest = slots.drop_last();
    if k == slots.len() - 1 {
        assert forall|j: int| 0 <= j < rest.len() implies !is_connected(#[trigger] rest[j]) by {
            assert(rest[j] == slots[j]);
        }
        lemma_none_connected_prefix(rest);
    } else {
        assert forall|j: int| 0 <= j < k implies !is_connected(#[trigger] rest[j]) by {
            assert(rest[j] == slots[j]);
        }
        lemma_first_connected_decides(rest, k);
    }
}

proof fn lemma_none_connected_prefix(slots: Seq<SlotReading>)
    requires
        forall|j: int| 0 <= j < slots.len() ==> !is_connected(#[trigger] slots[j]),
    ensures
        first_connected_flags(slots) == None::<u32>,
    decreases slots.len(),
{
    if slots.len() > 0 {
        let rest = slots.drop_last();
        assert forall|j: int| 0 <= j < rest.len() implies !is_connected(#[trigger] rest[j]) by {
            assert(rest[j] == slots[j]);
        }
        lemma_none_connected_prefix(rest);
        assert(!is_connected(slots[slots.len() - 1]));
    }
}

/// With no slot connected, the scan reports `Unknown` and no reveal press.
pub proof fn lemma_none_connected(slots: Seq<SlotReading>)
    requires
        forall|j: int| 0 <= j < slots.len() ==> !is_connected(#[trigger] slots[j]),
    ensures
        active_style(slots) == PadStyle::Unknown,
        !any_triggering(slots),
{
    lemma_none_connected_prefix(slots);
}

/// A reveal press on any connected slot, first or not, makes the scan trigger;
/// and a scan triggers only through such a slot.
pub proof fn lemma_trigger_from_any_slot(slots: Seq<SlotReading>, k: int)
    requires
        0 <= k < slots.len(),
    ensures
        slot_triggering(slots[k]) ==> any_triggering(slots),
        any_triggering(slots) <==> exists|j: int|
            0 <= j < slots.len() && is_connected(slots[j]) && #[trigger] is_triggering(
                classify(slots[j].style_flags),
                slots[j].buttons,
            ),
{
    if any_triggering(slots) {
        let j = choose|j: int| 0 <= j < slots.len() && #[trigger] slot_triggering(slots[j]);
        assert(is_triggering(classify(slots[j].style_flags), slots[j].buttons));
    }
    if exists|j: int|
        0 <= j < slots.len() && is_connected(slots[j]) && #[trigger] is_triggering(
            classify(slots[j].style_flags),
            slots[j].buttons,
        ) {
        let j = choose|j: int|
            0 <= j < slots.len() && is_connected(slots[j]) && #[trigger] is_triggering(
                classify(slots[j].style_flags),
                slots[j].buttons,
            );
        assert(slot_triggering(slots[j]));
    }
}

} // verus!

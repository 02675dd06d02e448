//! How keys and pointers behave: the tapping term of tap-hold keys, and the
//! mouse layer that pointer motion switches on.

use crate::ticks::duration_from_millis;
use crate::ticks::millis_to_ticks;
use vstd::prelude::*;

verus! {

/// Layers in the key map.
pub const NUM_LAYERS: u8 = 5;

/// The layer that pointer motion switches on: "MOTION" in the key map.
pub const MOUSE_LAYER: u8 = 4;

/// Mouse layer entries that the firmware framework has room for.
pub const MOUSE_LAYER_CAPACITY: usize = 2;

/// Milliseconds without motion after which the trackpad leaves the mouse
/// layer. A click counts as no motion, so a move and the click after it have to
/// fit in this window.
pub const PAD_IDLE_MS: u64 = 500;

/// Milliseconds without motion after which the nub leaves the mouse layer.
pub const NUB_IDLE_MS: u64 = 1000;

/// Milliseconds for which a tap-hold key is held before it counts as held.
pub const TAPPING_TERM_MS: u16 = 75;

/// The key code type of `rmk`, carried through as it is.
#[verifier::external_type_specification]
#[verifier::external_body]
pub struct ExKeyCode(rmk::types::keycode::KeyCode);

/// When motion of one pointing device switches a layer on, and when the layer
/// goes off again.
#[derive(Clone, Copy)]
pub struct AutoMouseLayerConfig {
    /// The device that the entry is for; `None` stands for every device that no
    /// other entry is for.
    pub device_id: Option<u8>,
    /// The layer to switch on.
    pub target_layer: u8,
    /// Ticks without motion after which the layer goes off.
    pub timeout_ticks: u64,
    /// The least movement on an axis that counts as motion.
    pub threshold: u16,
    /// Whether pressing a key that is no mouse key switches the layer off.
    pub deactivate_on_key: bool,
    /// Further keys that do not switch the layer off.
    pub extra_mouse_keys: &'static [rmk::types::keycode::KeyCode],
    /// Whether a key that leaves the layer on starts the timeout anew.
    pub reset_timeout_on_key: bool,
}

/// The mouse layer entries, at most [`MOUSE_LAYER_CAPACITY`] of them, in the
/// order in which they were added.
#[verifier::external_body]
pub struct MouseLayers {
    entries: heapless::Vec<AutoMouseLayerConfig, MOUSE_LAYER_CAPACITY>,
}

/// The entries that a collection holds, in order.
pub uninterp spec fn held_entries(layers: MouseLayers) -> Seq<AutoMouseLayerConfig>;

/// `heapless::Vec::new`: the collection holds nothing.
#[verifier::external_body]
fn no_layers() -> (layers: MouseLayers)
    ensures
        held_entries(layers) == Seq::<AutoMouseLayerConfig>::empty(),
{
    MouseLayers { entries: heapless::Vec::new() }
}

/// `heapless::Vec::push`: appends the entry while there is room; a full
/// collection stays as it is, and the entry comes back.
#[verifier::external_body]
fn push_layer(layers: &mut MouseLayers, entry: AutoMouseLayerConfig) -> (pushed: Result<
    (),
    AutoMouseLayerConfig,
>)
    ensures
        held_entries(*old(layers)).len() < MOUSE_LAYER_CAPACITY ==> pushed is Ok && held_entries(
            *final(layers),
        ) == held_entries(*old(layers)).push(entry),
        held_entries(*old(layers)).len() >= MOUSE_LAYER_CAPACITY ==> pushed is Err
            && pushed->Err_0 == entry && held_entries(*final(layers)) == held_entries(*old(layers)),
{
    layers.entries.push(entry)
}

/// `heapless::Vec::get`, which is that of a slice: the entry at a position, if
/// the collection reaches that far.
#[verifier::external_body]
fn layer_at(layers: &MouseLayers, index: usize) -> (entry: Option<AutoMouseLayerConfig>)
    ensures
        entry == if index < held_entries(*layers).len() {
            Some(held_entries(*layers)[index as int])
        } else {
            None
        },
{
    layers.entries.get(index).copied()
}

/// What the entry of one pointer says: motion by a single count brings up the
/// mouse layer, `idle_ms` milliseconds of stillness end it, and keys do neither.
pub open spec fn is_pointer_entry(
    entry: AutoMouseLayerConfig,
    device_id: u8,
    idle_ms: u64,
) -> bool {
    &&& entry.device_id == Some(device_id)
    &&& entry.target_layer == MOUSE_LAYER
    &&& entry.timeout_ticks == millis_to_ticks(idle_ms as int)
    &&& entry.threshold == 1
    &&& !entry.deactivate_on_key
    &&& entry.extra_mouse_keys@.len() == 0
    &&& !entry.reset_timeout_on_key
}

/// Whether the entries are those of this keyboard: the trackpad's, then the
/// nub's.
pub open spec fn are_pointer_entries(
    entries: Seq<AutoMouseLayerConfig>,
    pad_id: u8,
    nub_id: u8,
) -> bool {
    &&& entries.len() == 2
    &&& is_pointer_entry(entries[0], pad_id, PAD_IDLE_MS)
    &&& is_pointer_entry(entries[1], nub_id, NUB_IDLE_MS)
}

/// The entry of one pointing device.
fn pointer_entry(device_id: u8, idle_ms: u64) -> (entry: AutoMouseLayerConfig)
    requires
        idle_ms <= 0xffff_ffff,
    ensures
        is_pointer_entry(entry, device_id, idle_ms),
        entry.device_id == Some(device_id),
        entry.target_layer == 4,
        entry.timeout_ticks == (idle_ms * 32_768 + 999) / 1000,
        entry.threshold == 1,
        entry.deactivate_on_key == false,
        entry.extra_mouse_keys@.len() == 0,
        entry.reset_timeout_on_key == false,
{
    AutoMouseLayerConfig {
        device_id: Some(device_id),
        target_layer: MOUSE_LAYER,
        timeout_ticks: duration_from_millis(idle_ms),
        threshold: 1,
        deactivate_on_key: false,
        extra_mouse_keys: &[],
        reset_timeout_on_key: false,
    }
}

/// The mouse layer entries: the trackpad's, then the nub's. Each pointer has an
/// entry of its own because the two need different windows. The layer that both
/// bring up is one of the key map's.
pub fn auto_mouse_layers(pad_id: u8, nub_id: u8) -> (layers: MouseLayers)
    ensures
        are_pointer_entries(held_entries(layers), pad_id, nub_id),
        held_entries(layers).len() == 2,
        held_entries(layers)[0].device_id == Some(pad_id),
        held_entries(layers)[0].target_layer == 4,
        held_entries(layers)[0].timeout_ticks == 16_384,
        held_entries(layers)[0].threshold == 1,
        held_entries(layers)[0].deactivate_on_key == false,
        held_entries(layers)[0].extra_mouse_keys@.len() == 0,
        held_entries(layers)[0].reset_timeout_on_key == false,
        held_entries(layers)[1].device_id == Some(nub_id),
        held_entries(layers)[1].target_layer == 4,
        held_entries(layers)[1].timeout_ticks == 32_768,
        held_entries(layers)[1].threshold == 1,
        held_entries(layers)[1].deactivate_on_key == false,
        held_entries(layers)[1].extra_mouse_keys@.len() == 0,
        held_entries(layers)[1].reset_timeout_on_key == false,
        forall|i: int|
            0 <= i < held_entries(layers).len() ==> (#[trigger] held_entries(layers)[i]).target_layer
                < NUM_LAYERS,
{
    let mut layers: MouseLayers = no_layers();
    let _ = push_layer(&mut layers, pointer_entry(pad_id, PAD_IDLE_MS));
    let _ = push_layer(&mut layers, pointer_entry(nub_id, NUB_IDLE_MS));
    layers
}

impl MouseLayers {
    /// The entry at a position, if there is one.
    pub fn get(&self, index: usize) -> (entry: Option<AutoMouseLayerConfig>)
        ensures
            entry == if index < held_entries(*self).len() {
                Some(held_entries(*self)[index as int])
            } else {
                None
            },
    {
        layer_at(self, index)
    }
}

/// The entry that motion of a device goes by: the first that names the device,
/// else the first that is for every device.
pub open spec fn entry_for(entries: Seq<AutoMouseLayerConfig>, device_id: u8) -> Option<
    AutoMouseLayerConfig,
> {
    match first_with(entries, Some(device_id)) {
        Some(entry) => Some(entry),
        None => first_with(entries, None),
    }
}

/// The first entry whose `device_id` is the given one.
pub open spec fn first_with(entries: Seq<AutoMouseLayerConfig>, device_id: Option<u8>) -> Option<
    AutoMouseLayerConfig,
>
    decreases entries.len(),
{
    if entries.len() == 0 {
        None
    } else if entries[0].device_id == device_id {
        Some(entries[0])
    } else {
        first_with(entries.drop_first(), device_id)
    }
}

/// Motion of the trackpad goes by the trackpad's entry and motion of the nub by
/// the nub's, so each pointer has its own window on the mouse layer; motion of
/// any other device leaves the layers alone.
pub proof fn law_each_pointer_has_its_window(layers: MouseLayers, pad_id: u8, nub_id: u8)
    requires
        pad_id != nub_id,
        are_pointer_entries(held_entries(layers), pad_id, nub_id),
    ensures
        entry_for(held_entries(layers), pad_id) is Some,
        is_pointer_entry(entry_for(held_entries(layers), pad_id)->0, pad_id, PAD_IDLE_MS),
        entry_for(held_entries(layers), nub_id) is Some,
        is_pointer_entry(entry_for(held_entries(layers), nub_id)->0, nub_id, NUB_IDLE_MS),
        forall|other: u8|
            other != pad_id && other != nub_id ==> #[trigger] entry_for(held_entries(layers), other)
                is None,
{
    let entries = held_entries(layers);
    reveal_with_fuel(first_with, 3);
    assert(entries.drop_first()[0] == entries[1]);
}

/// Whatever the device and its window, motion by a single count brings up layer
/// 4, the last of the key map; keys neither end nor prolong it, and it lasts for the window in whole
/// ticks, not less, and less than a tick more.
pub proof fn law_every_pointer_brings_up_the_mouse_layer(
    entry: AutoMouseLayerConfig,
    device_id: u8,
    idle_ms: u64,
)
    requires
        is_pointer_entry(entry, device_id, idle_ms),
    ensures
        entry.device_id == Some(device_id),
        entry.target_layer == 4,
        entry.target_layer + 1 == NUM_LAYERS,
        entry.threshold == 1,
        entry.deactivate_on_key == false,
        entry.extra_mouse_keys@.len() == 0,
        entry.reset_timeout_on_key == false,
        entry.timeout_ticks * 1000 >= idle_ms * 32_768,
        (entry.timeout_ticks - 1) * 1000 < idle_ms * 32_768,
        idle_ms == 500 ==> entry.timeout_ticks == 16_384,
        idle_ms == 1000 ==> entry.timeout_ticks == 32_768,
{
}

/// The entries of two pointers differ in nothing but the device and the window,
/// and the longer window lasts longer.
pub proof fn law_pointers_differ_only_in_window(
    entry_a: AutoMouseLayerConfig,
    device_a: u8,
    idle_a: u64,
    entry_b: AutoMouseLayerConfig,
    device_b: u8,
    idle_b: u64,
)
    requires
        is_pointer_entry(entry_a, device_a, idle_a),
        is_pointer_entry(entry_b, device_b, idle_b),
    ensures
        entry_a.device_id == entry_b.device_id <==> device_a == device_b,
        entry_a.timeout_ticks < entry_b.timeout_ticks <==> idle_a < idle_b,
        entry_a.target_layer == entry_b.target_layer,
        entry_a.threshold == entry_b.threshold,
        entry_a.deactivate_on_key == entry_b.deactivate_on_key,
        entry_a.extra_mouse_keys@.len() == entry_b.extra_mouse_keys@.len(),
        entry_a.reset_timeout_on_key == entry_b.reset_timeout_on_key,
{
}

/// The trackpad's entry comes first and lasts half a second, the nub's comes
/// second and lasts a second, and both bring up layer 4, whatever their device
/// numbers.
pub proof fn law_pad_then_nub(entries: Seq<AutoMouseLayerConfig>, pad_id: u8, nub_id: u8)
    requires
        are_pointer_entries(entries, pad_id, nub_id),
    ensures
        entries.len() == 2,
        entries[0].device_id == Some(pad_id),
        entries[0].target_layer == 4,
        entries[0].timeout_ticks == 16_384,
        entries[0].threshold == 1,
        entries[0].deactivate_on_key == false,
        entries[0].extra_mouse_keys@.len() == 0,
        entries[0].reset_timeout_on_key == false,
        entries[1].device_id == Some(nub_id),
        entries[1].target_layer == 4,
        entries[1].timeout_ticks == 32_768,
        entries[1].threshold == 1,
        entries[1].deactivate_on_key == false,
        entries[1].extra_mouse_keys@.len() == 0,
        entries[1].reset_timeout_on_key == false,
{
}

/// The milliseconds after which a tap-hold key counts as held, in a packed
/// profile; 0 where the profile leaves it open.
pub open spec fn hold_timeout_ms(profile: u64) -> u64 {
    profile & 0x1fff
}

/// What a packed profile says of anything but the hold timeout.
pub open spec fn besides_hold_timeout(profile: u64) -> u64 {
    profile & !0x1fff
}

/// The milliseconds between two taps that still belong together, in a packed
/// profile; 0 where the profile leaves it open.
pub open spec fn gap_timeout_ms(profile: u64) -> u64 {
    profile >> 17 & 0x1fff
}

/// How a packed profile decides between tap and hold: 3 is by the timeout
/// alone.
pub open spec fn decision_mode(profile: u64) -> u64 {
    profile >> 30 & 3
}

/// `rmk::config::BehaviorConfig::default`, of which only the packed default
/// profile of tap-hold keys is taken: 250 ms to hold, 250 ms between taps, a
/// decision by the timeout alone, and no preference for taps within one hand.
#[verifier::external_body]
fn stock_profile() -> (profile: u64)
    ensures
        profile == 0xc1f5_00fa,
{
    u64::from(rmk::config::BehaviorConfig::default().morse.default_profile)
}

/// `rmk::types::morse::MorseProfile::with_hold_timeout_ms` on the packed form:
/// it replaces the 13 bits of the hold timeout, by the value given, capped at
/// what 13 bits hold, or by 0 for none, and leaves the other bits alone.
#[verifier::external_body]
fn with_hold_timeout_ms(profile: u64, timeout_ms: Option<u16>) -> (changed: u64)
    ensures
        hold_timeout_ms(changed) == match timeout_ms {
            Some(t) => if t <= 0x1fff { t as u64 } else { 0x1fff },
            None => 0,
        },
        besides_hold_timeout(changed) == besides_hold_timeout(profile),
{
    u64::from(rmk::types::morse::MorseProfile::from(profile).with_hold_timeout_ms(timeout_ms))
}

/// A profile with the hold timeout set to the tapping term.
pub fn with_tapping_term(profile: u64) -> (changed: u64)
    ensures
        hold_timeout_ms(changed) == TAPPING_TERM_MS,
        besides_hold_timeout(changed) == besides_hold_timeout(profile),
        changed & 0x1fff == 75,
        changed & !0x1fff == profile & !0x1fff,
{
    with_hold_timeout_ms(profile, Some(TAPPING_TERM_MS))
}

/// The tapping term changes nothing but the hold timeout: the window between
/// taps and the way of deciding stay what they were.
pub proof fn law_tapping_term_keeps_the_rest(profile: u64, changed: u64)
    requires
        besides_hold_timeout(changed) == besides_hold_timeout(profile),
    ensures
        gap_timeout_ms(changed) == gap_timeout_ms(profile),
        decision_mode(changed) == decision_mode(profile),
        forall|bit: u64|
            13 <= bit < 64 ==> #[trigger] (changed >> bit & 1) == profile >> bit & 1,
{
    assert(changed >> 17 & 0x1fff == profile >> 17 & 0x1fff) by (bit_vector)
        requires
            changed & !0x1fff == profile & !0x1fff,
    ;
    assert(changed >> 30 & 3 == profile >> 30 & 3) by (bit_vector)
        requires
            changed & !0x1fff == profile & !0x1fff,
    ;
    assert forall|bit: u64| 13 <= bit < 64 implies #[trigger] (changed >> bit & 1) == profile >> bit
        & 1 by {
        assert(changed >> bit & 1 == profile >> bit & 1) by (bit_vector)
            requires
                changed & !0x1fff == profile & !0x1fff,
                13 <= bit < 64,
        ;
    }
}

/// A packed profile is its hold timeout, below 8192, and the rest, which starts at
/// bit 13; the two together determine it.
pub proof fn law_profile_is_hold_timeout_and_rest(profile: u64)
    ensures
        hold_timeout_ms(profile) == profile % 0x2000,
        besides_hold_timeout(profile) == profile - profile % 0x2000,
        gap_timeout_ms(profile) == profile / 0x2_0000 % 0x2000,
        decision_mode(profile) == profile / 0x4000_0000 % 4,
{
    assert(profile & 0x1fff == profile % 0x2000) by (bit_vector);
    assert(profile & !0x1fff == profile - profile % 0x2000) by (bit_vector);
    assert(profile >> 17 & 0x1fff == profile / 0x2_0000 % 0x2000) by (bit_vector);
    assert(profile >> 30 & 3 == profile / 0x4000_0000 % 4) by (bit_vector);
}

/// What this keyboard sets in the framework's key behaviour; everything else
/// keeps the framework's default.
pub struct BehaviorConfig {
    /// Whether a key that quickly follows another is taken as a tap.
    pub enable_flow_tap: bool,
    /// The packed default profile of tap-hold keys.
    pub default_profile: u64,
    /// The mouse layer entries.
    pub auto_mouse_layer: MouseLayers,
}

/// The key behaviour of this keyboard.
pub fn behavior_config(pad_id: u8, nub_id: u8) -> (behavior: BehaviorConfig)
    ensures
        behavior.enable_flow_tap,
        behavior.default_profile == 0xc1f5_004b,
        hold_timeout_ms(behavior.default_profile) == 75,
        gap_timeout_ms(behavior.default_profile) == 250,
        decision_mode(behavior.default_profile) == 3,
        are_pointer_entries(held_entries(behavior.auto_mouse_layer), pad_id, nub_id),
        held_entries(behavior.auto_mouse_layer).len() == 2,
        held_entries(behavior.auto_mouse_layer)[0].device_id == Some(pad_id),
        held_entries(behavior.auto_mouse_layer)[0].target_layer == 4,
        held_entries(behavior.auto_mouse_layer)[0].timeout_ticks == 16_384,
        held_entries(behavior.auto_mouse_layer)[0].threshold == 1,
        held_entries(behavior.auto_mouse_layer)[0].deactivate_on_key == false,
        held_entries(behavior.auto_mouse_layer)[0].extra_mouse_keys@.len() == 0,
        held_entries(behavior.auto_mouse_layer)[0].reset_timeout_on_key == false,
        held_entries(behavior.auto_mouse_layer)[1].device_id == Some(nub_id),
        held_entries(behavior.auto_mouse_layer)[1].target_layer == 4,
        held_entries(behavior.auto_mouse_layer)[1].timeout_ticks == 32_768,
        held_entries(behavior.auto_mouse_layer)[1].threshold == 1,
        held_entries(behavior.auto_mouse_layer)[1].deactivate_on_key == false,
        held_entries(behavior.auto_mouse_layer)[1].extra_mouse_keys@.len() == 0,
        held_entries(behavior.auto_mouse_layer)[1].reset_timeout_on_key == false,
{
    let default_profile: u64 = with_tapping_term(stock_profile());
    proof {
        assert(default_profile == 0xc1f5_004b) by (bit_vector)
            requires
                default_profile & 0x1fff == 75,
                default_profile & !0x1fff == 0xc1f5_00fau64 & !0x1fff,
        ;
        assert(0xc1f5_004bu64 >> 17 & 0x1fff == 250) by (bit_vector);
        assert(0xc1f5_004bu64 >> 30 & 3 == 3) by (bit_vector);
    }
    BehaviorConfig {
        enable_flow_tap: true,
        default_profile,
        auto_mouse_layer: auto_mouse_layers(pad_id, nub_id),
    }
}

} // verus!

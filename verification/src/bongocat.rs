//! From the keyboard's render snapshot to the display events of one frame,
//! the bongocat's pose, and the animation clock that paces it.

use vstd::prelude::*;

use crate::context::{
    flag_bit, modifier_bits, modifiers_to_bitfield, BatteryStatus, BleState, BleStatus,
    ChargeState, RenderInput,
};
use crate::event::{BatterySource, CatPose, DisplayEvent, LinkState, OutputKind, Paw};

verus! {

/// Milliseconds that the animation clock advances on each render call.  The
/// keyboard firmware calls the renderer about every 40 ms, so a fixed step
/// paces the animation closely enough.
pub const TICK_STEP_MS: u64 = 40;

/// The lock indicator byte: bit 0 Num Lock, bit 1 Caps Lock.
pub open spec fn indicator_bits(num_lock: bool, caps_lock: bool) -> int {
    flag_bit(num_lock, 1) + flag_bit(caps_lock, 2)
}

/// The lock indicator byte of a snapshot, as the display's indicators event
/// expects it: bit 0 Num Lock, bit 1 Caps Lock, the other bits clear.
pub fn indicators_from_ctx(ctx: &RenderInput) -> (indicators: u8)
    ensures
        indicators == indicator_bits(ctx.num_lock, ctx.caps_lock),
{
    let num: u8 = if ctx.num_lock { 1 } else { 0 };
    let caps: u8 = if ctx.caps_lock { 1 } else { 0 };
    assert(num | (caps << 1u8) == num + 2 * caps) by (bit_vector)
        requires
            num <= 1,
            caps <= 1,
    ;
    num | (caps << 1u8)
}

/// The percentage shown for a battery level: the level capped at 100, or 0
/// when the level is unknown.
pub open spec fn battery_percent(level: Option<u8>) -> u8 {
    match level {
        Some(l) => if l <= 100 { l } else { 100 },
        None => 0,
    }
}

/// The display event that reports a battery's status.
pub open spec fn battery_event(source: BatterySource, status: BatteryStatus) -> DisplayEvent {
    match status {
        BatteryStatus::Unavailable => DisplayEvent::BatteryUnavailable { source },
        BatteryStatus::Available { charge_state, level } => DisplayEvent::BatteryChanged {
            source,
            percent: battery_percent(level),
            charging: charge_state == ChargeState::Charging,
        },
    }
}

/// The display event that reports `status` for the battery `source`.
pub fn battery_status_event(source: BatterySource, status: BatteryStatus) -> (event: DisplayEvent)
    ensures
        event == battery_event(source, status),
{
    match status {
        BatteryStatus::Unavailable => DisplayEvent::BatteryUnavailable { source },
        BatteryStatus::Available { charge_state, level } => {
            let raw: u8 = match level {
                Some(l) => l,
                None => 0,
            };
            let percent: u8 = if raw <= 100 { raw } else { 100 };
            let charging: bool = match charge_state {
                ChargeState::Charging => true,
                _ => false,
            };
            DisplayEvent::BatteryChanged { source, percent, charging }
        },
    }
}

/// The event that reports the dongle's own battery.
pub fn controller_battery_event(ctx: &RenderInput) -> (event: DisplayEvent)
    ensures
        event == battery_event(BatterySource::Controller, ctx.battery),
{
    battery_status_event(BatterySource::Controller, ctx.battery)
}

/// Host transport and link state from the BLE status.  Advertising shows the
/// BLE profile as searching, a connection shows it connected, and an
/// inactive BLE (sleep, USB only) falls back to USB, disconnected.  A build
/// without BLE shows USB, connected.
pub open spec fn transport_of(ble: Option<BleStatus>) -> (OutputKind, LinkState) {
    match ble {
        None => (OutputKind::Usb, LinkState::Connected),
        Some(status) => match status.state {
            BleState::Advertising => (OutputKind::Ble { profile: status.profile }, LinkState::Searching),
            BleState::Connected => (OutputKind::Ble { profile: status.profile }, LinkState::Connected),
            BleState::Inactive => (OutputKind::Usb, LinkState::Disconnected),
        },
    }
}

/// The host transport and its link state for a snapshot.
pub fn transport_from_ctx(ctx: &RenderInput) -> (transport: (OutputKind, LinkState))
    ensures
        transport == transport_of(ctx.ble_status),
{
    match ctx.ble_status {
        None => (OutputKind::Usb, LinkState::Connected),
        Some(status) => match status.state {
            BleState::Advertising => (OutputKind::Ble { profile: status.profile }, LinkState::Searching),
            BleState::Connected => (OutputKind::Ble { profile: status.profile }, LinkState::Connected),
            BleState::Inactive => (OutputKind::Usb, LinkState::Disconnected),
        },
    }
}

/// Every flag is set.
pub open spec fn all_set(flags: Seq<bool>) -> bool {
    forall|i: int| 0 <= i < flags.len() ==> #[trigger] flags[i]
}

/// Some flag is set.
pub open spec fn any_set(flags: Seq<bool>) -> bool {
    exists|i: int| 0 <= i < flags.len() && #[trigger] flags[i]
}

/// The link to the keyboard halves: connected when every half is connected,
/// searching when some are, disconnected when none is.  A build without
/// split support shows it connected.
pub open spec fn peripheral_link_of(connected: Option<Seq<bool>>) -> LinkState {
    match connected {
        None => LinkState::Connected,
        Some(c) => if all_set(c) {
            LinkState::Connected
        } else if any_set(c) {
            LinkState::Searching
        } else {
            LinkState::Disconnected
        },
    }
}

/// The connection flags of a snapshot as a sequence, where the build has them.
pub open spec fn connected_flags(ctx: RenderInput) -> Option<Seq<bool>> {
    match ctx.peripherals_connected {
        Some(v) => Some(v@),
        None => None,
    }
}

/// The link state of the keyboard halves for a snapshot.
pub fn peripheral_link_state(ctx: &RenderInput) -> (state: LinkState)
    ensures
        state == peripheral_link_of(connected_flags(*ctx)),
{
    match &ctx.peripherals_connected {
        None => LinkState::Connected,
        Some(flags) => {
            let mut any: bool = false;
            let mut all: bool = true;
            let n: usize = flags.len();
            for i in 0..n
                invariant
                    n == flags@.len(),
                    any == (exists|j: int| 0 <= j < i && #[trigger] flags@[j]),
                    all == (forall|j: int| 0 <= j < i ==> #[trigger] flags@[j]),
            {
                let c: bool = flags[i];
                any = any || c;
                all = all && c;
            }
            if all {
                LinkState::Connected
            } else if any {
                LinkState::Searching
            } else {
                LinkState::Disconnected
            }
        },
    }
}

/// The battery events of the keyboard halves, one per half in peripheral id
/// order.  The id is the half's index, taken modulo 256.
pub open spec fn peripheral_battery_events(batteries: Option<Seq<BatteryStatus>>) -> Seq<DisplayEvent> {
    match batteries {
        None => Seq::empty(),
        Some(b) => Seq::new(
            b.len(),
            |i: int| battery_event(BatterySource::Peripheral((i % 256) as u8), b[i]),
        ),
    }
}

/// The battery readings of the keyboard halves of a snapshot as a sequence,
/// where the build has them.
pub open spec fn peripheral_batteries_of(ctx: RenderInput) -> Option<Seq<BatteryStatus>> {
    match ctx.peripheral_batteries {
        Some(v) => Some(v@),
        None => None,
    }
}

/// Appends the battery events of the keyboard halves to `events`.
pub fn push_peripheral_batteries(events: &mut Vec<DisplayEvent>, ctx: &RenderInput)
    ensures
        final(events)@ == old(events)@ + peripheral_battery_events(peripheral_batteries_of(*ctx)),
{
    match &ctx.peripheral_batteries {
        None => {
            assert(old(events)@ + Seq::<DisplayEvent>::empty() =~= old(events)@);
        },
        Some(batteries) => {
            let ghost start = old(events)@;
            let ghost expected = peripheral_battery_events(peripheral_batteries_of(*ctx));
            let n: usize = batteries.len();
            for i in 0..n
                invariant
                    n == batteries@.len(),
                    expected == peripheral_battery_events(Some(batteries@)),
                    events@ =~= start + expected.take(i as int),
            {
                let id: u8 = (i % 256) as u8;
                let event = battery_status_event(BatterySource::Peripheral(id), batteries[i]);
                events.push(event);
                assert(expected.take(i + 1) =~= expected.take(i as int).push(event));
            }
            assert(expected.take(n as int) =~= expected);
        },
    }
}

/// Events that set the active profile: one for a BLE or ESB output, none for
/// USB.
pub open spec fn profile_events(output: OutputKind) -> Seq<DisplayEvent> {
    match output {
        OutputKind::Ble { profile } => seq![DisplayEvent::ProfileChanged { profile }],
        OutputKind::Esb { profile } => seq![DisplayEvent::ProfileChanged { profile }],
        OutputKind::Usb => Seq::empty(),
    }
}

/// The events of one frame, in the order the display receives them: output,
/// connection to the halves, profile (BLE or ESB only), layer, WPM,
/// modifiers, lock indicators, sleep, the dongle's battery, the halves'
/// batteries, and one animation trigger when a key press was latched since
/// the last frame.
pub open spec fn frame_events(ctx: RenderInput) -> Seq<DisplayEvent> {
    let output = transport_of(ctx.ble_status).0;
    seq![
        DisplayEvent::OutputChanged { output },
        DisplayEvent::ConnectionChanged { state: peripheral_link_of(connected_flags(ctx)) },
    ] + profile_events(output) + seq![
        DisplayEvent::LayerChanged { layer: ctx.layer },
        DisplayEvent::WpmChanged { wpm: ctx.wpm },
        DisplayEvent::ModifiersChanged { modifiers: modifier_bits(ctx.modifiers) as u8 },
        DisplayEvent::IndicatorsChanged {
            indicators: indicator_bits(ctx.num_lock, ctx.caps_lock) as u8,
        },
        DisplayEvent::SleepChanged { sleeping: ctx.sleeping },
        battery_event(BatterySource::Controller, ctx.battery),
    ] + peripheral_battery_events(peripheral_batteries_of(ctx)) + if ctx.key_press_latch {
        seq![DisplayEvent::AnimationTrigger { id: 0 }]
    } else {
        Seq::empty()
    }
}

/// The events that one frame hands to the display, in order.
pub fn frame_events_of(ctx: &RenderInput) -> (events: Vec<DisplayEvent>)
    ensures
        events@ == frame_events(*ctx),
{
    let (output, _link_from_ble) = transport_from_ctx(ctx);
    let link = peripheral_link_state(ctx);
    let mut events: Vec<DisplayEvent> = Vec::new();
    events.push(DisplayEvent::OutputChanged { output });
    events.push(DisplayEvent::ConnectionChanged { state: link });
    match output {
        OutputKind::Ble { profile } => events.push(DisplayEvent::ProfileChanged { profile }),
        OutputKind::Esb { profile } => events.push(DisplayEvent::ProfileChanged { profile }),
        OutputKind::Usb => {},
    }
    let ghost head = events@;
    events.push(DisplayEvent::LayerChanged { layer: ctx.layer });
    events.push(DisplayEvent::WpmChanged { wpm: ctx.wpm });
    events.push(DisplayEvent::ModifiersChanged { modifiers: modifiers_to_bitfield(ctx.modifiers) });
    events.push(DisplayEvent::IndicatorsChanged { indicators: indicators_from_ctx(ctx) });
    events.push(DisplayEvent::SleepChanged { sleeping: ctx.sleeping });
    events.push(controller_battery_event(ctx));
    push_peripheral_batteries(&mut events, ctx);
    let ghost with_batteries = events@;
    if ctx.key_press_latch {
        events.push(DisplayEvent::AnimationTrigger { id: 0 });
    }
    proof {
        let output_spec = transport_of(ctx.ble_status).0;
        assert(head =~= seq![
            DisplayEvent::OutputChanged { output: output_spec },
            DisplayEvent::ConnectionChanged { state: peripheral_link_of(connected_flags(*ctx)) },
        ] + profile_events(output_spec));
        if ctx.key_press_latch {
            assert(events@ =~= with_batteries + seq![DisplayEvent::AnimationTrigger { id: 0 }]);
        } else {
            assert(events@ =~= with_batteries + Seq::<DisplayEvent>::empty());
        }
        assert(events@ =~= frame_events(*ctx));
    }
    events
}

/// The animation clock after one more render call: 40 ms later, wrapping
/// around at the width of a `u64`.
pub open spec fn next_tick(tick: u64) -> u64 {
    ((tick + TICK_STEP_MS) % 0x1_0000_0000_0000_0000) as u64
}

/// Milliseconds that each of the two breathing frames lasts while the
/// keyboard is idle: the cat breathes slowly, one breath every two seconds.
pub const BREATH_PHASE_MS: u64 = 1000;

/// The other paw.
pub open spec fn other_paw(paw: Paw) -> Paw {
    match paw {
        Paw::Left => Paw::Right,
        Paw::Right => Paw::Left,
    }
}

/// The paw that drums in this frame: a new key press (latched since the
/// last frame) switches to the other paw, otherwise it stays the same.
pub open spec fn next_paw(paw: Paw, key_press_latch: bool) -> Paw {
    if key_press_latch { other_paw(paw) } else { paw }
}

/// The breathing frame of an idle cat at time `now_ms`: in and out, each for
/// `BREATH_PHASE_MS`.
pub open spec fn breath_pose(now_ms: u64) -> CatPose {
    if (now_ms / BREATH_PHASE_MS) % 2 == 0 { CatPose::BreatheIn } else { CatPose::BreatheOut }
}

/// The cat's pose in a frame: the drumming paw down when a new press was
/// latched or a key is held (a held key keeps the paw down, frozen), and
/// the slow breathing frames when the keyboard is idle.
pub open spec fn cat_pose(paw: Paw, key_press_latch: bool, key_pressed: bool, now_ms: u64) -> CatPose {
    if key_press_latch || key_pressed {
        CatPose::PawDown { paw }
    } else {
        breath_pose(now_ms)
    }
}

/// The events of a frame with the cat's pose: the frame's state events, then
/// the pose.
pub open spec fn plan_events(ctx: RenderInput, pose: CatPose) -> Seq<DisplayEvent> {
    frame_events(ctx).push(DisplayEvent::CatPoseShown { pose })
}

/// The other paw.
pub fn flip_paw(paw: Paw) -> (flipped: Paw)
    ensures
        flipped == other_paw(paw),
{
    match paw {
        Paw::Left => Paw::Right,
        Paw::Right => Paw::Left,
    }
}

/// The cat's pose for a frame at `now_ms` whose drumming paw is `paw`.
pub fn cat_pose_for(paw: Paw, key_press_latch: bool, key_pressed: bool, now_ms: u64) -> (pose: CatPose)
    ensures
        pose == cat_pose(paw, key_press_latch, key_pressed, now_ms),
{
    if key_press_latch || key_pressed {
        CatPose::PawDown { paw }
    } else if (now_ms / BREATH_PHASE_MS) % 2 == 0 {
        CatPose::BreatheIn
    } else {
        CatPose::BreatheOut
    }
}

/// What a render call does once the clock has moved: the time to render the
/// scene at, the cat's pose, and the events to hand to the display first.
pub struct FramePlan {
    pub now_ms: u64,
    pub pose: CatPose,
    pub events: Vec<DisplayEvent>,
}

/// The renderer's own state: the monotonic animation clock that drives the
/// scene's scheduler, and the paw that drummed last.  The clock starts at 0
/// and moves by 40 ms on every render call, whether or not that frame
/// reaches the display.
pub struct BongoCatRenderer {
    tick_ms: u64,
    paw: Paw,
}

impl View for BongoCatRenderer {
    type V = u64;

    closed spec fn view(&self) -> u64 {
        self.tick_ms
    }
}

impl BongoCatRenderer {
    /// The paw that drummed last.
    pub closed spec fn last_paw(&self) -> Paw {
        self.paw
    }
}

impl Default for BongoCatRenderer {
    fn default() -> (renderer: Self)
        ensures
            renderer@ == 0,
            renderer.last_paw() == Paw::Right,
    {
        BongoCatRenderer { tick_ms: 0, paw: Paw::Right }
    }
}

impl BongoCatRenderer {
    /// The current value of the animation clock, in milliseconds.
    pub fn tick_ms(&self) -> (tick: u64)
        ensures
            tick == self@,
    {
        self.tick_ms
    }

    /// The paw that drummed last.
    pub fn paw(&self) -> (paw: Paw)
        ensures
            paw == self.last_paw(),
    {
        self.paw
    }

    /// Takes the time of this frame and moves the clock on by one frame.
    pub fn advance_clock(&mut self) -> (now_ms: u64)
        ensures
            now_ms == old(self)@,
            final(self)@ == next_tick(old(self)@),
            final(self).last_paw() == old(self).last_paw(),
    {
        let now_ms: u64 = self.tick_ms;
        self.tick_ms = self.tick_ms.wrapping_add(TICK_STEP_MS);
        now_ms
    }

    /// Starts a frame: moves the clock on, lets a new key press switch the
    /// drumming paw, and returns the time at which to render the scene (the
    /// clock before the move), the cat's pose, and the events that the
    /// display must receive before that: the frame's state events, then the
    /// pose.
    pub fn start_frame(&mut self, ctx: &RenderInput) -> (plan: FramePlan)
        ensures
            plan.now_ms == old(self)@,
            final(self)@ == next_tick(old(self)@),
            final(self).last_paw() == next_paw(old(self).last_paw(), ctx.key_press_latch),
            plan.pose == cat_pose(final(self).last_paw(), ctx.key_press_latch, ctx.key_pressed, old(self)@),
            plan.events@ == plan_events(*ctx, plan.pose),
            plan.events@ == frame_events(*ctx).push(DisplayEvent::CatPoseShown { pose: plan.pose }),
    {
        let now_ms: u64 = self.advance_clock();
        if ctx.key_press_latch {
            self.paw = flip_paw(self.paw);
        }
        let pose = cat_pose_for(self.paw, ctx.key_press_latch, ctx.key_pressed, now_ms);
        let mut events = frame_events_of(ctx);
        events.push(DisplayEvent::CatPoseShown { pose });
        FramePlan { now_ms, pose, events }
    }
}

/// The animation clock after `n` render calls from a fresh renderer.
pub open spec fn clock_after(n: nat) -> u64
    decreases n,
{
    if n == 0 {
        0
    } else {
        next_tick(clock_after((n - 1) as nat))
    }
}

/// After `n` render calls a fresh renderer's clock reads `40 * n`
/// milliseconds, modulo the width of a `u64`.
pub proof fn lemma_clock_after_frames(n: nat)
    ensures
        clock_after(n) == (TICK_STEP_MS * n) % 0x1_0000_0000_0000_0000,
    decreases n,
{
    if n > 0 {
        lemma_clock_after_frames((n - 1) as nat);
        let prev = (TICK_STEP_MS * (n - 1)) % 0x1_0000_0000_0000_0000;
        assert(TICK_STEP_MS * n == TICK_STEP_MS * (n - 1) + TICK_STEP_MS);
        vstd::arithmetic::div_mod::lemma_add_mod_noop(
            TICK_STEP_MS * (n - 1),
            TICK_STEP_MS as int,
            0x1_0000_0000_0000_0000,
        );
        vstd::arithmetic::div_mod::lemma_small_mod(TICK_STEP_MS as nat, 0x1_0000_0000_0000_0000);
    }
}

/// A frame ends with exactly one animation trigger (id 0) when a key press
/// was latched since the last frame, and carries none otherwise: each key
/// press flips the bongocat once.
pub proof fn lemma_one_flip_per_latched_press(ctx: RenderInput)
    ensures
        frame_events(ctx).len() >= 8,
        (frame_events(ctx).last() == DisplayEvent::AnimationTrigger { id: 0 }) == ctx.key_press_latch,
        forall|i: int|
            0 <= i < frame_events(ctx).len() - 1 ==> !(#[trigger] frame_events(ctx)[i] is AnimationTrigger),
        !ctx.key_press_latch ==> forall|i: int|
            0 <= i < frame_events(ctx).len() ==> !(#[trigger] frame_events(ctx)[i] is AnimationTrigger),
{
    let output = transport_of(ctx.ble_status).0;
    let prefix = seq![
        DisplayEvent::OutputChanged { output },
        DisplayEvent::ConnectionChanged { state: peripheral_link_of(connected_flags(ctx)) },
    ] + profile_events(output) + seq![
        DisplayEvent::LayerChanged { layer: ctx.layer },
        DisplayEvent::WpmChanged { wpm: ctx.wpm },
        DisplayEvent::ModifiersChanged { modifiers: modifier_bits(ctx.modifiers) as u8 },
        DisplayEvent::IndicatorsChanged {
            indicators: indicator_bits(ctx.num_lock, ctx.caps_lock) as u8,
        },
        DisplayEvent::SleepChanged { sleeping: ctx.sleeping },
        battery_event(BatterySource::Controller, ctx.battery),
    ] + peripheral_battery_events(peripheral_batteries_of(ctx));
    assert forall|i: int| 0 <= i < prefix.len() implies !(#[trigger] prefix[i] is AnimationTrigger) by {
    }
    if ctx.key_press_latch {
        assert(frame_events(ctx) =~= prefix.push(DisplayEvent::AnimationTrigger { id: 0 }));
    } else {
        assert(frame_events(ctx) =~= prefix);
    }
}

/// A frame sets the active profile exactly when the host link is BLE
/// (advertising or connected), and then sets it to the BLE profile; the
/// profile event comes right after the output and connection events.
pub proof fn lemma_profile_set_only_over_ble(ctx: RenderInput)
    ensures
        (frame_events(ctx)[2] is ProfileChanged) == (ctx.ble_status matches Some(s) && s.state != BleState::Inactive),
        frame_events(ctx)[2] is ProfileChanged ==> frame_events(ctx)[2] == (DisplayEvent::ProfileChanged { profile: ctx.ble_status.unwrap().profile }),
        forall|i: int|
            0 <= i < frame_events(ctx).len() && i != 2 ==> !(#[trigger] frame_events(ctx)[i] is ProfileChanged),
{
}

/// Every battery event of a frame shows a percentage of at most 100.
pub proof fn lemma_battery_percent_capped(ctx: RenderInput)
    ensures
        forall|i: int|
            0 <= i < frame_events(ctx).len() ==> (#[trigger] frame_events(ctx)[i] matches DisplayEvent::BatteryChanged { percent, .. } ==> percent <= 100),
{
}


/// The lock indicator byte keeps the two locks apart: bit 0 is Num Lock,
/// bit 1 Caps Lock, and no other bit is set.
pub proof fn lemma_indicator_bits_decode(num_lock: bool, caps_lock: bool)
    ensures
        0 <= indicator_bits(num_lock, caps_lock) < 4,
        ({
            let b = indicator_bits(num_lock, caps_lock) as u8;
            &&& (b & 0x01 != 0) == num_lock
            &&& (b & 0x02 != 0) == caps_lock
            &&& b & 0xfc == 0
        }),
{
    let b: u8 = indicator_bits(num_lock, caps_lock) as u8;
    assert((b & 0x01 != 0) == num_lock && (b & 0x02 != 0) == caps_lock && b & 0xfc == 0) by (bit_vector)
        requires
            b == (if num_lock { 1int } else { 0int }) + (if caps_lock { 2int } else { 0int }),
    ;
}


/// While the `40 * n` milliseconds of `n` render calls fit in the clock, the
/// `k`-th call (counting from 0) of a fresh renderer renders at `40 * k`
/// milliseconds: the frame times 0, 40, 80, ... strictly increase.
pub proof fn lemma_frame_times(n: nat)
    requires
        TICK_STEP_MS * n < 0x1_0000_0000_0000_0000,
    ensures
        forall|k: nat| k <= n ==> #[trigger] clock_after(k) == TICK_STEP_MS * k,
        forall|j: nat, k: nat| j < k <= n ==> #[trigger] clock_after(j) < #[trigger] clock_after(k),
{
    assert forall|k: nat| k <= n implies #[trigger] clock_after(k) == TICK_STEP_MS * k by {
        lemma_clock_after_frames(k);
        vstd::arithmetic::div_mod::lemma_small_mod((TICK_STEP_MS * k) as nat, 0x1_0000_0000_0000_0000);
    }
}

/// A new key press makes the other paw drum, and shows it down: each press
/// flips the cat to the other paw, and two presses bring back the first.
pub proof fn lemma_press_flips_paw(paw: Paw, key_pressed: bool, now_ms: u64)
    ensures
        next_paw(paw, true) != paw,
        next_paw(next_paw(paw, true), true) == paw,
        cat_pose(next_paw(paw, true), true, key_pressed, now_ms) == (CatPose::PawDown { paw: next_paw(paw, true) }),
{
}

/// A held key (no new press since the last frame) keeps the drumming paw
/// and shows it down whatever the time: the cat stays frozen on the
/// paw-down frame for as long as the key is held.
pub proof fn lemma_held_key_freezes_paw_down(paw: Paw, now_a: u64, now_b: u64)
    ensures
        next_paw(paw, false) == paw,
        cat_pose(next_paw(paw, false), false, true, now_a) == (CatPose::PawDown { paw }),
        cat_pose(next_paw(paw, false), false, true, now_a) == cat_pose(next_paw(paw, false), false, true, now_b),
{
}

/// An idle keyboard lets the cat breathe slowly: no paw is down, the pose
/// stays the same within each `BREATH_PHASE_MS` window of the clock, and
/// alternates between breathing in and out from one window to the next.
pub proof fn lemma_idle_cat_breathes_slowly(paw: Paw, now_a: u64, now_b: u64)
    ensures
        cat_pose(paw, false, false, now_a) == CatPose::BreatheIn || cat_pose(paw, false, false, now_a) == CatPose::BreatheOut,
        now_a / BREATH_PHASE_MS == now_b / BREATH_PHASE_MS ==> cat_pose(paw, false, false, now_a) == cat_pose(paw, false, false, now_b),
        now_b / BREATH_PHASE_MS == now_a / BREATH_PHASE_MS + 1 ==> cat_pose(paw, false, false, now_a) != cat_pose(paw, false, false, now_b),
        now_a < 1000 ==> cat_pose(paw, false, false, now_a) == CatPose::BreatheIn,
        1000 <= now_a < 2000 ==> cat_pose(paw, false, false, now_a) == CatPose::BreatheOut,
{
}

/// A held key and an idle keyboard never show the same pose: the held one
/// has a paw down, the idle one breathes.
pub proof fn lemma_held_differs_from_idle(held_paw: Paw, idle_paw: Paw, now_a: u64, now_b: u64)
    ensures
        cat_pose(held_paw, false, true, now_a) != cat_pose(idle_paw, false, false, now_b),
{
}


/// Two frames from the same renderer state whose snapshots differ in that a
/// key is held in one and the keyboard is idle in the other hand the display
/// different events: the last one, the cat's pose, differs.
pub proof fn lemma_held_and_idle_frames_differ(held: RenderInput, idle: RenderInput, paw: Paw, now_ms: u64)
    requires
        held.key_pressed,
        !held.key_press_latch,
        !idle.key_pressed,
        !idle.key_press_latch,
    ensures
        plan_events(held, cat_pose(next_paw(paw, false), false, true, now_ms)).last()
            != plan_events(idle, cat_pose(next_paw(paw, false), false, false, now_ms)).last(),
        plan_events(held, cat_pose(next_paw(paw, false), false, true, now_ms))
            != plan_events(idle, cat_pose(next_paw(paw, false), false, false, now_ms)),
{
    lemma_held_differs_from_idle(paw, paw, now_ms, now_ms);
    let a = plan_events(held, cat_pose(next_paw(paw, false), false, true, now_ms));
    let b = plan_events(idle, cat_pose(next_paw(paw, false), false, false, now_ms));
    if a == b {
        assert(a.last() == b.last());
    }
}


/// Every battery event says what the battery's status says: an unavailable
/// battery is reported unavailable; an available one with its source, as
/// charging exactly when its charge state is `Charging`, and with its level
/// capped at 100, or 0 when the level is unknown.
pub proof fn lemma_battery_event_reports_status(source: BatterySource, status: BatteryStatus)
    ensures
        status is Unavailable ==> battery_event(source, status) == (DisplayEvent::BatteryUnavailable { source }),
        status matches BatteryStatus::Available { charge_state, level } ==> {
            &&& battery_event(source, status) matches DisplayEvent::BatteryChanged { source: s, percent, charging }
            &&& s == source
            &&& charging == (charge_state == ChargeState::Charging)
            &&& percent <= 100
            &&& level is None ==> percent == 0
            &&& (level is Some && level.unwrap() <= 100) ==> percent == level.unwrap()
            &&& (level is Some && level.unwrap() > 100) ==> percent == 100
        },
{
}

/// A frame reports the snapshot it was made from, in a fixed order.  With
/// `p` = 1 when the host link is BLE (advertising or connected) and 0
/// otherwise, and `n` the number of halves' batteries: the output, the link
/// to the halves, the profile (only when `p` = 1), the layer, the WPM, the
/// modifier byte with one bit per modifier key (left Ctrl, Shift, Alt, GUI in
/// bits 0 to 3, the right ones in bits 4 to 7), the lock byte (bit 0 Num
/// Lock, bit 1 Caps Lock), sleep, the dongle's battery, the `n` halves'
/// batteries in id order, and last the animation trigger when a press was
/// latched.
pub proof fn lemma_frame_reports_snapshot(ctx: RenderInput)
    ensures
        ({
            let ev = frame_events(ctx);
            let ble_up = ctx.ble_status matches Some(s) && s.state != BleState::Inactive;
            let p: int = if ble_up { 1 } else { 0 };
            let n: int = match ctx.peripheral_batteries {
                Some(v) => v@.len() as int,
                None => 0,
            };
            &&& ev.len() == 8 + p + n + (if ctx.key_press_latch { 1int } else { 0int })
            &&& ble_up ==> ev[0] == (DisplayEvent::OutputChanged { output: OutputKind::Ble { profile: ctx.ble_status.unwrap().profile } })
            &&& !ble_up ==> ev[0] == (DisplayEvent::OutputChanged { output: OutputKind::Usb })
            &&& ble_up ==> ev[2] == (DisplayEvent::ProfileChanged { profile: ctx.ble_status.unwrap().profile })
            &&& ev[2 + p] == (DisplayEvent::LayerChanged { layer: ctx.layer })
            &&& ev[3 + p] == (DisplayEvent::WpmChanged { wpm: ctx.wpm })
            &&& ev[4 + p] matches DisplayEvent::ModifiersChanged { modifiers: b } && {
                &&& (b & 0x01 != 0) == ctx.modifiers.left_ctrl
                &&& (b & 0x02 != 0) == ctx.modifiers.left_shift
                &&& (b & 0x04 != 0) == ctx.modifiers.left_alt
                &&& (b & 0x08 != 0) == ctx.modifiers.left_gui
                &&& (b & 0x10 != 0) == ctx.modifiers.right_ctrl
                &&& (b & 0x20 != 0) == ctx.modifiers.right_shift
                &&& (b & 0x40 != 0) == ctx.modifiers.right_alt
                &&& (b & 0x80 != 0) == ctx.modifiers.right_gui
            }
            &&& ev[5 + p] matches DisplayEvent::IndicatorsChanged { indicators: b } && {
                &&& (b & 0x01 != 0) == ctx.num_lock
                &&& (b & 0x02 != 0) == ctx.caps_lock
                &&& b & 0xfc == 0
            }
            &&& ev[6 + p] == (DisplayEvent::SleepChanged { sleeping: ctx.sleeping })
            &&& ev[7 + p] == battery_event(BatterySource::Controller, ctx.battery)
            &&& forall|i: int| 0 <= i < n ==> #[trigger] ev[8 + p + i] == battery_event(
                BatterySource::Peripheral((i % 256) as u8),
                ctx.peripheral_batteries.unwrap()@[i],
            )
            &&& ctx.key_press_latch ==> ev[ev.len() - 1] == (DisplayEvent::AnimationTrigger { id: 0 })
        }),
{
    let ev = frame_events(ctx);
    let output = transport_of(ctx.ble_status).0;
    let head = seq![
        DisplayEvent::OutputChanged { output },
        DisplayEvent::ConnectionChanged { state: peripheral_link_of(connected_flags(ctx)) },
    ] + profile_events(output);
    let mid = seq![
        DisplayEvent::LayerChanged { layer: ctx.layer },
        DisplayEvent::WpmChanged { wpm: ctx.wpm },
        DisplayEvent::ModifiersChanged { modifiers: modifier_bits(ctx.modifiers) as u8 },
        DisplayEvent::IndicatorsChanged {
            indicators: indicator_bits(ctx.num_lock, ctx.caps_lock) as u8,
        },
        DisplayEvent::SleepChanged { sleeping: ctx.sleeping },
        battery_event(BatterySource::Controller, ctx.battery),
    ];
    let bats = peripheral_battery_events(peripheral_batteries_of(ctx));
    let tail: Seq<DisplayEvent> = if ctx.key_press_latch {
        seq![DisplayEvent::AnimationTrigger { id: 0 }]
    } else {
        Seq::empty()
    };
    assert(ev == head + mid + bats + tail);
    crate::context::lemma_modifier_bits_decode(ctx.modifiers);
    lemma_indicator_bits_decode(ctx.num_lock, ctx.caps_lock);
    let p: int = head.len() - 2;
    assert forall|i: int| 0 <= i < bats.len() implies #[trigger] ev[8 + p + i] == bats[i] by {
        assert((head + mid + bats + tail)[head.len() + mid.len() + i] == bats[i]);
    }
}

/// The link to the halves that a frame reports: connected when the build
/// has no split support or every half is connected, searching when some
/// but not all are, disconnected when there are halves and none is.
pub proof fn lemma_frame_reports_link(ctx: RenderInput)
    ensures
        ({
            let state = frame_events(ctx)[1];
            &&& ctx.peripherals_connected is None ==> state == (DisplayEvent::ConnectionChanged { state: LinkState::Connected })
            &&& ctx.peripherals_connected matches Some(v) ==> {
                &&& (forall|i: int| 0 <= i < v@.len() ==> #[trigger] v@[i])
                    ==> state == (DisplayEvent::ConnectionChanged { state: LinkState::Connected })
                &&& (exists|i: int| 0 <= i < v@.len() && #[trigger] v@[i])
                    && (exists|j: int| 0 <= j < v@.len() && !#[trigger] v@[j])
                    ==> state == (DisplayEvent::ConnectionChanged { state: LinkState::Searching })
                &&& (forall|i: int| 0 <= i < v@.len() ==> !#[trigger] v@[i]) && v@.len() > 0
                    ==> state == (DisplayEvent::ConnectionChanged { state: LinkState::Disconnected })
            }
        }),
{
    if let Some(v) = ctx.peripherals_connected {
        if v@.len() > 0 && (forall|i: int| 0 <= i < v@.len() ==> !#[trigger] v@[i]) {
            assert(!v@[0]);
            assert(!all_set(v@));
        }
    }
}

/// A frame's state events do not depend on whether a key is held: two
/// snapshots that differ only there give the same events.
pub proof fn lemma_frame_ignores_held_key(a: RenderInput, b: RenderInput)
    requires
        a.layer == b.layer,
        a.wpm == b.wpm,
        a.caps_lock == b.caps_lock,
        a.num_lock == b.num_lock,
        a.battery == b.battery,
        a.sleeping == b.sleeping,
        a.ble_status == b.ble_status,
        a.peripherals_connected == b.peripherals_connected,
        a.peripheral_batteries == b.peripheral_batteries,
        a.modifiers == b.modifiers,
        a.key_press_latch == b.key_press_latch,
    ensures
        frame_events(a) == frame_events(b),
{
}

/// The events of a frame with a pose are the frame's state events, all of
/// them whatever the keys, followed by the pose and nothing else.
pub proof fn lemma_plan_is_frame_then_pose(ctx: RenderInput, pose: CatPose)
    ensures
        plan_events(ctx, pose).len() == frame_events(ctx).len() + 1,
        plan_events(ctx, pose).drop_last() == frame_events(ctx),
        plan_events(ctx, pose).last() == (DisplayEvent::CatPoseShown { pose }),
{
    assert(plan_events(ctx, pose).drop_last() =~= frame_events(ctx));
}


/// One render call moves the clock 40 ms on, wrapping around past the
/// largest `u64` to the milliseconds left over.
pub proof fn lemma_tick_step(tick: u64)
    ensures
        tick + 40 <= u64::MAX ==> next_tick(tick) == tick + 40,
        tick + 40 > u64::MAX ==> next_tick(tick) == tick + 40 - 0x1_0000_0000_0000_0000,
{
}

} // verus!

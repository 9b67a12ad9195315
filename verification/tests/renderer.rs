use toykit_dongle::bongocat::{
    battery_status_event, controller_battery_event, frame_events_of, indicators_from_ctx,
    peripheral_link_state, push_peripheral_batteries, transport_from_ctx, BREATH_PHASE_MS,
    TICK_STEP_MS,
};
use toykit_dongle::context::{
    modifiers_to_bitfield, BatteryStatus, BleState, BleStatus, ChargeState, Modifiers, RenderInput,
};
use toykit_dongle::event::{BatterySource, CatPose, DisplayEvent, LinkState, OutputKind, Paw};
use toykit_dongle::BongoCatRenderer;

fn no_modifiers() -> Modifiers {
    Modifiers {
        left_ctrl: false,
        left_shift: false,
        left_alt: false,
        left_gui: false,
        right_ctrl: false,
        right_shift: false,
        right_alt: false,
        right_gui: false,
    }
}

fn base_input() -> RenderInput {
    RenderInput {
        layer: 0,
        wpm: 0,
        caps_lock: false,
        num_lock: false,
        battery: BatteryStatus::Unavailable,
        sleeping: false,
        ble_status: None,
        peripherals_connected: None,
        peripheral_batteries: None,
        modifiers: no_modifiers(),
        key_pressed: false,
        key_press_latch: false,
    }
}

#[test]
fn indicators_put_num_lock_in_bit0_and_caps_lock_in_bit1() {
    let mut ctx = base_input();
    assert_eq!(indicators_from_ctx(&ctx), 0);
    ctx.num_lock = true;
    assert_eq!(indicators_from_ctx(&ctx), 1);
    ctx.caps_lock = true;
    assert_eq!(indicators_from_ctx(&ctx), 3);
    ctx.num_lock = false;
    assert_eq!(indicators_from_ctx(&ctx), 2);
}

#[test]
fn modifier_byte_follows_the_keyboard_bit_layout() {
    let mut m = no_modifiers();
    assert_eq!(modifiers_to_bitfield(m), 0);
    m.right_gui = true;
    assert_eq!(modifiers_to_bitfield(m), 0x80);
    m = no_modifiers();
    m.left_ctrl = true;
    m.left_alt = true;
    assert_eq!(modifiers_to_bitfield(m), 0x05);
    m = no_modifiers();
    m.left_shift = true;
    m.right_ctrl = true;
    m.right_alt = true;
    assert_eq!(modifiers_to_bitfield(m), 0x52);
}

#[test]
fn battery_level_is_capped_and_defaults_to_zero() {
    let src = BatterySource::Peripheral(1);
    assert_eq!(
        battery_status_event(
            src,
            BatteryStatus::Available { charge_state: ChargeState::Charging, level: Some(150) }
        ),
        DisplayEvent::BatteryChanged { source: src, percent: 100, charging: true }
    );
    assert_eq!(
        battery_status_event(
            src,
            BatteryStatus::Available { charge_state: ChargeState::Discharging, level: None }
        ),
        DisplayEvent::BatteryChanged { source: src, percent: 0, charging: false }
    );
    assert_eq!(
        battery_status_event(
            src,
            BatteryStatus::Available { charge_state: ChargeState::Unknown, level: Some(42) }
        ),
        DisplayEvent::BatteryChanged { source: src, percent: 42, charging: false }
    );
    assert_eq!(
        battery_status_event(src, BatteryStatus::Unavailable),
        DisplayEvent::BatteryUnavailable { source: src }
    );
}

#[test]
fn controller_battery_reports_the_dongle_battery() {
    let mut ctx = base_input();
    assert_eq!(
        controller_battery_event(&ctx),
        DisplayEvent::BatteryUnavailable { source: BatterySource::Controller }
    );
    ctx.battery = BatteryStatus::Available { charge_state: ChargeState::Charging, level: Some(100) };
    assert_eq!(
        controller_battery_event(&ctx),
        DisplayEvent::BatteryChanged { source: BatterySource::Controller, percent: 100, charging: true }
    );
}

#[test]
fn transport_follows_the_ble_state() {
    let mut ctx = base_input();
    assert_eq!(transport_from_ctx(&ctx), (OutputKind::Usb, LinkState::Connected));
    ctx.ble_status = Some(BleStatus { profile: 2, state: BleState::Advertising });
    assert_eq!(transport_from_ctx(&ctx), (OutputKind::Ble { profile: 2 }, LinkState::Searching));
    ctx.ble_status = Some(BleStatus { profile: 3, state: BleState::Connected });
    assert_eq!(transport_from_ctx(&ctx), (OutputKind::Ble { profile: 3 }, LinkState::Connected));
    ctx.ble_status = Some(BleStatus { profile: 3, state: BleState::Inactive });
    assert_eq!(transport_from_ctx(&ctx), (OutputKind::Usb, LinkState::Disconnected));
}

#[test]
fn link_to_the_halves_is_all_some_or_none() {
    let mut ctx = base_input();
    assert_eq!(peripheral_link_state(&ctx), LinkState::Connected);
    ctx.peripherals_connected = Some(vec![true, true]);
    assert_eq!(peripheral_link_state(&ctx), LinkState::Connected);
    ctx.peripherals_connected = Some(vec![false, true]);
    assert_eq!(peripheral_link_state(&ctx), LinkState::Searching);
    ctx.peripherals_connected = Some(vec![false, false]);
    assert_eq!(peripheral_link_state(&ctx), LinkState::Disconnected);
    ctx.peripherals_connected = Some(vec![]);
    assert_eq!(peripheral_link_state(&ctx), LinkState::Connected);
}

#[test]
fn peripheral_batteries_are_appended_in_id_order() {
    let mut ctx = base_input();
    let mut events = vec![DisplayEvent::SleepChanged { sleeping: true }];
    push_peripheral_batteries(&mut events, &ctx);
    assert_eq!(events, vec![DisplayEvent::SleepChanged { sleeping: true }]);
    ctx.peripheral_batteries = Some(vec![
        BatteryStatus::Available { charge_state: ChargeState::Discharging, level: Some(80) },
        BatteryStatus::Unavailable,
    ]);
    push_peripheral_batteries(&mut events, &ctx);
    assert_eq!(
        events,
        vec![
            DisplayEvent::SleepChanged { sleeping: true },
            DisplayEvent::BatteryChanged {
                source: BatterySource::Peripheral(0),
                percent: 80,
                charging: false
            },
            DisplayEvent::BatteryUnavailable { source: BatterySource::Peripheral(1) },
        ]
    );
}

#[test]
fn peripheral_ids_wrap_after_255() {
    let mut ctx = base_input();
    ctx.peripheral_batteries = Some(vec![BatteryStatus::Unavailable; 258]);
    let mut events = Vec::new();
    push_peripheral_batteries(&mut events, &ctx);
    assert_eq!(events.len(), 258);
    assert_eq!(events[255], DisplayEvent::BatteryUnavailable { source: BatterySource::Peripheral(255) });
    assert_eq!(events[256], DisplayEvent::BatteryUnavailable { source: BatterySource::Peripheral(0) });
    assert_eq!(events[257], DisplayEvent::BatteryUnavailable { source: BatterySource::Peripheral(1) });
}

#[test]
fn frame_over_ble_with_a_latched_press() {
    let mut ctx = base_input();
    ctx.layer = 2;
    ctx.wpm = 63;
    ctx.caps_lock = true;
    ctx.sleeping = false;
    ctx.ble_status = Some(BleStatus { profile: 1, state: BleState::Connected });
    ctx.peripherals_connected = Some(vec![true, false]);
    ctx.peripheral_batteries = Some(vec![
        BatteryStatus::Available { charge_state: ChargeState::Charging, level: Some(55) },
        BatteryStatus::Unavailable,
    ]);
    ctx.battery = BatteryStatus::Available { charge_state: ChargeState::Discharging, level: Some(90) };
    ctx.modifiers.left_shift = true;
    ctx.key_press_latch = true;
    let events = frame_events_of(&ctx);
    assert_eq!(
        events,
        vec![
            DisplayEvent::OutputChanged { output: OutputKind::Ble { profile: 1 } },
            DisplayEvent::ConnectionChanged { state: LinkState::Searching },
            DisplayEvent::ProfileChanged { profile: 1 },
            DisplayEvent::LayerChanged { layer: 2 },
            DisplayEvent::WpmChanged { wpm: 63 },
            DisplayEvent::ModifiersChanged { modifiers: 0x02 },
            DisplayEvent::IndicatorsChanged { indicators: 2 },
            DisplayEvent::SleepChanged { sleeping: false },
            DisplayEvent::BatteryChanged {
                source: BatterySource::Controller,
                percent: 90,
                charging: false
            },
            DisplayEvent::BatteryChanged {
                source: BatterySource::Peripheral(0),
                percent: 55,
                charging: true
            },
            DisplayEvent::BatteryUnavailable { source: BatterySource::Peripheral(1) },
            DisplayEvent::AnimationTrigger { id: 0 },
        ]
    );
}

#[test]
fn frame_over_usb_without_a_press_has_no_profile_and_no_trigger() {
    let mut ctx = base_input();
    ctx.ble_status = Some(BleStatus { profile: 4, state: BleState::Inactive });
    ctx.sleeping = true;
    let events = frame_events_of(&ctx);
    assert_eq!(
        events,
        vec![
            DisplayEvent::OutputChanged { output: OutputKind::Usb },
            DisplayEvent::ConnectionChanged { state: LinkState::Connected },
            DisplayEvent::LayerChanged { layer: 0 },
            DisplayEvent::WpmChanged { wpm: 0 },
            DisplayEvent::ModifiersChanged { modifiers: 0 },
            DisplayEvent::IndicatorsChanged { indicators: 0 },
            DisplayEvent::SleepChanged { sleeping: true },
            DisplayEvent::BatteryUnavailable { source: BatterySource::Controller },
        ]
    );
}

#[test]
fn each_latched_press_gives_one_trigger_per_frame() {
    let mut ctx = base_input();
    ctx.key_pressed = true;
    let held = frame_events_of(&ctx);
    assert!(!held.iter().any(|e| matches!(e, DisplayEvent::AnimationTrigger { .. })));
    ctx.key_press_latch = true;
    let pressed = frame_events_of(&ctx);
    let triggers = pressed.iter().filter(|e| matches!(e, DisplayEvent::AnimationTrigger { .. })).count();
    assert_eq!(triggers, 1);
    assert_eq!(pressed.last(), Some(&DisplayEvent::AnimationTrigger { id: 0 }));
}

#[test]
fn clock_starts_at_zero_and_steps_by_forty_per_frame() {
    let mut renderer = BongoCatRenderer::default();
    assert_eq!(renderer.tick_ms(), 0);
    let ctx = base_input();
    let first = renderer.start_frame(&ctx);
    assert_eq!(first.now_ms, 0);
    assert_eq!(renderer.tick_ms(), 40);
    let second = renderer.start_frame(&ctx);
    assert_eq!(second.now_ms, 40);
    assert_eq!(renderer.advance_clock(), 80);
    assert_eq!(renderer.tick_ms(), 3 * TICK_STEP_MS);
    let mut expected = frame_events_of(&ctx);
    expected.push(DisplayEvent::CatPoseShown { pose: CatPose::BreatheIn });
    assert_eq!(second.events, expected);
}

#[test]
fn each_new_press_flips_the_paw_and_a_held_key_keeps_it_down() {
    let mut renderer = BongoCatRenderer::default();
    assert_eq!(renderer.paw(), Paw::Right);
    let mut ctx = base_input();
    ctx.key_pressed = true;
    ctx.key_press_latch = true;
    let press = renderer.start_frame(&ctx);
    assert_eq!(press.pose, CatPose::PawDown { paw: Paw::Left });
    assert_eq!(press.events.last(), Some(&DisplayEvent::CatPoseShown { pose: press.pose }));
    // Held for a long time: the paw stays down, whatever the clock says.
    ctx.key_press_latch = false;
    for _ in 0..100 {
        let held = renderer.start_frame(&ctx);
        assert_eq!(held.pose, CatPose::PawDown { paw: Paw::Left });
    }
    // The next press drums with the other paw.
    ctx.key_press_latch = true;
    let second = renderer.start_frame(&ctx);
    assert_eq!(second.pose, CatPose::PawDown { paw: Paw::Right });
    assert_eq!(renderer.paw(), Paw::Right);
}

#[test]
fn idle_cat_breathes_slowly() {
    let mut renderer = BongoCatRenderer::default();
    let ctx = base_input();
    let frames_per_phase = BREATH_PHASE_MS / TICK_STEP_MS;
    for _ in 0..frames_per_phase {
        assert_eq!(renderer.start_frame(&ctx).pose, CatPose::BreatheIn);
    }
    for _ in 0..frames_per_phase {
        assert_eq!(renderer.start_frame(&ctx).pose, CatPose::BreatheOut);
    }
    assert_eq!(renderer.start_frame(&ctx).pose, CatPose::BreatheIn);
}

#[test]
fn held_and_idle_frames_differ() {
    let mut held_renderer = BongoCatRenderer::default();
    let mut idle_renderer = BongoCatRenderer::default();
    let idle = base_input();
    let mut held = base_input();
    held.key_pressed = true;
    let a = held_renderer.start_frame(&held);
    let b = idle_renderer.start_frame(&idle);
    assert_eq!(a.now_ms, b.now_ms);
    assert_eq!(a.pose, CatPose::PawDown { paw: Paw::Right });
    assert_eq!(b.pose, CatPose::BreatheIn);
    assert_ne!(a.events, b.events);
}

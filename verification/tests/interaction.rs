use f3d::binding::InteractionBind;
use f3d::binding::InteractionBindModifierKeys;
use f3d::interactor::AbiViolation;
use f3d::interactor::Interactor;
use f3d::interactor::InteractorAnimationDirection;
use f3d::interactor::InteractorBindType;
use f3d::interactor::InteractorInputModifier;
use f3d::interactor::InteractorInputaction;
use f3d::interactor::InteractorMouseButton;
use f3d::interactor::InteractorWheelDirection;
use f3d::text::MarshalError;

#[test]
fn command_registered_then_triggered_invokes_exactly_once() {
    let mut it = Interactor::new();
    let ctx = it.add_command(b"dump").unwrap();

    // the host keeps the closure under the context token
    let mut seen: Vec<Vec<String>> = Vec::new();
    let mut recorder = |args: &Vec<Vec<u8>>| {
        seen.push(args.iter().map(|a| String::from_utf8_lossy(a).into_owned()).collect());
    };

    let args = vec![b"foo".to_vec(), b"bar".to_vec()];
    let invocation = it.trigger_command(b"dump", &args).unwrap();
    let inv = invocation.expect("registered action must dispatch");
    assert_eq!(inv.context, ctx);
    recorder(&inv.args);

    assert_eq!(seen.len(), 1);
    assert_eq!(seen[0], vec!["foo".to_string(), "bar".to_string()]);
}

#[test]
fn unregistered_action_triggers_nothing() {
    let mut it = Interactor::new();
    let ctx = it.add_command(b"dump").unwrap();
    let removed = it.remove_command(b"dump").unwrap();
    assert_eq!(removed, Some(ctx));

    let args = vec![b"foo".to_vec(), b"bar".to_vec()];
    assert!(it.trigger_command(b"dump", &args).unwrap().is_none());
    assert!(it.trigger_command(b"never", &args).unwrap().is_none());
}

#[test]
fn context_tokens_are_fresh_per_registration() {
    let mut it = Interactor::new();
    let a = it.add_command(b"one").unwrap();
    let b = it.add_command(b"two").unwrap();
    assert_ne!(a, b);
    it.remove_command(b"one").unwrap();
    let c = it.add_command(b"one").unwrap();
    assert_ne!(a, c);
    assert_ne!(b, c);
}

#[test]
fn trampoline_decodes_counted_argument_strings() {
    let mut it = Interactor::new();
    let ctx = it.add_command(b"echo").unwrap();
    let raw = vec![b"alpha\0".to_vec(), b"beta\0junk".to_vec()];
    let inv = it.command_callback(ctx, &raw).unwrap();
    assert_eq!(inv.context, ctx);
    assert_eq!(inv.args, vec![b"alpha".to_vec(), b"beta".to_vec()]);
}

#[test]
fn trampoline_rejects_unknown_context_as_abi_violation() {
    let it = Interactor::new();
    let raw = vec![b"x\0".to_vec()];
    assert!(matches!(it.command_callback(99, &raw), Err(AbiViolation::UnresolvedContext)));
}

#[test]
fn command_action_with_terminator_rejected() {
    let mut it = Interactor::new();
    assert_eq!(it.add_command(b"bad\0name"), Err(MarshalError::EmbeddedTerminator));
    assert_eq!(it.remove_command(b"bad\0name"), Err(MarshalError::EmbeddedTerminator));
    let args = vec![b"with\0nul".to_vec()];
    it.add_command(b"ok").unwrap();
    assert!(matches!(it.trigger_command(b"ok", &args), Err(MarshalError::EmbeddedTerminator)));
}

#[test]
fn command_actions_listed_in_registration_order() {
    let mut it = Interactor::new();
    it.init_commands();
    it.add_command(b"first").unwrap();
    it.add_command(b"second").unwrap();
    assert_eq!(it.get_command_actions(), vec![b"first".to_vec(), b"second".to_vec()]);
}

#[test]
fn bindings_grouped_and_removable() {
    let mut it = Interactor::new();
    it.init_bindings();
    let b1 = InteractionBind {
        modifier_keys: InteractionBindModifierKeys::InteractionBindCtrl,
        interaction_key: b"O".to_vec(),
    };
    let b2 = InteractionBind {
        modifier_keys: InteractionBindModifierKeys::InteractionBindNone,
        interaction_key: b"G".to_vec(),
    };
    it.add_binding(b1.duplicate(), vec![b"open".to_vec()], Some(b"Files"));
    it.add_binding(b2.duplicate(), vec![b"grid".to_vec()], Some(b"Scene"));

    let files = it.get_bindings_for_group(b"Files");
    assert_eq!(files.len(), 1);
    assert!(files[0].equals(&b1));
    assert!(it.get_bindings_for_group(b"Scene")[0].equals(&b2));
    assert!(it.get_bindings_for_group(b"Other").is_empty());

    assert!(it.remove_binding(&b1));
    assert!(!it.remove_binding(&b1));
    assert!(it.get_bindings_for_group(b"Files").is_empty());
}

#[test]
fn reinstalling_a_binding_replaces_its_entry() {
    let mut it = Interactor::new();
    let b = InteractionBind {
        modifier_keys: InteractionBindModifierKeys::InteractionBindShift,
        interaction_key: b"Y".to_vec(),
    };
    it.add_binding(b.duplicate(), vec![b"one".to_vec()], Some(b"G"));
    it.add_binding(b.duplicate(), vec![b"two".to_vec()], Some(b"H"));
    assert!(it.get_bindings_for_group(b"G").is_empty());
    assert_eq!(it.get_bindings_for_group(b"H").len(), 1);
}

#[test]
fn animation_state_machine() {
    let mut it = Interactor::new();
    assert!(!it.is_playing_animation());
    it.start_animation(InteractorAnimationDirection::InteractorAnimationBackward);
    assert!(it.is_playing_animation());
    assert!(matches!(
        it.get_animation_direction(),
        InteractorAnimationDirection::InteractorAnimationBackward
    ));
    it.stop_animation();
    assert!(!it.is_playing_animation());
    it.toggle_animation(InteractorAnimationDirection::InteractorAnimationForward);
    assert!(it.is_playing_animation());
    assert!(matches!(
        it.get_animation_direction(),
        InteractorAnimationDirection::InteractorAnimationForward
    ));
    it.toggle_animation(InteractorAnimationDirection::InteractorAnimationBackward);
    assert!(!it.is_playing_animation());
}

#[test]
fn loop_runs_until_stop_request_is_observed() {
    let mut it = Interactor::new();
    it.start((1.0f64 / 30.0).to_bits());
    it.trigger_event_loop((0.033f64).to_bits());
    // no stop requested: still running
    it.request_render();
    it.request_stop();
    it.trigger_event_loop((0.033f64).to_bits());
    // the request was observed; a fresh start is accepted again
    it.start((1.0f64 / 60.0).to_bits());
    it.stop();
}

#[test]
fn input_triggers_and_recording() {
    let mut it = Interactor::new();
    it.trigger_mod_update(InteractorInputModifier::InteractorInputCtrl);
    it.trigger_mouse_button(
        InteractorInputaction::InteractorInputPress,
        InteractorMouseButton::InteractorMouseButtonLeft,
    );
    it.trigger_mouse_position((10.0f64).to_bits(), (20.0f64).to_bits());
    it.trigger_mouse_wheel(InteractorWheelDirection::InteractorWheelForward);
    it.trigger_keyboard_key(InteractorInputaction::InteractorInputRelease, 'a');
    it.trigger_text_character(0x41);
    it.enable_camera_movement();
    it.disable_camera_movement();
    assert_eq!(it.record_interaction(b"out\0.log"), Err(MarshalError::EmbeddedTerminator));
    it.record_interaction(b"out.log").unwrap();
    it.play_interaction(b"out.log", (0.01f64).to_bits()).unwrap();
}

#[test]
fn interactor_enums_raw_round_trips() {
    for v in 0..4u32 {
        assert_eq!(InteractorBindType::from_raw(v).unwrap().to_raw(), v);
        assert_eq!(InteractorWheelDirection::from_raw(v).unwrap().to_raw(), v);
        assert_eq!(InteractorInputModifier::from_raw(v).unwrap().to_raw(), v);
    }
    for v in 0..3u32 {
        assert_eq!(InteractorMouseButton::from_raw(v).unwrap().to_raw(), v);
    }
    for v in 0..2u32 {
        assert_eq!(InteractorInputaction::from_raw(v).unwrap().to_raw(), v);
        assert_eq!(InteractorAnimationDirection::from_raw(v).unwrap().to_raw(), v);
    }
    assert!(InteractorBindType::from_raw(4).is_none());
    assert!(InteractorMouseButton::from_raw(3).is_none());
    assert!(InteractorWheelDirection::from_raw(4).is_none());
    assert!(InteractorInputaction::from_raw(2).is_none());
    assert!(InteractorInputModifier::from_raw(4).is_none());
    assert!(InteractorAnimationDirection::from_raw(2).is_none());
}

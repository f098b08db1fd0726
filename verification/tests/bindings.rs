use f3d::binding::BindingParseError;
use f3d::binding::InteractionBind;
use f3d::binding::InteractionBindModifierKeys;
use f3d::binding::RawInteractionBind;
use f3d::interactor::BindingDocumentation;

fn bind(m: InteractionBindModifierKeys, key: &[u8]) -> InteractionBind {
    InteractionBind { modifier_keys: m, interaction_key: key.to_vec() }
}

#[test]
fn format_is_prefix_plus_key() {
    let b = bind(InteractionBindModifierKeys::InteractionBindCtrl, b"O");
    assert_eq!(b.format(), b"CTRL+O".to_vec());
    let b = bind(InteractionBindModifierKeys::InteractionBindNone, b"Escape");
    assert_eq!(b.format(), b"Escape".to_vec());
    let b = bind(InteractionBindModifierKeys::InteractionBindCtrlShft, b"Y");
    assert_eq!(b.format(), b"CTRL+SHIFT+Y".to_vec());
    let b = bind(InteractionBindModifierKeys::InteractionBindAny, b"K");
    assert_eq!(b.format(), b"ANY+K".to_vec());
    let b = bind(InteractionBindModifierKeys::InteractionBindShift, b"X");
    assert_eq!(b.format(), b"SHIFT+X".to_vec());
}

#[test]
fn parse_recognizes_each_prefix() {
    let b = InteractionBind::parse(b"CTRL+SHIFT+Y").unwrap();
    assert!(matches!(b.modifier_keys, InteractionBindModifierKeys::InteractionBindCtrlShft));
    assert_eq!(b.interaction_key, b"Y".to_vec());

    let b = InteractionBind::parse(b"CTRL+O").unwrap();
    assert!(matches!(b.modifier_keys, InteractionBindModifierKeys::InteractionBindCtrl));
    assert_eq!(b.interaction_key, b"O".to_vec());

    let b = InteractionBind::parse(b"SHIFT+F1").unwrap();
    assert!(matches!(b.modifier_keys, InteractionBindModifierKeys::InteractionBindShift));
    assert_eq!(b.interaction_key, b"F1".to_vec());

    let b = InteractionBind::parse(b"ANY+Space").unwrap();
    assert!(matches!(b.modifier_keys, InteractionBindModifierKeys::InteractionBindAny));
    assert_eq!(b.interaction_key, b"Space".to_vec());

    let b = InteractionBind::parse(b"Escape").unwrap();
    assert!(matches!(b.modifier_keys, InteractionBindModifierKeys::InteractionBindNone));
    assert_eq!(b.interaction_key, b"Escape".to_vec());
}

#[test]
fn parse_rejects_empty_or_invalid_key() {
    assert!(matches!(InteractionBind::parse(b"CTRL+"), Err(BindingParseError::InvalidKeyToken)));
    assert!(matches!(InteractionBind::parse(b""), Err(BindingParseError::InvalidKeyToken)));
    assert!(matches!(
        InteractionBind::parse(b"CTRL+A+B"),
        Err(BindingParseError::InvalidKeyToken)
    ));
}

#[test]
fn parse_format_round_trip_each_modifier() {
    let mods = [
        InteractionBindModifierKeys::InteractionBindAny,
        InteractionBindModifierKeys::InteractionBindNone,
        InteractionBindModifierKeys::InteractionBindCtrl,
        InteractionBindModifierKeys::InteractionBindShift,
        InteractionBindModifierKeys::InteractionBindCtrlShft,
    ];
    for m in mods.iter() {
        let b = bind(*m, b"F12");
        let text = b.format();
        let parsed = InteractionBind::parse(&text).unwrap();
        assert!(parsed.equals(&b));
        // and the formatted text is canonical: formatting again reproduces it
        assert_eq!(parsed.format(), text);
    }
}

#[test]
fn order_is_transitive_and_consistent_with_equals() {
    let a = bind(InteractionBindModifierKeys::InteractionBindNone, b"A");
    let b = bind(InteractionBindModifierKeys::InteractionBindCtrl, b"A");
    let c = bind(InteractionBindModifierKeys::InteractionBindCtrl, b"B");
    assert!(a.less_than(&b));
    assert!(b.less_than(&c));
    assert!(a.less_than(&c));

    let a2 = bind(InteractionBindModifierKeys::InteractionBindNone, b"A");
    assert!(a.equals(&a2));
    assert!(!a.less_than(&a2));
    assert!(!a2.less_than(&a));

    assert!(!b.equals(&c));
    assert!(b.less_than(&c) || c.less_than(&b));
}

#[test]
fn key_order_is_lexicographic() {
    let ab = bind(InteractionBindModifierKeys::InteractionBindNone, b"AB");
    let abc = bind(InteractionBindModifierKeys::InteractionBindNone, b"ABC");
    let b_ = bind(InteractionBindModifierKeys::InteractionBindNone, b"B");
    assert!(ab.less_than(&abc));
    assert!(abc.less_than(&b_));
    assert!(ab.less_than(&b_));
}

#[test]
fn modifier_raw_round_trip() {
    let mods = [
        (InteractionBindModifierKeys::InteractionBindAny, 0x80u8),
        (InteractionBindModifierKeys::InteractionBindNone, 0x00),
        (InteractionBindModifierKeys::InteractionBindCtrl, 0x01),
        (InteractionBindModifierKeys::InteractionBindShift, 0x02),
        (InteractionBindModifierKeys::InteractionBindCtrlShft, 0x03),
    ];
    for (m, raw) in mods.iter() {
        assert_eq!(m.to_raw(), *raw);
        let back = InteractionBindModifierKeys::from_raw(*raw).unwrap();
        assert_eq!(back.to_raw(), *raw);
    }
    assert!(InteractionBindModifierKeys::from_raw(0x7f).is_none());
}

#[test]
fn bind_raw_round_trip() {
    let b = bind(InteractionBindModifierKeys::InteractionBindShift, b"Up");
    let raw = b.to_raw();
    assert_eq!(raw.mod_, 0x02);
    assert_eq!(raw.inter.len(), 256);
    assert_eq!(raw.inter[0], b'U');
    assert_eq!(raw.inter[2], 0);
    let back = InteractionBind::from_raw(&raw).unwrap();
    assert!(back.equals(&b));
}

#[test]
fn bind_from_raw_rejects_unknown_modifier() {
    let raw = RawInteractionBind { mod_: 0x55, inter: vec![0u8; 256] };
    assert!(InteractionBind::from_raw(&raw).is_none());
    let raw = RawInteractionBind { mod_: 0x1_0000, inter: vec![0u8; 256] };
    assert!(InteractionBind::from_raw(&raw).is_none());
}

#[test]
fn binding_documentation_raw_round_trip() {
    let d = BindingDocumentation::new(b"toggles the grid".to_vec(), b"ON".to_vec());
    let raw = d.to_raw();
    assert_eq!(raw.doc.len(), 512);
    assert_eq!(raw.value.len(), 256);
    let back = BindingDocumentation::from_raw(&raw);
    assert_eq!(back.doc(), d.doc());
    assert_eq!(back.value(), d.value());
}

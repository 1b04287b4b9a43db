use ibrus::keys::{IBusModifierState, KEY_BACKSPACE, KEY_DELETE, KEY_DOWN, KEY_ESCAPE, KEY_LEFT,
    KEY_RETURN, KEY_RIGHT, KEY_SPACE, KEY_UP, KEY_A_LOWER, KEY_Z_LOWER, KEY_A_UPPER, KEY_Z_UPPER,
    KEY_0, KEY_9};

#[test]
fn keysym_values_match_xkeysym() {
    assert_eq!(KEY_A_LOWER, u32::from(xkeysym::Keysym::a));
    assert_eq!(KEY_Z_LOWER, u32::from(xkeysym::Keysym::z));
    assert_eq!(KEY_A_UPPER, u32::from(xkeysym::Keysym::A));
    assert_eq!(KEY_Z_UPPER, u32::from(xkeysym::Keysym::Z));
    assert_eq!(KEY_0, u32::from(xkeysym::Keysym::_0));
    assert_eq!(KEY_9, u32::from(xkeysym::Keysym::_9));
    assert_eq!(KEY_SPACE, u32::from(xkeysym::Keysym::space));
    assert_eq!(KEY_RETURN, u32::from(xkeysym::Keysym::Return));
    assert_eq!(KEY_ESCAPE, u32::from(xkeysym::Keysym::Escape));
    assert_eq!(KEY_BACKSPACE, u32::from(xkeysym::Keysym::BackSpace));
    assert_eq!(KEY_DELETE, u32::from(xkeysym::Keysym::Delete));
    assert_eq!(KEY_LEFT, u32::from(xkeysym::Keysym::Left));
    assert_eq!(KEY_UP, u32::from(xkeysym::Keysym::Up));
    assert_eq!(KEY_RIGHT, u32::from(xkeysym::Keysym::Right));
    assert_eq!(KEY_DOWN, u32::from(xkeysym::Keysym::Down));
}

#[test]
fn modifier_bits() {
    let none = IBusModifierState::new_with_raw_value(0);
    assert!(!none.shift());
    assert!(!none.has_special_modifiers());
    assert!(none.is_keydown());
    assert!(!none.is_keyup());

    let shift = IBusModifierState::new_with_raw_value(0x1);
    assert!(shift.shift());
    assert!(!shift.has_special_modifiers());

    // control, mod1 (alt), mod4, super, hyper, meta are "special"
    for mask in [0x4u32, 0x8, 0x40, 0x400_0000, 0x800_0000, 0x1000_0000] {
        let m = IBusModifierState::new_with_raw_value(mask);
        assert!(m.has_special_modifiers(), "mask {mask:#x}");
        assert!(!m.shift());
    }

    // lock (caps) and mod2 (num lock) are not special
    for mask in [0x2u32, 0x10] {
        let m = IBusModifierState::new_with_raw_value(mask);
        assert!(!m.has_special_modifiers(), "mask {mask:#x}");
    }

    let up = IBusModifierState::new_with_raw_value(0x4000_0000);
    assert!(up.is_keyup());
    assert!(!up.is_keydown());
    assert_eq!(up.raw_value(), 0x4000_0000);
}

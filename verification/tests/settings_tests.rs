use murmur::settings::{default_auto_copy, default_hotkey, save_auto_copy, save_hotkey, AppSettings};

#[test]
fn defaults_match_the_shipped_configuration() {
    assert_eq!(default_hotkey(), "control+shift+KeyS");
    assert!(!default_auto_copy());
    let settings = AppSettings::default();
    assert_eq!(settings.hotkey, "control+shift+KeyS");
    assert!(!settings.auto_copy);
}

#[test]
fn saving_a_hotkey_keeps_other_settings() {
    let mut settings = AppSettings::default();
    save_auto_copy(&mut settings, true);
    save_hotkey(&mut settings, String::from("alt+Space"));
    assert_eq!(settings.hotkey, "alt+Space");
    assert!(settings.auto_copy);
}

#[test]
fn saving_auto_copy_keeps_the_hotkey() {
    let mut settings = AppSettings::default();
    save_auto_copy(&mut settings, true);
    assert!(settings.auto_copy);
    assert_eq!(settings.hotkey, "control+shift+KeyS");
    save_auto_copy(&mut settings, false);
    assert!(!settings.auto_copy);
}

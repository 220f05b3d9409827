use vstd::prelude::*;

verus! {

/// The persisted user settings: the push-to-talk hotkey (in its canonical
/// spelling) and whether finished transcripts are copied to the clipboard.
/// Reading and writing the settings file is the shell's business; this type
/// is the record it keeps in step.
#[derive(Debug)]
pub struct AppSettings {
    pub hotkey: String,
    pub auto_copy: bool,
}

/// The hotkey used until the user picks another.
pub fn default_hotkey() -> (r: String)
    ensures
        r@ == "control+shift+KeyS"@,
{
    String::from_str("control+shift+KeyS")
}

/// Whether transcripts are auto-copied until the user says otherwise.
pub fn default_auto_copy() -> (r: bool)
    ensures
        !r,
{
    false
}

impl Default for AppSettings {
    fn default() -> (r: AppSettings)
        ensures
            r.hotkey@ == "control+shift+KeyS"@,
            !r.auto_copy,
    {
        AppSettings { hotkey: default_hotkey(), auto_copy: default_auto_copy() }
    }
}

/// Stores a new hotkey, leaving the other settings untouched. The caller
/// hands in the canonical spelling its shortcut registry produced.
pub fn save_hotkey(settings: &mut AppSettings, hotkey: String)
    ensures
        final(settings).hotkey == hotkey,
        final(settings).auto_copy == old(settings).auto_copy,
{
    settings.hotkey = hotkey;
}

/// Stores the auto-copy choice, leaving the other settings untouched.
pub fn save_auto_copy(settings: &mut AppSettings, enabled: bool)
    ensures
        final(settings).hotkey == old(settings).hotkey,
        final(settings).auto_copy == enabled,
{
    settings.auto_copy = enabled;
}

} // verus!

use vstd::prelude::*;

verus! {

/// The settings page: one editable setting and whether it has unsaved edits.
#[derive(Debug)]
pub struct SettingsScreen {
    setting_one: String,
    is_dirty: bool,
}

/// A change on the settings page.
#[derive(Clone, Debug)]
pub enum SettingsMessage {
    /// The edits are saved.
    Save,
    /// The first setting was edited to this text.
    SettingOneUpdated(String),
}

impl SettingsScreen {
    /// The settings page as it opens: the first setting holds
    /// "starting setting" and nothing is unsaved.
    pub fn new() -> (r: Self)
        ensures
            r.setting_one()@ == "starting setting"@,
            !r.is_dirty(),
    {
        SettingsScreen { setting_one: String::from_str("starting setting"), is_dirty: false }
    }

    /// The text of the first setting.
    pub closed spec fn setting_one(&self) -> String {
        self.setting_one
    }

    /// Whether there are edits that were not saved.
    pub closed spec fn is_dirty(&self) -> bool {
        self.is_dirty
    }

    /// Applies a change: saving clears the unsaved mark; an edit replaces
    /// the setting and sets the mark.
    pub fn update(&mut self, message: SettingsMessage)
        ensures
            match message {
                SettingsMessage::Save => final(self).setting_one() == old(self).setting_one()
                    && !final(self).is_dirty(),
                SettingsMessage::SettingOneUpdated(v) => final(self).setting_one() == v
                    && final(self).is_dirty(),
            },
    {
        match message {
            SettingsMessage::Save => {
                self.is_dirty = false;
            },
            SettingsMessage::SettingOneUpdated(value) => {
                self.is_dirty = true;
                self.setting_one = value;
            },
        }
    }

    /// The text of the first setting.
    pub fn setting_one_text(&self) -> (r: &String)
        ensures
            *r == self.setting_one(),
    {
        &self.setting_one
    }

    /// Whether there are edits that were not saved.
    pub fn has_unsaved_edits(&self) -> (r: bool)
        ensures
            r == self.is_dirty(),
    {
        self.is_dirty
    }
}

} // verus!

//! The four settings, their names in the key-value store and their
//! defaults. The store itself is the caller's: these functions say what to
//! write, and how to read what the store gave back. The store keeps each
//! setting as an entry with one member, `value`, that holds its text.

use vstd::prelude::*;
use vstd::string::StringExecFns;

verus! {

/// One of the independently stored settings.
#[derive(Clone, Copy, Debug, PartialEq, Eq, Structural)]
pub enum SettingKey {
    ApiKey,
    AppId,
    Shortcut,
    Theme,
}

impl SettingKey {
    /// The name under which the setting is stored.
    pub open spec fn spec_name(self) -> Seq<char> {
        match self {
            SettingKey::ApiKey => "api-key"@,
            SettingKey::AppId => "app-id"@,
            SettingKey::Shortcut => "shortcut"@,
            SettingKey::Theme => "theme"@,
        }
    }

    /// The value that stands for a setting that was never stored.
    pub open spec fn spec_default(self) -> Seq<char> {
        match self {
            SettingKey::ApiKey => ""@,
            SettingKey::AppId => ""@,
            SettingKey::Shortcut => "Ctrl+Q"@,
            SettingKey::Theme => "system"@,
        }
    }

    /// The name under which the setting is stored.
    pub fn name(self) -> (r: &'static str)
        ensures
            r@ == self.spec_name(),
    {
        match self {
            SettingKey::ApiKey => "api-key",
            SettingKey::AppId => "app-id",
            SettingKey::Shortcut => "shortcut",
            SettingKey::Theme => "theme",
        }
    }

    /// The value that stands for a setting that was never stored.
    pub fn default_value(self) -> (r: &'static str)
        ensures
            r@ == self.spec_default(),
    {
        match self {
            SettingKey::ApiKey => "",
            SettingKey::AppId => "",
            SettingKey::Shortcut => "Ctrl+Q",
            SettingKey::Theme => "system",
        }
    }
}

/// What a member of a stored entry holds: a text, or anything else.
#[derive(Debug, PartialEq, Eq)]
pub enum Member {
    Text(String),
    Other,
}

/// A stored entry: its members with their names, in order. Of two members
/// with one name the first counts. A stored value that has no members is
/// an entry without any.
#[derive(Debug, PartialEq, Eq)]
pub struct StoredEntry {
    pub members: Vec<(String, Member)>,
}

/// A member over characters: its text, or `None` for anything else.
pub type MemberModel = Option<Seq<char>>;

/// An entry over characters.
pub type EntryModel = Seq<(Seq<char>, MemberModel)>;

impl View for Member {
    type V = MemberModel;

    open spec fn view(&self) -> MemberModel {
        match *self {
            Member::Text(t) => Some(t@),
            Member::Other => None,
        }
    }
}

impl View for StoredEntry {
    type V = EntryModel;

    open spec fn view(&self) -> EntryModel {
        Seq::new(self.members@.len(), |i: int| (self.members@[i].0@, self.members@[i].1@))
    }
}

/// The name of the member that holds a setting's text.
pub open spec fn value_member() -> Seq<char> {
    "value"@
}

/// The text of the first member of that name from place `from` on, if
/// there is such a member and it holds a text.
pub open spec fn member_text_from(entry: EntryModel, name: Seq<char>, from: int) -> Option<
    Seq<char>,
>
    decreases entry.len() - from,
{
    if from < 0 || from >= entry.len() {
        None
    } else if entry[from].0 == name {
        entry[from].1
    } else {
        member_text_from(entry, name, from + 1)
    }
}

/// The text that an entry holds for a setting: that of its member `value`.
pub open spec fn entry_text(entry: Option<EntryModel>) -> Option<Seq<char>> {
    match entry {
        Some(e) => member_text_from(e, value_member(), 0),
        None => None,
    }
}

/// The entry that holds `value` as a setting's text.
pub open spec fn entry_of(value: Seq<char>) -> EntryModel {
    seq![(value_member(), Some(value))]
}

/// The setting's value, given the text that the store holds for it.
pub open spec fn setting_value(key: SettingKey, stored: Option<Seq<char>>) -> Seq<char> {
    match stored {
        Some(v) => v,
        None => key.spec_default(),
    }
}

/// What an optional entry holds.
pub open spec fn entry_view(entry: Option<&StoredEntry>) -> Option<EntryModel> {
    match entry {
        Some(e) => Some(e@),
        None => None,
    }
}

/// What an optional text holds.
pub open spec fn text_view(stored: Option<&str>) -> Option<Seq<char>> {
    match stored {
        Some(v) => Some(v@),
        None => None,
    }
}

impl StoredEntry {
    /// The entry that holds `value` as a setting's text.
    pub fn of(value: String) -> (r: StoredEntry)
        ensures
            r@ == entry_of(value@),
    {
        let mut members: Vec<(String, Member)> = Vec::new();
        members.push((String::from_str("value"), Member::Text(value)));
        let r = StoredEntry { members };
        assert(r@ =~= entry_of(value@));
        r
    }

    /// The text the entry holds for a setting, if it holds one.
    pub fn text(&self) -> (r: Option<&str>)
        ensures
            text_view(r) == entry_text(Some(self@)),
    {
        let name = String::from_str("value");
        let mut i: usize = 0;
        while i < self.members.len()
            invariant
                i <= self.members@.len(),
                name@ == value_member(),
                member_text_from(self@, value_member(), 0) == member_text_from(
                    self@,
                    value_member(),
                    i as int,
                ),
            decreases self.members@.len() - i,
        {
            if self.members[i].0 == name {
                return match &self.members[i].1 {
                    Member::Text(t) => Some(t.as_str()),
                    Member::Other => None,
                };
            }
            i = i + 1;
        }
        None
    }
}

/// An entry to put into the store under a name.
#[derive(Debug, PartialEq, Eq)]
pub struct StoreWrite {
    pub name: String,
    pub entry: StoredEntry,
}

/// The store as a map from names to entries.
pub type StoreModel = Map<Seq<char>, EntryModel>;

/// What the store gives back for a name.
pub open spec fn lookup(store: StoreModel, name: Seq<char>) -> Option<EntryModel> {
    if store.dom().contains(name) {
        Some(store[name])
    } else {
        None
    }
}

/// The store after a write.
pub open spec fn written(store: StoreModel, name: Seq<char>, entry: EntryModel) -> StoreModel {
    store.insert(name, entry)
}

/// A snapshot of all four settings.
#[derive(Debug, PartialEq, Eq)]
pub struct Settings {
    pub api_key: String,
    pub app_id: String,
    pub shortcut: String,
    pub theme: String,
}

/// Reads and writes the settings. It holds no state: every read goes by
/// what the store holds at that moment.
pub struct ConfigManager;

impl ConfigManager {
    /// The file that backs the store.
    pub fn store_path() -> (r: &'static str)
        ensures
            r@ == "settings.json"@,
    {
        "settings.json"
    }

    /// The value of `key`, given the entry that the store returned under
    /// its name: the entry's text, or the default where there is no entry
    /// or no text in it.
    pub fn read(key: SettingKey, entry: Option<&StoredEntry>) -> (r: String)
        ensures
            r@ == setting_value(key, entry_text(entry_view(entry))),
    {
        let stored = match entry {
            Some(e) => e.text(),
            None => None,
        };
        match stored {
            Some(v) => String::from_str(v),
            None => String::from_str(key.default_value()),
        }
    }

    /// The write that stores `value` as `key`.
    pub fn write(key: SettingKey, value: String) -> (r: StoreWrite)
        ensures
            r.name@ == key.spec_name(),
            r.entry@ == entry_of(value@),
    {
        StoreWrite { name: String::from_str(key.name()), entry: StoredEntry::of(value) }
    }

    /// The write that stores the API key.
    pub fn save_api_key(key: String) -> (r: StoreWrite)
        ensures
            r.name@ == "api-key"@,
            r.entry@ == entry_of(key@),
    {
        Self::write(SettingKey::ApiKey, key)
    }

    /// The API key: the entry's text, or empty where none is stored.
    pub fn get_api_key(entry: Option<&StoredEntry>) -> (r: String)
        ensures
            r@ == match entry_text(entry_view(entry)) {
                Some(v) => v,
                None => ""@,
            },
    {
        Self::read(SettingKey::ApiKey, entry)
    }

    /// The write that stores the app id.
    pub fn save_app_id(app_id: String) -> (r: StoreWrite)
        ensures
            r.name@ == "app-id"@,
            r.entry@ == entry_of(app_id@),
    {
        Self::write(SettingKey::AppId, app_id)
    }

    /// The app id: the entry's text, or empty where none is stored.
    pub fn get_app_id(entry: Option<&StoredEntry>) -> (r: String)
        ensures
            r@ == match entry_text(entry_view(entry)) {
                Some(v) => v,
                None => ""@,
            },
    {
        Self::read(SettingKey::AppId, entry)
    }

    /// The write that stores the shortcut.
    pub fn save_shortcut(shortcut: String) -> (r: StoreWrite)
        ensures
            r.name@ == "shortcut"@,
            r.entry@ == entry_of(shortcut@),
    {
        Self::write(SettingKey::Shortcut, shortcut)
    }

    /// The shortcut: the entry's text, or `Ctrl+Q` where none is stored.
    pub fn get_shortcut(entry: Option<&StoredEntry>) -> (r: String)
        ensures
            r@ == match entry_text(entry_view(entry)) {
                Some(v) => v,
                None => "Ctrl+Q"@,
            },
    {
        Self::read(SettingKey::Shortcut, entry)
    }

    /// The write that stores the theme.
    pub fn save_theme(theme: String) -> (r: StoreWrite)
        ensures
            r.name@ == "theme"@,
            r.entry@ == entry_of(theme@),
    {
        Self::write(SettingKey::Theme, theme)
    }

    /// The theme: the entry's text, or `system` where none is stored.
    pub fn get_theme(entry: Option<&StoredEntry>) -> (r: String)
        ensures
            r@ == match entry_text(entry_view(entry)) {
                Some(v) => v,
                None => "system"@,
            },
    {
        Self::read(SettingKey::Theme, entry)
    }

    /// The name of the event that tells the presentation layer of a new
    /// theme.
    pub fn theme_event_name() -> (r: &'static str)
        ensures
            r@ == "theme-changed"@,
    {
        "theme-changed"
    }

    /// What follows the attempt to store a new theme: where it was stored,
    /// one event whose payload is the theme; where it was not, the store's
    /// complaint and no event.
    pub fn theme_notice(theme: String, persisted: Result<(), String>) -> (r: Result<String, String>)
        ensures
            persisted is Ok ==> r is Ok && r->Ok_0@ == theme@,
            persisted matches Err(why) ==> r is Err && r->Err_0@ == why@,
    {
        match persisted {
            Ok(_) => Ok(theme),
            Err(why) => Err(why),
        }
    }

    /// The snapshot of all four settings, each read from the entry that the
    /// store holds for it.
    pub fn get_settings(
        api_key: Option<&StoredEntry>,
        app_id: Option<&StoredEntry>,
        shortcut: Option<&StoredEntry>,
        theme: Option<&StoredEntry>,
    ) -> (r: Settings)
        ensures
            r.api_key@ == setting_value(SettingKey::ApiKey, entry_text(entry_view(api_key))),
            r.app_id@ == setting_value(SettingKey::AppId, entry_text(entry_view(app_id))),
            r.shortcut@ == setting_value(SettingKey::Shortcut, entry_text(entry_view(shortcut))),
            r.theme@ == setting_value(SettingKey::Theme, entry_text(entry_view(theme))),
    {
        Settings {
            api_key: Self::get_api_key(api_key),
            app_id: Self::get_app_id(app_id),
            shortcut: Self::get_shortcut(shortcut),
            theme: Self::get_theme(theme),
        }
    }
}

/// The names of two different settings differ.
pub proof fn names_distinct(a: SettingKey, b: SettingKey)
    requires
        a != b,
    ensures
        a.spec_name() != b.spec_name(),
{
    reveal_strlit("api-key");
    reveal_strlit("app-id");
    reveal_strlit("shortcut");
    reveal_strlit("theme");
    assert("api-key"@.len() == 7);
    assert("app-id"@.len() == 6);
    assert("shortcut"@.len() == 8);
    assert("theme"@.len() == 5);
}

/// A setting that was saved reads back as the value saved, and saving it
/// changes no other setting.
pub proof fn save_then_read(store: StoreModel, key: SettingKey, value: Seq<char>, other: SettingKey)
    ensures
        setting_value(
            key,
            entry_text(lookup(written(store, key.spec_name(), entry_of(value)), key.spec_name())),
        ) == value,
        other != key ==> lookup(written(store, key.spec_name(), entry_of(value)), other.spec_name())
            == lookup(store, other.spec_name()),
{
    if other != key {
        names_distinct(other, key);
    }
}

/// A setting that the store does not hold reads as its default.
pub proof fn absent_reads_default(store: StoreModel, key: SettingKey)
    requires
        !store.dom().contains(key.spec_name()),
    ensures
        setting_value(key, entry_text(lookup(store, key.spec_name()))) == key.spec_default(),
{
}

} // verus!

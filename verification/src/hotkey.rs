//! Hotkey dispatch and the protocol that replaces the registered shortcut.
//! Registration and persistence are the caller's: the protocol hands out
//! one action at a time and takes its outcome as the next event.

use vstd::prelude::*;
use vstd::string::StringExecFns;

verus! {

/// A parsed key combination: what tells two shortcuts apart.
#[derive(Clone, Copy, Debug, PartialEq, Eq, Structural)]
pub struct ShortcutDescriptor {
    pub modifiers: u32,
    pub key: u32,
}

/// Whether a key event starts a run: only a press, and only of the
/// shortcut that is configured at that moment. `configured` is `None`
/// where the stored shortcut does not parse.
pub fn should_dispatch(
    pressed: bool,
    fired: ShortcutDescriptor,
    configured: Option<ShortcutDescriptor>,
) -> (r: bool)
    ensures
        r == (pressed && configured == Some(fired)),
{
    match configured {
        Some(c) => pressed && c == fired,
        None => false,
    }
}

/// The hotkey that the `global-hotkey` crate's parser reads from a text, as
/// its modifier bits and its key code, or `None` where the parser refuses
/// the text. The parser reads the text and nothing else. It is the parser
/// of the platform that the library is built for: the spellings of
/// "command or control" stand for one modifier on macOS and for another
/// elsewhere.
pub uninterp spec fn parsed_hotkey(text: Seq<char>) -> Option<(u32, u32)>;

/// The shortcut that a text stands for, if it stands for one.
pub open spec fn shortcut_of(text: Seq<char>) -> Option<ShortcutDescriptor> {
    match parsed_hotkey(text) {
        Some(h) => Some(ShortcutDescriptor { modifiers: h.0, key: h.1 }),
        None => None,
    }
}

/// Calls `HotKey::from_str` of the `global-hotkey` crate, through
/// `str::parse`, and hands back the modifier bits and the key code of the
/// hotkey it parsed, or `None` where it refused the text. Trusted: the call
/// returns and does not panic; its result is [`parsed_hotkey`] of the
/// text; and it refuses the empty text, which holds no key.
#[verifier::external_body]
fn parse_hotkey(text: &str) -> (r: Option<ShortcutDescriptor>)
    ensures
        r is Some <==> parsed_hotkey(text@) is Some,
        r matches Some(d) ==> parsed_hotkey(text@) == Some((d.modifiers, d.key)),
        text@.len() == 0 ==> r is None,
{
    match text.parse::<global_hotkey::hotkey::HotKey>() {
        Ok(h) => Some(ShortcutDescriptor { modifiers: h.mods.bits(), key: h.key as u32 }),
        Err(_) => None,
    }
}

/// Parses a shortcut as the hotkey facility reads it: the shortcut that
/// the text stands for, or `None` where it stands for none. The empty text
/// stands for none.
pub fn parse_shortcut(text: &str) -> (r: Option<ShortcutDescriptor>)
    ensures
        r == shortcut_of(text@),
        text@.len() == 0 ==> r is None,
{
    parse_hotkey(text)
}

/// Whether a key event starts a run, with the configured shortcut parsed
/// anew from its stored text: on a press, and only where the text stands
/// for the very shortcut that fired. A text that stands for no shortcut,
/// the empty one among them, starts none.
pub fn dispatches(pressed: bool, fired: ShortcutDescriptor, configured: &str) -> (r: bool)
    ensures
        r == (pressed && shortcut_of(configured@) == Some(fired)),
        r ==> configured@.len() > 0,
{
    if pressed {
        should_dispatch(pressed, fired, parse_hotkey(configured))
    } else {
        false
    }
}

/// Whether the stored shortcut is registered when the program starts: only
/// where it is not empty and parses. A refusal by the hotkey facility is
/// not fatal; the shortcut can be changed later.
pub fn registers_at_startup(shortcut: &str, parsed: bool) -> (r: bool)
    ensures
        r == (shortcut@.len() > 0 && parsed),
{
    !shortcut.is_empty() && parsed
}

/// Why a shortcut could not be changed.
#[derive(Debug, PartialEq, Eq)]
pub enum ShortcutError {
    InvalidShortcutFormat,
    ShortcutRegistrationFailed(String),
    SettingsPersistenceFailed(String),
}

/// Character view of a [`ShortcutError`].
pub enum ShortcutErrorModel {
    InvalidShortcutFormat,
    ShortcutRegistrationFailed(Seq<char>),
    SettingsPersistenceFailed(Seq<char>),
}

impl View for ShortcutError {
    type V = ShortcutErrorModel;

    open spec fn view(&self) -> ShortcutErrorModel {
        match *self {
            ShortcutError::InvalidShortcutFormat => ShortcutErrorModel::InvalidShortcutFormat,
            ShortcutError::ShortcutRegistrationFailed(why) => {
                ShortcutErrorModel::ShortcutRegistrationFailed(why@)
            },
            ShortcutError::SettingsPersistenceFailed(why) => {
                ShortcutErrorModel::SettingsPersistenceFailed(why@)
            },
        }
    }
}

impl ShortcutErrorModel {
    /// The text returned to the caller of the command.
    pub open spec fn message(self) -> Seq<char> {
        match self {
            ShortcutErrorModel::InvalidShortcutFormat => "Invalid shortcut format"@,
            ShortcutErrorModel::ShortcutRegistrationFailed(why) => why,
            ShortcutErrorModel::SettingsPersistenceFailed(why) => why,
        }
    }
}

impl ShortcutError {
    /// The text returned to the caller of the command.
    pub fn message(&self) -> (r: String)
        ensures
            r@ == self@.message(),
    {
        match self {
            ShortcutError::InvalidShortcutFormat => String::from_str("Invalid shortcut format"),
            ShortcutError::ShortcutRegistrationFailed(why) => why.clone(),
            ShortcutError::SettingsPersistenceFailed(why) => why.clone(),
        }
    }
}

/// Where a change of shortcut stands.
#[derive(Clone, Copy, Debug, PartialEq, Eq, Structural)]
pub enum ChangeStage {
    /// The new descriptor has not been parsed yet.
    Fresh,
    /// All registrations are being removed.
    Clearing,
    /// The new shortcut is being registered.
    Registering,
    /// The new shortcut was refused; the old one is being registered again.
    Reverting,
    /// The new shortcut is being stored.
    Persisting,
    /// The result has been handed out.
    Finished,
}

/// What the caller reports back.
#[derive(Debug, PartialEq, Eq)]
pub enum ChangeEvent {
    /// Whether the new descriptor parses.
    Parsed(bool),
    /// All registrations were removed.
    Unregistered,
    /// The outcome of a registration.
    Registered(Result<(), String>),
    /// The outcome of storing the shortcut.
    Persisted(Result<(), String>),
}

/// Character view of a [`ChangeEvent`].
pub enum ChangeEventModel {
    Parsed(bool),
    Unregistered,
    Registered(Result<(), Seq<char>>),
    Persisted(Result<(), Seq<char>>),
}

impl View for ChangeEvent {
    type V = ChangeEventModel;

    open spec fn view(&self) -> ChangeEventModel {
        match *self {
            ChangeEvent::Parsed(ok) => ChangeEventModel::Parsed(ok),
            ChangeEvent::Unregistered => ChangeEventModel::Unregistered,
            ChangeEvent::Registered(Ok(_)) => ChangeEventModel::Registered(Ok(())),
            ChangeEvent::Registered(Err(why)) => ChangeEventModel::Registered(Err(why@)),
            ChangeEvent::Persisted(Ok(_)) => ChangeEventModel::Persisted(Ok(())),
            ChangeEvent::Persisted(Err(why)) => ChangeEventModel::Persisted(Err(why@)),
        }
    }
}

/// What the caller is to do next.
#[derive(Debug, PartialEq, Eq)]
pub enum ChangeAction {
    /// Remove every registration.
    UnregisterAll,
    /// Register this shortcut.
    Register(String),
    /// Store this shortcut as the configured one.
    Persist(String),
    /// Return this result; the change is over.
    Finish(Result<(), ShortcutError>),
    /// The event did not fit the stage: nothing to do.
    Ignore,
}

/// Character view of a [`ChangeAction`].
pub enum ChangeActionModel {
    UnregisterAll,
    Register(Seq<char>),
    Persist(Seq<char>),
    Finish(Result<(), ShortcutErrorModel>),
    Ignore,
}

impl View for ChangeAction {
    type V = ChangeActionModel;

    open spec fn view(&self) -> ChangeActionModel {
        match *self {
            ChangeAction::UnregisterAll => ChangeActionModel::UnregisterAll,
            ChangeAction::Register(s) => ChangeActionModel::Register(s@),
            ChangeAction::Persist(s) => ChangeActionModel::Persist(s@),
            ChangeAction::Finish(Ok(_)) => ChangeActionModel::Finish(Ok(())),
            ChangeAction::Finish(Err(e)) => ChangeActionModel::Finish(Err(e@)),
            ChangeAction::Ignore => ChangeActionModel::Ignore,
        }
    }
}

/// One change of the configured shortcut, from `old` to `new`.
pub struct ShortcutChange {
    stage: ChangeStage,
    old: String,
    new: String,
    refusal: String,
}

/// What a change holds: its stage, both shortcuts, and the reason the new
/// one was refused while the old one is being registered again.
pub struct ChangeModel {
    pub stage: ChangeStage,
    pub old: Seq<char>,
    pub new: Seq<char>,
    pub refusal: Seq<char>,
}

impl View for ShortcutChange {
    type V = ChangeModel;

    closed spec fn view(&self) -> ChangeModel {
        ChangeModel {
            stage: self.stage,
            old: self.old@,
            new: self.new@,
            refusal: self.refusal@,
        }
    }
}

impl ChangeModel {
    /// A change that has not begun.
    pub open spec fn fresh(old: Seq<char>, new: Seq<char>) -> ChangeModel {
        ChangeModel { stage: ChangeStage::Fresh, old, new, refusal: Seq::empty() }
    }

    /// The change with its stage replaced.
    pub open spec fn at(self, stage: ChangeStage) -> ChangeModel {
        ChangeModel { stage, ..self }
    }

    /// The change ended with the given result.
    pub open spec fn end(self, r: Result<(), ShortcutErrorModel>) -> (
        ChangeModel,
        ChangeActionModel,
    ) {
        (self.at(ChangeStage::Finished), ChangeActionModel::Finish(r))
    }

    /// The transition relation. A descriptor that does not parse is refused
    /// before anything is touched; an unchanged shortcut needs no work; a
    /// new one is stored only once it is registered; where it is refused,
    /// the old one is registered again before the failure is returned.
    pub open spec fn step(self, e: ChangeEventModel) -> (ChangeModel, ChangeActionModel) {
        match self.stage {
            ChangeStage::Fresh => match e {
                ChangeEventModel::Parsed(ok) => if !ok {
                    self.end(Err(ShortcutErrorModel::InvalidShortcutFormat))
                } else if self.old == self.new {
                    self.end(Ok(()))
                } else {
                    (self.at(ChangeStage::Clearing), ChangeActionModel::UnregisterAll)
                },
                _ => (self, ChangeActionModel::Ignore),
            },
            ChangeStage::Clearing => match e {
                ChangeEventModel::Unregistered => (
                    self.at(ChangeStage::Registering),
                    ChangeActionModel::Register(self.new),
                ),
                _ => (self, ChangeActionModel::Ignore),
            },
            ChangeStage::Registering => match e {
                ChangeEventModel::Registered(Ok(_)) => (
                    self.at(ChangeStage::Persisting),
                    ChangeActionModel::Persist(self.new),
                ),
                ChangeEventModel::Registered(Err(why)) => (
                    ChangeModel { stage: ChangeStage::Reverting, refusal: why, ..self },
                    ChangeActionModel::Register(self.old),
                ),
                _ => (self, ChangeActionModel::Ignore),
            },
            ChangeStage::Reverting => match e {
                ChangeEventModel::Registered(_) => self.end(
                    Err(ShortcutErrorModel::ShortcutRegistrationFailed(self.refusal)),
                ),
                _ => (self, ChangeActionModel::Ignore),
            },
            ChangeStage::Persisting => match e {
                ChangeEventModel::Persisted(Ok(_)) => self.end(Ok(())),
                ChangeEventModel::Persisted(Err(why)) => self.end(
                    Err(ShortcutErrorModel::SettingsPersistenceFailed(why)),
                ),
                _ => (self, ChangeActionModel::Ignore),
            },
            ChangeStage::Finished => (self, ChangeActionModel::Ignore),
        }
    }
}

impl ShortcutChange {
    /// A change from the stored shortcut `old` to `new`.
    pub fn new(old: String, new: String) -> (r: ShortcutChange)
        ensures
            r@ == ChangeModel::fresh(old@, new@),
    {
        ShortcutChange { stage: ChangeStage::Fresh, old, new, refusal: String::new() }
    }

    /// Begins a change from the stored shortcut `old` to `new`: parses
    /// `new` and takes the first step. A text that stands for no shortcut,
    /// the empty one among them, ends the change at once with
    /// `InvalidShortcutFormat`.
    pub fn begin(old: String, new: String) -> (r: (ShortcutChange, ChangeAction))
        ensures
            (r.0@, r.1@) == ChangeModel::fresh(old@, new@).step(
                ChangeEventModel::Parsed(shortcut_of(new@) is Some),
            ),
            new@.len() == 0 ==> r.1@ == ChangeActionModel::Finish(
                Err(ShortcutErrorModel::InvalidShortcutFormat),
            ),
    {
        let parsed = parse_hotkey(new.as_str()).is_some();
        ShortcutChange::new(old, new).step(ChangeEvent::Parsed(parsed))
    }

    /// The stage the change is in.
    pub fn stage(&self) -> (r: ChangeStage)
        ensures
            r == self@.stage,
    {
        self.stage
    }

    fn finish(self, result: Result<(), ShortcutError>) -> (r: (ShortcutChange, ChangeAction))
        ensures
            (r.0@, r.1@) == self@.end(
                match result {
                    Ok(_) => Ok(()),
                    Err(e) => Err(e@),
                },
            ),
    {
        (
            ShortcutChange {
                stage: ChangeStage::Finished,
                old: self.old,
                new: self.new,
                refusal: self.refusal,
            },
            ChangeAction::Finish(result),
        )
    }

    fn advance(self, stage: ChangeStage, action: ChangeAction) -> (r: (
        ShortcutChange,
        ChangeAction,
    ))
        ensures
            r.0@ == self@.at(stage),
            r.1 == action,
    {
        (ShortcutChange { stage, old: self.old, new: self.new, refusal: self.refusal }, action)
    }

    /// Takes one event: the next state, and the action to perform.
    pub fn step(self, event: ChangeEvent) -> (r: (ShortcutChange, ChangeAction))
        ensures
            (r.0@, r.1@) == self@.step(event@),
    {
        match self.stage {
            ChangeStage::Fresh => match event {
                ChangeEvent::Parsed(ok) => {
                    if !ok {
                        self.finish(Err(ShortcutError::InvalidShortcutFormat))
                    } else if self.old == self.new {
                        self.finish(Ok(()))
                    } else {
                        self.advance(ChangeStage::Clearing, ChangeAction::UnregisterAll)
                    }
                },
                _ => (self, ChangeAction::Ignore),
            },
            ChangeStage::Clearing => match event {
                ChangeEvent::Unregistered => {
                    let new = self.new.clone();
                    self.advance(ChangeStage::Registering, ChangeAction::Register(new))
                },
                _ => (self, ChangeAction::Ignore),
            },
            ChangeStage::Registering => match event {
                ChangeEvent::Registered(Ok(_)) => {
                    let new = self.new.clone();
                    self.advance(ChangeStage::Persisting, ChangeAction::Persist(new))
                },
                ChangeEvent::Registered(Err(why)) => {
                    let old = self.old.clone();
                    (
                        ShortcutChange {
                            stage: ChangeStage::Reverting,
                            old: self.old,
                            new: self.new,
                            refusal: why,
                        },
                        ChangeAction::Register(old),
                    )
                },
                _ => (self, ChangeAction::Ignore),
            },
            ChangeStage::Reverting => match event {
                ChangeEvent::Registered(_) => {
                    let why = self.refusal.clone();
                    self.finish(Err(ShortcutError::ShortcutRegistrationFailed(why)))
                },
                _ => (self, ChangeAction::Ignore),
            },
            ChangeStage::Persisting => match event {
                ChangeEvent::Persisted(Ok(_)) => self.finish(Ok(())),
                ChangeEvent::Persisted(Err(why)) => self.finish(
                    Err(ShortcutError::SettingsPersistenceFailed(why)),
                ),
                _ => (self, ChangeAction::Ignore),
            },
            ChangeStage::Finished => (self, ChangeAction::Ignore),
        }
    }
}

/// The hotkey facility and the store, as far as a change touches them:
/// the one shortcut that is registered, if any, and the one that is stored.
pub struct HotkeyWorld {
    pub active: Option<Seq<char>>,
    pub persisted: Seq<char>,
}

/// What an action does to the world when it succeeds (`ok`) or fails.
pub open spec fn effect(w: HotkeyWorld, a: ChangeActionModel, ok: bool) -> HotkeyWorld {
    match a {
        ChangeActionModel::UnregisterAll => HotkeyWorld { active: None, ..w },
        ChangeActionModel::Register(s) => if ok {
            HotkeyWorld { active: Some(s), ..w }
        } else {
            w
        },
        ChangeActionModel::Persist(s) => if ok {
            HotkeyWorld { persisted: s, ..w }
        } else {
            w
        },
        _ => w,
    }
}

/// Where registering the new shortcut fails, nothing is stored, the old
/// shortcut is registered again, and the failure is returned: if that
/// second registration succeeds, the world is as it was before the change.
pub proof fn failed_registration_keeps_old(
    old: Seq<char>,
    new: Seq<char>,
    why: Seq<char>,
    reverted: Result<(), Seq<char>>,
)
    requires
        old != new,
    ensures
        ({
            let w0 = HotkeyWorld { active: Some(old), persisted: old };
            let s1 = ChangeModel::fresh(old, new).step(ChangeEventModel::Parsed(true));
            let s2 = s1.0.step(ChangeEventModel::Unregistered);
            let s3 = s2.0.step(ChangeEventModel::Registered(Err(why)));
            let s4 = s3.0.step(ChangeEventModel::Registered(reverted));
            let w3 = effect(effect(effect(w0, s1.1, true), s2.1, false), s3.1, reverted is Ok);
            &&& s1.1 == ChangeActionModel::UnregisterAll
            &&& s2.1 == ChangeActionModel::Register(new)
            &&& s3.1 == ChangeActionModel::Register(old)
            &&& s4.1 == ChangeActionModel::Finish(
                Err(ShortcutErrorModel::ShortcutRegistrationFailed(why)),
            )
            &&& s4.0.stage == ChangeStage::Finished
            &&& w3.persisted == old
            &&& w3.active != Some(new)
            &&& reverted is Ok ==> w3 == w0
        }),
{
}

/// A descriptor that does not parse is refused at once: the only action
/// is the return of the error, so neither registration nor store changes.
pub proof fn invalid_format_touches_nothing(old: Seq<char>, new: Seq<char>)
    ensures
        ChangeModel::fresh(old, new).step(ChangeEventModel::Parsed(false)) == (
            ChangeModel::fresh(old, new).at(ChangeStage::Finished),
            ChangeActionModel::Finish(Err(ShortcutErrorModel::InvalidShortcutFormat)),
        ),
{
}

/// A shortcut is stored only after it was registered: a step hands out
/// `Persist` only on a successful registration of the new shortcut, and
/// then for that shortcut.
pub proof fn persist_only_after_registration(c: ChangeModel, e: ChangeEventModel)
    ensures
        c.step(e).1 is Persist ==> c.stage == ChangeStage::Registering
            && (e matches ChangeEventModel::Registered(Ok(_)))
            && c.step(e).1 == ChangeActionModel::Persist(c.new),
{
}

} // verus!

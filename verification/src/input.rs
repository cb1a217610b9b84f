//! Input: the commands the front end produces, the key and button maps, and
//! the touch-pointer rules that turn the front touch screen into one pointer.

use vstd::prelude::*;
use crate::data::{Category, SortOrder, SourceCatalog};
use crate::i18n::Language;

verus! {

/// A navigation command from a key, a button or the stick.
#[derive(Debug, Clone, Copy, PartialEq, Eq, Structural)]
pub enum InputCommand {
    Back,
    Confirm,
    MoveUp,
    MoveDown,
    MoveLeft,
    MoveRight,
    CategoryPrev,
    CategoryNext,
}

/// Which text field the on-screen keyboard fills.
#[derive(Debug, Clone, Copy, PartialEq, Eq, Structural)]
pub enum TextTarget {
    Search,
    Comment,
}

/// The store's top-level tabs.
#[derive(Debug, Clone, Copy, PartialEq, Eq, Structural)]
pub enum StoreTab {
    Discover,
    Library,
    Updates,
    Search,
}

impl StoreTab {
    /// The tab the store opens on.
    pub fn default_tab() -> (r: StoreTab)
        ensures
            r == StoreTab::Discover,
    {
        StoreTab::Discover
    }
}

/// The rails of the discover page.
#[derive(Debug, Clone, Copy, PartialEq, Eq, Structural)]
pub enum DiscoverRail {
    Top,
    New,
}

/// The groups of content types the home screen switches between.
#[derive(Debug, Clone, Copy, PartialEq, Eq, Structural)]
pub enum ContentTypeGroup {
    Home,
    Games,
    Apps,
    Emulators,
    Plugins,
}

/// Everything the user can ask the application to do.
#[derive(Debug, Clone, PartialEq)]
pub enum AppCommand {
    Input(InputCommand),
    SetSearchQuery(String),
    RequestSearch,
    CloseSearch,
    SetCategoryFilter(Option<Category>),
    SetFavoritesFilter(bool),
    SetGenreFilter(Option<String>),
    SetSourceFilter(Option<SourceCatalog>),
    SetSortOrder(SortOrder),
    FlipSortDirection,
    SelectApp { index: usize },
    SelectAppById(String),
    SetStoreTab(StoreTab),
    SeeAllRail(DiscoverRail),
    BackToDiscoverHome,
    MoreByAuthor(String),
    OpenScreenshot(usize),
    CloseScreenshot,
    BackToCatalog,
    InstallCurrent,
    DismissInstall,
    CancelInstall,
    CancelDataPrompt,
    OpenSettings,
    CloseSettings,
    SetLanguage(Language),
    ToggleInstallNotifications,
    ClearIconCache,
    ClearCatalogCache,
    PurgeAllCache,
    ToggleLike,
    RateCurrent(u8),
    RequestCommentEntry,
    CloseCommentEntry,
    SubmitComment(String),
    SelfUpdate,
}

impl From<InputCommand> for AppCommand {
    fn from(cmd: InputCommand) -> (r: AppCommand) {
        AppCommand::Input(cmd)
    }
}

impl vstd::std_specs::convert::FromSpecImpl<InputCommand> for AppCommand {
    open spec fn obeys_from_spec() -> bool {
        true
    }

    open spec fn from_spec(cmd: InputCommand) -> AppCommand {
        AppCommand::Input(cmd)
    }
}

/// The touch device id assumed to be the front screen when none is reported.
pub const FRONT_TOUCH_DEVICE_ID: i64 = 1;

/// The mouse id under which touches are reported again as mouse events.
pub const TOUCH_MOUSE_ID: u32 = 0xffff_ffff;

/// The keys the keyboard map reads.
#[derive(Debug, Clone, Copy, PartialEq, Eq, Structural)]
pub enum Key {
    Escape,
    Return,
    Up,
    Down,
    Left,
    Right,
    Q,
    PageUp,
    E,
    PageDown,
    F,
    Slash,
    L,
    C,
    S,
    Other,
}

/// The controller buttons the button map reads.
#[derive(Debug, Clone, Copy, PartialEq, Eq, Structural)]
pub enum PadButton {
    A,
    B,
    X,
    Y,
    Start,
    Back,
    LeftShoulder,
    RightShoulder,
    DPadUp,
    DPadDown,
    DPadLeft,
    DPadRight,
    Other,
}

/// The command a key press (not an auto-repeat) stands for.
pub open spec fn key_command(key: Key) -> Option<AppCommand> {
    match key {
        Key::Escape => Some(AppCommand::Input(InputCommand::Back)),
        Key::Return => Some(AppCommand::Input(InputCommand::Confirm)),
        Key::Up => Some(AppCommand::Input(InputCommand::MoveUp)),
        Key::Down => Some(AppCommand::Input(InputCommand::MoveDown)),
        Key::Left => Some(AppCommand::Input(InputCommand::MoveLeft)),
        Key::Right => Some(AppCommand::Input(InputCommand::MoveRight)),
        Key::Q | Key::PageUp => Some(AppCommand::Input(InputCommand::CategoryPrev)),
        Key::E | Key::PageDown => Some(AppCommand::Input(InputCommand::CategoryNext)),
        Key::F | Key::Slash => Some(AppCommand::RequestSearch),
        Key::L => Some(AppCommand::ToggleLike),
        Key::C => Some(AppCommand::RequestCommentEntry),
        Key::S => Some(AppCommand::FlipSortDirection),
        Key::Other => None,
    }
}

/// The command a controller button press stands for.
pub open spec fn button_command(button: PadButton) -> Option<AppCommand> {
    match button {
        PadButton::A => Some(AppCommand::Input(InputCommand::Confirm)),
        PadButton::B => Some(AppCommand::Input(InputCommand::Back)),
        PadButton::Y => Some(AppCommand::RequestSearch),
        PadButton::Start => Some(AppCommand::OpenSettings),
        PadButton::X => Some(AppCommand::ToggleLike),
        PadButton::Back => Some(AppCommand::FlipSortDirection),
        PadButton::LeftShoulder => Some(AppCommand::Input(InputCommand::CategoryPrev)),
        PadButton::RightShoulder => Some(AppCommand::Input(InputCommand::CategoryNext)),
        _ => None,
    }
}

/// The command for a key going down; auto-repeats give none.
pub fn map_key_press(key: Key, repeat: bool) -> (r: Option<AppCommand>)
    ensures
        r == (if repeat { None } else { key_command(key) }),
{
    if repeat {
        return None;
    }
    match key {
        Key::Escape => Some(AppCommand::Input(InputCommand::Back)),
        Key::Return => Some(AppCommand::Input(InputCommand::Confirm)),
        Key::Up => Some(AppCommand::Input(InputCommand::MoveUp)),
        Key::Down => Some(AppCommand::Input(InputCommand::MoveDown)),
        Key::Left => Some(AppCommand::Input(InputCommand::MoveLeft)),
        Key::Right => Some(AppCommand::Input(InputCommand::MoveRight)),
        Key::Q | Key::PageUp => Some(AppCommand::Input(InputCommand::CategoryPrev)),
        Key::E | Key::PageDown => Some(AppCommand::Input(InputCommand::CategoryNext)),
        Key::F | Key::Slash => Some(AppCommand::RequestSearch),
        Key::L => Some(AppCommand::ToggleLike),
        Key::C => Some(AppCommand::RequestCommentEntry),
        Key::S => Some(AppCommand::FlipSortDirection),
        Key::Other => None,
    }
}

/// The command for a controller button going down.
pub fn map_button_press(button: PadButton) -> (r: Option<AppCommand>)
    ensures
        r == button_command(button),
{
    match button {
        PadButton::A => Some(AppCommand::Input(InputCommand::Confirm)),
        PadButton::B => Some(AppCommand::Input(InputCommand::Back)),
        PadButton::Y => Some(AppCommand::RequestSearch),
        PadButton::Start => Some(AppCommand::OpenSettings),
        PadButton::X => Some(AppCommand::ToggleLike),
        PadButton::Back => Some(AppCommand::FlipSortDirection),
        PadButton::LeftShoulder => Some(AppCommand::Input(InputCommand::CategoryPrev)),
        PadButton::RightShoulder => Some(AppCommand::Input(InputCommand::CategoryNext)),
        _ => None,
    }
}

/// The direction of a held direction pad, checked up, down, left, right.
pub fn held_dpad_direction(up: bool, down: bool, left: bool, right: bool) -> (r: Option<InputCommand>)
    ensures
        r == (if up {
            Some(InputCommand::MoveUp)
        } else if down {
            Some(InputCommand::MoveDown)
        } else if left {
            Some(InputCommand::MoveLeft)
        } else if right {
            Some(InputCommand::MoveRight)
        } else {
            None
        }),
{
    if up {
        Some(InputCommand::MoveUp)
    } else if down {
        Some(InputCommand::MoveDown)
    } else if left {
        Some(InputCommand::MoveLeft)
    } else if right {
        Some(InputCommand::MoveRight)
    } else {
        None
    }
}

/// How a finger event changed.
#[derive(Debug, Clone, Copy, PartialEq, Eq, Structural)]
pub enum TouchPhase {
    Down,
    Motion,
    Up,
}

/// What the front end emits for a finger event, at the finger's position.
#[derive(Debug, Clone, Copy, PartialEq, Eq, Structural)]
pub enum PointerAction {
    /// Nothing.
    Ignore,
    /// Move the pointer there, then press the primary button.
    Press,
    /// Move the pointer there.
    Move,
    /// Release the primary button there.
    Release,
}

/// What a pointer emits at the start of the next frame.
#[derive(Debug, Clone, Copy, PartialEq, Eq, Structural)]
pub struct Deferred {
    /// Release the primary button at the last position (a touch was cancelled).
    pub cancel: bool,
    /// Report that the pointer left.
    pub gone: bool,
}

/// The touch pointer: one finger on the front screen drives it at a time.
pub struct Pointer {
    pub front_touch: i64,
    pub active_finger: Option<i64>,
    pub saw_finger: bool,
    pub release_pending: bool,
    pub cancel_pending: bool,
}

/// The pointer after a finger event, and what to emit for it.
pub open spec fn touch_step(p: Pointer, phase: TouchPhase, touch_id: i64, finger_id: i64) -> (Pointer, PointerAction) {
    if touch_id != p.front_touch {
        (p, PointerAction::Ignore)
    } else {
        match phase {
            TouchPhase::Down => if p.active_finger is Some {
                (p, PointerAction::Ignore)
            } else {
                (Pointer { active_finger: Some(finger_id), saw_finger: true, release_pending: false, ..p }, PointerAction::Press)
            },
            TouchPhase::Up => if p.active_finger == Some(finger_id) {
                (Pointer { active_finger: None, release_pending: true, ..p }, PointerAction::Release)
            } else {
                (p, PointerAction::Ignore)
            },
            TouchPhase::Motion => if p.active_finger == Some(finger_id) {
                (p, PointerAction::Move)
            } else {
                (p, PointerAction::Ignore)
            },
        }
    }
}

impl Pointer {
    /// A pointer driven by the touch device `front_touch`.
    pub fn for_touch_device(front_touch: i64) -> (r: Pointer)
        ensures
            r == (Pointer {
                front_touch,
                active_finger: None,
                saw_finger: false,
                release_pending: false,
                cancel_pending: false,
            }),
    {
        Pointer { front_touch, active_finger: None, saw_finger: false, release_pending: false, cancel_pending: false }
    }

    /// Applies a finger event and says what to emit.
    pub fn on_finger(&mut self, phase: TouchPhase, touch_id: i64, finger_id: i64) -> (r: PointerAction)
        ensures
            (*final(self), r) == touch_step(*old(self), phase, touch_id, finger_id),
    {
        if touch_id != self.front_touch {
            return PointerAction::Ignore;
        }
        match phase {
            TouchPhase::Down => {
                if self.active_finger.is_some() {
                    return PointerAction::Ignore;
                }
                self.active_finger = Some(finger_id);
                self.saw_finger = true;
                self.release_pending = false;
                PointerAction::Press
            },
            TouchPhase::Up => {
                if self.active_finger == Some(finger_id) {
                    self.active_finger = None;
                    self.release_pending = true;
                    PointerAction::Release
                } else {
                    PointerAction::Ignore
                }
            },
            TouchPhase::Motion => {
                if self.active_finger == Some(finger_id) {
                    PointerAction::Move
                } else {
                    PointerAction::Ignore
                }
            },
        }
    }

    /// Whether a mouse event from mouse `which` is used: not once fingers are
    /// in play, and never the mouse events that repeat touches.
    pub fn accepts_mouse(&self, which: u32) -> (r: bool)
        ensures
            r == !(which == TOUCH_MOUSE_ID || self.saw_finger),
    {
        !(which == TOUCH_MOUSE_ID || self.saw_finger)
    }

    /// Takes what is owed at the start of a frame; each is reported once.
    pub fn deferred(&mut self) -> (r: Deferred)
        ensures
            r == (Deferred { cancel: old(self).cancel_pending, gone: old(self).release_pending }),
            *final(self) == (Pointer { cancel_pending: false, release_pending: false, ..*old(self) }),
    {
        let r = Deferred { cancel: self.cancel_pending, gone: self.release_pending };
        self.cancel_pending = false;
        self.release_pending = false;
        r
    }

    /// Drops the finger in play (the application lost focus): a held press is
    /// cancelled and the pointer leaves at the next frame.
    pub fn forget_touch(&mut self)
        ensures
            *final(self) == (Pointer {
                cancel_pending: old(self).active_finger is Some,
                active_finger: None,
                release_pending: true,
                ..*old(self)
            }),
    {
        self.cancel_pending = self.active_finger.is_some();
        self.active_finger = None;
        self.release_pending = true;
    }
}

/// While one finger drives the pointer, no event of another finger has any effect.
pub proof fn a_second_finger_does_not_steal_the_drag(p: Pointer, phase: TouchPhase, touch_id: i64, finger_id: i64)
    requires
        p.active_finger is Some,
        p.active_finger != Some(finger_id),
    ensures
        touch_step(p, phase, touch_id, finger_id) == (p, PointerAction::Ignore),
{
}

/// Events of any touch device but the front one are ignored.
pub proof fn only_the_front_pad_drives_the_pointer(p: Pointer, phase: TouchPhase, touch_id: i64, finger_id: i64)
    requires
        touch_id != p.front_touch,
    ensures
        touch_step(p, phase, touch_id, finger_id) == (p, PointerAction::Ignore),
{
}

/// Lifting the driving finger releases the button, and the pointer is
/// reported gone exactly once, at the next frame.
pub proof fn a_lift_is_followed_by_one_departure(p: Pointer, finger_id: i64)
    requires
        p.active_finger == Some(finger_id),
    ensures
        ({
            let (q, action) = touch_step(p, TouchPhase::Up, p.front_touch, finger_id);
            &&& action == PointerAction::Release
            &&& q.active_finger is None
            &&& q.release_pending
        }),
{
}

} // verus!

//! The keyboard input that the widgets' logic reads: keys and modifiers.
//!
//! The platform-dependent shortcuts (`command`, `jump`, `macos_command`) are
//! those of platforms other than macOS.
use vstd::prelude::*;

verus! {

/// The state of the keyboard modifiers.
#[derive(Debug, Clone, Copy, PartialEq, Eq, Structural, Default)]
pub struct Modifiers {
    /// The "shift" key.
    pub shift: bool,
    /// The "control" key.
    pub control: bool,
    /// The "alt" key.
    pub alt: bool,
    /// The "windows" key on Windows, "command" key on Mac, and "super" key on
    /// Linux.
    pub logo: bool,
}

impl Modifiers {
    /// No modifier pressed.
    pub fn none() -> (r: Self)
        ensures
            !r.shift && !r.control && !r.alt && !r.logo,
    {
        Modifiers { shift: false, control: false, alt: false, logo: false }
    }

    /// Returns true if the "shift" key is pressed.
    pub fn shift(&self) -> (r: bool)
        ensures
            r == self.shift,
    {
        self.shift
    }

    /// Returns true if the "control" key is pressed.
    pub fn control(&self) -> (r: bool)
        ensures
            r == self.control,
    {
        self.control
    }

    /// Returns true if the "alt" key is pressed.
    pub fn alt(&self) -> (r: bool)
        ensures
            r == self.alt,
    {
        self.alt
    }

    /// Returns true if the "logo" key is pressed.
    pub fn logo(&self) -> (r: bool)
        ensures
            r == self.logo,
    {
        self.logo
    }

    /// Returns true if the command key of the platform is pressed: "control".
    pub fn command(&self) -> (r: bool)
        ensures
            r == self.control,
    {
        self.control
    }

    /// Returns true if the jump key of the platform is pressed: "control".
    pub fn jump(&self) -> (r: bool)
        ensures
            r == self.control,
    {
        self.control
    }

    /// Returns true if the "command" key of macOS is pressed: never, on
    /// other platforms.
    pub fn macos_command(&self) -> (r: bool)
        ensures
            r == false,
    {
        false
    }
}

/// A named key.
#[derive(Debug, Clone, Copy, PartialEq, Eq, Structural)]
pub enum Named {
    /// The `Enter` or `↵` key.
    Enter,
    /// The `Backspace` key.
    Backspace,
    /// The `Delete` key.
    Delete,
    /// The `Escape` key.
    Escape,
    /// The `Tab` key.
    Tab,
    /// The `←` key.
    ArrowLeft,
    /// The `→` key.
    ArrowRight,
    /// The `↑` key.
    ArrowUp,
    /// The `↓` key.
    ArrowDown,
    /// The `Home` key.
    Home,
    /// The `End` key.
    End,
    /// The `Page Up` key.
    PageUp,
    /// The `Page Down` key.
    PageDown,
    /// Any other named key.
    Other,
}

/// A key on the keyboard.
#[derive(Debug, Clone, PartialEq, Eq)]
pub enum Key {
    /// A key with an established name.
    Named(Named),
    /// A key string that corresponds to the character typed by the user.
    Character(String),
    /// An unidentified key.
    Unidentified,
}

} // verus!

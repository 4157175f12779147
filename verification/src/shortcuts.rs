//! Application shortcuts: the actions they stand for, the chords they are bound
//! to on each platform, and how those chords are written.
use vstd::prelude::*;

use crate::text::push_decimal;
#[allow(unused_imports)]
use crate::text::{decimal, optional_text};

verus! {

/// What the conventions for chords depend on.
#[derive(Clone, Copy, Debug, PartialEq, Eq, Structural)]
pub enum Platform {
    MacOs,
    Other,
}

/// An action that a key can be bound to.
#[derive(Clone, Copy, Debug, PartialEq, Eq, Structural)]
pub enum KeyboardAction {
    CommandPalette,
    NewSession,
    NewWindow,
    StartLocalShell,
    CloseActiveSurface,
    NextSession,
    PreviousSession,
    Settings,
    SettingsHotkey,
    ZoomOut,
    ZoomReset,
    ClearTerminal,
    ResetTerminal,
    ToggleFocusMode,
    PortForwardManager,
    MarkdownFind,
    MarkdownReload,
    MarkdownPreviewSource,
    MarkdownOutline,
    OpenMarkdownFile,
    Find,
    ZoomIn,
    ZoomInAlternate,
    Copy,
    CopyAlternate,
    Paste,
    PasteAlternate,
    /// Switches to the tab at this position, counted from one.
    QuickSwitch(u8),
}

/// A key that a default chord uses.
#[derive(Clone, Copy, Debug, PartialEq, Eq, Structural)]
pub enum Key {
    P,
    T,
    N,
    W,
    Tab,
    Comma,
    S,
    Minus,
    Num0,
    K,
    R,
    F,
    F11,
    M,
    V,
    O,
}

impl Key {
    pub open spec fn text(self) -> Seq<char> {
        match self {
            Key::P => "P"@,
            Key::T => "T"@,
            Key::N => "N"@,
            Key::W => "W"@,
            Key::Tab => "Tab"@,
            Key::Comma => ","@,
            Key::S => "S"@,
            Key::Minus => "-"@,
            Key::Num0 => "0"@,
            Key::K => "K"@,
            Key::R => "R"@,
            Key::F => "F"@,
            Key::F11 => "F11"@,
            Key::M => "M"@,
            Key::V => "V"@,
            Key::O => "O"@,
        }
    }
}

/// The modifier keys of a chord. `command` is the platform's main modifier.
#[derive(Clone, Copy, Debug, PartialEq, Eq, Structural)]
pub struct Modifiers {
    pub command: bool,
    pub ctrl: bool,
    pub alt: bool,
    pub shift: bool,
}

impl Modifiers {
    pub open spec fn command() -> Self {
        Modifiers { command: true, ctrl: false, alt: false, shift: false }
    }

    pub open spec fn ctrl() -> Self {
        Modifiers { command: false, ctrl: true, alt: false, shift: false }
    }

    pub open spec fn command_shift() -> Self {
        Modifiers { command: true, ctrl: false, alt: false, shift: true }
    }

    pub open spec fn ctrl_shift() -> Self {
        Modifiers { command: false, ctrl: true, alt: false, shift: true }
    }

    pub open spec fn command_alt() -> Self {
        Modifiers { command: true, ctrl: false, alt: true, shift: false }
    }

    /// The modifiers as they are written in front of a key.
    pub open spec fn text(self, platform: Platform) -> Seq<char> {
        (if self.alt {
            "Option+"@
        } else {
            ""@
        }) + (if self.command {
            match platform {
                Platform::MacOs => "\u{2318}+"@,
                Platform::Other => "Ctrl+"@,
            }
        } else {
            ""@
        }) + (if self.ctrl {
            "Ctrl+"@
        } else {
            ""@
        }) + (if self.shift {
            "Shift+"@
        } else {
            ""@
        })
    }
}

/// A key together with its modifiers.
#[derive(Clone, Copy, Debug, PartialEq, Eq, Structural)]
pub struct Chord {
    pub modifiers: Modifiers,
    pub key: Key,
}

impl Chord {
    /// The chord as it is written for `platform`.
    pub open spec fn text(self, platform: Platform) -> Seq<char> {
        self.modifiers.text(platform) + self.key.text()
    }
}

fn held(command: bool, ctrl: bool, alt: bool, shift: bool, key: Key) -> (chord: Option<Chord>)
    ensures
        chord == Some(Chord { modifiers: Modifiers { command, ctrl, alt, shift }, key }),
{
    Some(Chord { modifiers: Modifiers { command, ctrl, alt, shift }, key })
}

/// The commands that have a shortcut of their own.
#[derive(Clone, Copy, Debug, PartialEq, Eq, Structural)]
pub enum ApplicationShortcut {
    CommandPalette,
    NewSession,
    /// Opens one additional window.
    NewWindow,
    StartLocalShell,
    CloseActiveSurface,
    NextSession,
    PreviousSession,
    /// The platform's own preferences chord, on macOS only.
    Settings,
    /// The settings chord that every platform has.
    SettingsHotkey,
    ZoomOut,
    ZoomReset,
    ClearTerminal,
    ResetTerminal,
    ToggleFocusMode,
    PortForwardManager,
    MarkdownFind,
    MarkdownReload,
    MarkdownPreviewSource,
    MarkdownOutline,
    /// Opens the Markdown file picker. Where the chord would also be a control
    /// character, a focused terminal keeps it.
    OpenMarkdownFile,
    /// Searches the terminal's contents.
    Find,
}

impl ApplicationShortcut {
    pub open spec fn keyboard_action(self) -> KeyboardAction {
        match self {
            ApplicationShortcut::CommandPalette => KeyboardAction::CommandPalette,
            ApplicationShortcut::NewSession => KeyboardAction::NewSession,
            ApplicationShortcut::NewWindow => KeyboardAction::NewWindow,
            ApplicationShortcut::StartLocalShell => KeyboardAction::StartLocalShell,
            ApplicationShortcut::CloseActiveSurface => KeyboardAction::CloseActiveSurface,
            ApplicationShortcut::NextSession => KeyboardAction::NextSession,
            ApplicationShortcut::PreviousSession => KeyboardAction::PreviousSession,
            ApplicationShortcut::Settings => KeyboardAction::Settings,
            ApplicationShortcut::SettingsHotkey => KeyboardAction::SettingsHotkey,
            ApplicationShortcut::ZoomOut => KeyboardAction::ZoomOut,
            ApplicationShortcut::ZoomReset => KeyboardAction::ZoomReset,
            ApplicationShortcut::ClearTerminal => KeyboardAction::ClearTerminal,
            ApplicationShortcut::ResetTerminal => KeyboardAction::ResetTerminal,
            ApplicationShortcut::ToggleFocusMode => KeyboardAction::ToggleFocusMode,
            ApplicationShortcut::PortForwardManager => KeyboardAction::PortForwardManager,
            ApplicationShortcut::MarkdownFind => KeyboardAction::MarkdownFind,
            ApplicationShortcut::MarkdownReload => KeyboardAction::MarkdownReload,
            ApplicationShortcut::MarkdownPreviewSource => KeyboardAction::MarkdownPreviewSource,
            ApplicationShortcut::MarkdownOutline => KeyboardAction::MarkdownOutline,
            ApplicationShortcut::OpenMarkdownFile => KeyboardAction::OpenMarkdownFile,
            ApplicationShortcut::Find => KeyboardAction::Find,
        }
    }

    /// The action that the shortcut stands for.
    pub fn action(self) -> (action: KeyboardAction)
        ensures
            action == self.keyboard_action(),
    {
        match self {
            ApplicationShortcut::CommandPalette => KeyboardAction::CommandPalette,
            ApplicationShortcut::NewSession => KeyboardAction::NewSession,
            ApplicationShortcut::NewWindow => KeyboardAction::NewWindow,
            ApplicationShortcut::StartLocalShell => KeyboardAction::StartLocalShell,
            ApplicationShortcut::CloseActiveSurface => KeyboardAction::CloseActiveSurface,
            ApplicationShortcut::NextSession => KeyboardAction::NextSession,
            ApplicationShortcut::PreviousSession => KeyboardAction::PreviousSession,
            ApplicationShortcut::Settings => KeyboardAction::Settings,
            ApplicationShortcut::SettingsHotkey => KeyboardAction::SettingsHotkey,
            ApplicationShortcut::ZoomOut => KeyboardAction::ZoomOut,
            ApplicationShortcut::ZoomReset => KeyboardAction::ZoomReset,
            ApplicationShortcut::ClearTerminal => KeyboardAction::ClearTerminal,
            ApplicationShortcut::ResetTerminal => KeyboardAction::ResetTerminal,
            ApplicationShortcut::ToggleFocusMode => KeyboardAction::ToggleFocusMode,
            ApplicationShortcut::PortForwardManager => KeyboardAction::PortForwardManager,
            ApplicationShortcut::MarkdownFind => KeyboardAction::MarkdownFind,
            ApplicationShortcut::MarkdownReload => KeyboardAction::MarkdownReload,
            ApplicationShortcut::MarkdownPreviewSource => KeyboardAction::MarkdownPreviewSource,
            ApplicationShortcut::MarkdownOutline => KeyboardAction::MarkdownOutline,
            ApplicationShortcut::OpenMarkdownFile => KeyboardAction::OpenMarkdownFile,
            ApplicationShortcut::Find => KeyboardAction::Find,
        }
    }

    /// The chord that the shortcut is bound to unless the user changes it.
    pub open spec fn default_chord(self, platform: Platform) -> Option<Chord> {
        let mac = platform == Platform::MacOs;
        match self {
            ApplicationShortcut::CommandPalette => Some(Chord { modifiers: Modifiers::command_shift(), key: Key::P }),
            ApplicationShortcut::NewSession => if mac {
                Some(Chord { modifiers: Modifiers::command(), key: Key::T })
            } else {
                Some(Chord { modifiers: Modifiers::command_shift(), key: Key::T })
            },
            ApplicationShortcut::NewWindow => if mac {
                Some(Chord { modifiers: Modifiers::command_shift(), key: Key::N })
            } else {
                None
            },
            ApplicationShortcut::StartLocalShell => if mac {
                Some(Chord { modifiers: Modifiers::command(), key: Key::N })
            } else {
                Some(Chord { modifiers: Modifiers::ctrl_shift(), key: Key::N })
            },
            ApplicationShortcut::CloseActiveSurface => if mac {
                Some(Chord { modifiers: Modifiers::command(), key: Key::W })
            } else {
                Some(Chord { modifiers: Modifiers::command_shift(), key: Key::W })
            },
            ApplicationShortcut::NextSession => Some(Chord { modifiers: Modifiers::ctrl(), key: Key::Tab }),
            ApplicationShortcut::PreviousSession => Some(Chord { modifiers: Modifiers::ctrl_shift(), key: Key::Tab }),
            ApplicationShortcut::Settings => if mac {
                Some(Chord { modifiers: Modifiers::command(), key: Key::Comma })
            } else {
                None
            },
            ApplicationShortcut::SettingsHotkey => Some(Chord { modifiers: Modifiers::command_shift(), key: Key::S }),
            ApplicationShortcut::ZoomOut => Some(Chord { modifiers: Modifiers::command(), key: Key::Minus }),
            ApplicationShortcut::ZoomReset => Some(Chord { modifiers: Modifiers::command(), key: Key::Num0 }),
            ApplicationShortcut::ClearTerminal => if mac {
                Some(Chord { modifiers: Modifiers::command(), key: Key::K })
            } else {
                Some(Chord { modifiers: Modifiers::ctrl_shift(), key: Key::K })
            },
            ApplicationShortcut::ResetTerminal => if mac {
                Some(Chord { modifiers: Modifiers::command_alt(), key: Key::R })
            } else {
                Some(Chord { modifiers: Modifiers::ctrl_shift(), key: Key::R })
            },
            ApplicationShortcut::ToggleFocusMode => if mac {
                Some(Chord { modifiers: Modifiers::command_shift(), key: Key::F })
            } else {
                Some(Chord { modifiers: Modifiers::ctrl_shift(), key: Key::F11 })
            },
            ApplicationShortcut::PortForwardManager => if mac {
                Some(Chord { modifiers: Modifiers::command_shift(), key: Key::M })
            } else {
                Some(Chord { modifiers: Modifiers::ctrl_shift(), key: Key::M })
            },
            ApplicationShortcut::MarkdownFind => Some(Chord { modifiers: Modifiers::command(), key: Key::F }),
            ApplicationShortcut::MarkdownReload => Some(Chord { modifiers: Modifiers::command(), key: Key::R }),
            ApplicationShortcut::MarkdownPreviewSource => Some(Chord { modifiers: Modifiers::command_shift(), key: Key::V }),
            ApplicationShortcut::MarkdownOutline => Some(Chord { modifiers: Modifiers::command_shift(), key: Key::O }),
            ApplicationShortcut::OpenMarkdownFile => Some(Chord { modifiers: Modifiers::command(), key: Key::O }),
            ApplicationShortcut::Find => if mac {
                Some(Chord { modifiers: Modifiers::command(), key: Key::F })
            } else {
                Some(Chord { modifiers: Modifiers::ctrl_shift(), key: Key::F })
            },
        }
    }

    pub fn chord(self, platform: Platform) -> (chord: Option<Chord>)
        ensures
            chord == self.default_chord(platform),
    {
        let mac = matches!(platform, Platform::MacOs);
        match self {
            ApplicationShortcut::CommandPalette => held(true, false, false, true, Key::P),
            ApplicationShortcut::NewSession => if mac {
                held(true, false, false, false, Key::T)
            } else {
                held(true, false, false, true, Key::T)
            },
            ApplicationShortcut::NewWindow => if mac {
                held(true, false, false, true, Key::N)
            } else {
                None
            },
            ApplicationShortcut::StartLocalShell => if mac {
                held(true, false, false, false, Key::N)
            } else {
                held(false, true, false, true, Key::N)
            },
            ApplicationShortcut::CloseActiveSurface => if mac {
                held(true, false, false, false, Key::W)
            } else {
                held(true, false, false, true, Key::W)
            },
            ApplicationShortcut::NextSession => held(false, true, false, false, Key::Tab),
            ApplicationShortcut::PreviousSession => held(false, true, false, true, Key::Tab),
            ApplicationShortcut::Settings => if mac {
                held(true, false, false, false, Key::Comma)
            } else {
                None
            },
            ApplicationShortcut::SettingsHotkey => held(true, false, false, true, Key::S),
            ApplicationShortcut::ZoomOut => held(true, false, false, false, Key::Minus),
            ApplicationShortcut::ZoomReset => held(true, false, false, false, Key::Num0),
            ApplicationShortcut::ClearTerminal => if mac {
                held(true, false, false, false, Key::K)
            } else {
                held(false, true, false, true, Key::K)
            },
            ApplicationShortcut::ResetTerminal => if mac {
                held(true, false, true, false, Key::R)
            } else {
                held(false, true, false, true, Key::R)
            },
            ApplicationShortcut::ToggleFocusMode => if mac {
                held(true, false, false, true, Key::F)
            } else {
                held(false, true, false, true, Key::F11)
            },
            ApplicationShortcut::PortForwardManager => if mac {
                held(true, false, false, true, Key::M)
            } else {
                held(false, true, false, true, Key::M)
            },
            ApplicationShortcut::MarkdownFind => held(true, false, false, false, Key::F),
            ApplicationShortcut::MarkdownReload => held(true, false, false, false, Key::R),
            ApplicationShortcut::MarkdownPreviewSource => held(true, false, false, true, Key::V),
            ApplicationShortcut::MarkdownOutline => held(true, false, false, true, Key::O),
            ApplicationShortcut::OpenMarkdownFile => held(true, false, false, false, Key::O),
            ApplicationShortcut::Find => if mac {
                held(true, false, false, false, Key::F)
            } else {
                held(false, true, false, true, Key::F)
            },
        }
    }

    /// How the shortcut's chord is written.
    pub open spec fn label_text(self, platform: Platform) -> Option<Seq<char>> {
        match self.default_chord(platform) {
            Some(chord) => Some(chord.text(platform)),
            None => None,
        }
    }

    /// The label shown for the shortcut: its own chord, as it is written.
    pub fn label(self, platform: Platform) -> (label: Option<&'static str>)
        ensures
            match label {
                Some(label) => self.label_text(platform) == Some(label@),
                None => self.label_text(platform) is None,
            },
    {
        let mac = matches!(platform, Platform::MacOs);
        let label = match self {
            ApplicationShortcut::CommandPalette => if mac {
                Some("\u{2318}+Shift+P")
            } else {
                Some("Ctrl+Shift+P")
            },
            ApplicationShortcut::NewSession => if mac {
                Some("\u{2318}+T")
            } else {
                Some("Ctrl+Shift+T")
            },
            ApplicationShortcut::NewWindow => if mac {
                Some("\u{2318}+Shift+N")
            } else {
                None
            },
            ApplicationShortcut::StartLocalShell => if mac {
                Some("\u{2318}+N")
            } else {
                Some("Ctrl+Shift+N")
            },
            ApplicationShortcut::CloseActiveSurface => if mac {
                Some("\u{2318}+W")
            } else {
                Some("Ctrl+Shift+W")
            },
            ApplicationShortcut::NextSession => Some("Ctrl+Tab"),
            ApplicationShortcut::PreviousSession => Some("Ctrl+Shift+Tab"),
            ApplicationShortcut::Settings => if mac {
                Some("\u{2318}+,")
            } else {
                None
            },
            ApplicationShortcut::SettingsHotkey => if mac {
                Some("\u{2318}+Shift+S")
            } else {
                Some("Ctrl+Shift+S")
            },
            ApplicationShortcut::ZoomOut => if mac {
                Some("\u{2318}+-")
            } else {
                Some("Ctrl+-")
            },
            ApplicationShortcut::ZoomReset => if mac {
                Some("\u{2318}+0")
            } else {
                Some("Ctrl+0")
            },
            ApplicationShortcut::ClearTerminal => if mac {
                Some("\u{2318}+K")
            } else {
                Some("Ctrl+Shift+K")
            },
            ApplicationShortcut::ResetTerminal => if mac {
                Some("Option+\u{2318}+R")
            } else {
                Some("Ctrl+Shift+R")
            },
            ApplicationShortcut::ToggleFocusMode => if mac {
                Some("\u{2318}+Shift+F")
            } else {
                Some("Ctrl+Shift+F11")
            },
            ApplicationShortcut::PortForwardManager => if mac {
                Some("\u{2318}+Shift+M")
            } else {
                Some("Ctrl+Shift+M")
            },
            ApplicationShortcut::MarkdownFind => if mac {
                Some("\u{2318}+F")
            } else {
                Some("Ctrl+F")
            },
            ApplicationShortcut::MarkdownReload => if mac {
                Some("\u{2318}+R")
            } else {
                Some("Ctrl+R")
            },
            ApplicationShortcut::MarkdownPreviewSource => if mac {
                Some("\u{2318}+Shift+V")
            } else {
                Some("Ctrl+Shift+V")
            },
            ApplicationShortcut::MarkdownOutline => if mac {
                Some("\u{2318}+Shift+O")
            } else {
                Some("Ctrl+Shift+O")
            },
            ApplicationShortcut::OpenMarkdownFile => if mac {
                Some("\u{2318}+O")
            } else {
                Some("Ctrl+O")
            },
            ApplicationShortcut::Find => if mac {
                Some("\u{2318}+F")
            } else {
                Some("Ctrl+Shift+F")
            },
        };
        proof {
            reveal_strlit("");
            reveal_strlit(",");
            reveal_strlit("-");
            reveal_strlit("0");
            reveal_strlit("Ctrl+");
            reveal_strlit("Ctrl+-");
            reveal_strlit("Ctrl+0");
            reveal_strlit("Ctrl+F");
            reveal_strlit("Ctrl+O");
            reveal_strlit("Ctrl+R");
            reveal_strlit("Ctrl+Shift+F");
            reveal_strlit("Ctrl+Shift+F11");
            reveal_strlit("Ctrl+Shift+K");
            reveal_strlit("Ctrl+Shift+M");
            reveal_strlit("Ctrl+Shift+N");
            reveal_strlit("Ctrl+Shift+O");
            reveal_strlit("Ctrl+Shift+P");
            reveal_strlit("Ctrl+Shift+R");
            reveal_strlit("Ctrl+Shift+S");
            reveal_strlit("Ctrl+Shift+T");
            reveal_strlit("Ctrl+Shift+Tab");
            reveal_strlit("Ctrl+Shift+V");
            reveal_strlit("Ctrl+Shift+W");
            reveal_strlit("Ctrl+Tab");
            reveal_strlit("F");
            reveal_strlit("F11");
            reveal_strlit("K");
            reveal_strlit("M");
            reveal_strlit("N");
            reveal_strlit("O");
            reveal_strlit("Option+");
            reveal_strlit("Option+\u{2318}+R");
            reveal_strlit("P");
            reveal_strlit("R");
            reveal_strlit("S");
            reveal_strlit("Shift+");
            reveal_strlit("T");
            reveal_strlit("Tab");
            reveal_strlit("V");
            reveal_strlit("W");
            reveal_strlit("\u{2318}+");
            reveal_strlit("\u{2318}+,");
            reveal_strlit("\u{2318}+-");
            reveal_strlit("\u{2318}+0");
            reveal_strlit("\u{2318}+F");
            reveal_strlit("\u{2318}+K");
            reveal_strlit("\u{2318}+N");
            reveal_strlit("\u{2318}+O");
            reveal_strlit("\u{2318}+R");
            reveal_strlit("\u{2318}+Shift+F");
            reveal_strlit("\u{2318}+Shift+M");
            reveal_strlit("\u{2318}+Shift+N");
            reveal_strlit("\u{2318}+Shift+O");
            reveal_strlit("\u{2318}+Shift+P");
            reveal_strlit("\u{2318}+Shift+S");
            reveal_strlit("\u{2318}+Shift+V");
            reveal_strlit("\u{2318}+T");
            reveal_strlit("\u{2318}+W");
            if label is Some {
                assert(label->Some_0@ =~= self.default_chord(platform)->Some_0.text(platform));
            }
        }
        label
    }
}

/// The first nine tabs have a chord that switches straight to them.
pub const MAX_QUICK_SWITCH_TABS: usize = 9;

/// How the chord that switches to the tab at `index`, counted from zero, is
/// written; the tabs after the ninth have none.
pub open spec fn quick_switch_text(index: nat, platform: Platform) -> Option<Seq<char>> {
    if index < MAX_QUICK_SWITCH_TABS {
        Some(
            (match platform {
                Platform::MacOs => "\u{2318} "@,
                Platform::Other => "Ctrl+"@,
            }) + decimal(index + 1),
        )
    } else {
        None
    }
}

pub fn quick_switch_label(index: usize, platform: Platform) -> (label: Option<String>)
    ensures
        optional_text(label) == quick_switch_text(index as nat, platform),
{
    if index >= MAX_QUICK_SWITCH_TABS {
        return None;
    }
    let mut label = match platform {
        Platform::MacOs => "\u{2318} ".to_owned(),
        Platform::Other => "Ctrl+".to_owned(),
    };
    push_decimal(&mut label, index as u128 + 1);
    Some(label)
}

/// The action that switches to the tab at `index`, counted from zero.
pub open spec fn quick_action_at(index: nat) -> Option<KeyboardAction> {
    if index < MAX_QUICK_SWITCH_TABS {
        Some(KeyboardAction::QuickSwitch((index + 1) as u8))
    } else {
        None
    }
}

pub fn quick_action(index: usize) -> (action: Option<KeyboardAction>)
    ensures
        action == quick_action_at(index as nat),
{
    if index < MAX_QUICK_SWITCH_TABS {
        Some(KeyboardAction::QuickSwitch((index + 1) as u8))
    } else {
        None
    }
}

/// The two find commands of macOS share a chord, because only one of their
/// surfaces can be in front.
pub open spec fn share_a_surface(a: ApplicationShortcut, b: ApplicationShortcut) -> bool {
    !((a == ApplicationShortcut::Find && b == ApplicationShortcut::MarkdownFind) || (a
        == ApplicationShortcut::MarkdownFind && b == ApplicationShortcut::Find))
}

/// No chord stands for two commands that could be meant at the same time.
pub proof fn chords_are_unambiguous(
    a: ApplicationShortcut,
    b: ApplicationShortcut,
    platform: Platform,
)
    requires
        a != b,
        share_a_surface(a, b),
        a.default_chord(platform) is Some,
    ensures
        a.default_chord(platform) != b.default_chord(platform),
{
}

/// Where the main modifier is the control key, a plain control letter is left
/// to the program in the terminal: only the document commands, which do not
/// apply while a terminal is in front, are bound to one.
pub proof fn plain_control_letters_are_left_alone(shortcut: ApplicationShortcut)
    requires
        shortcut.default_chord(Platform::Other) is Some,
        !shortcut.default_chord(Platform::Other)->Some_0.modifiers.shift,
    ensures
        ({
            let key = shortcut.default_chord(Platform::Other)->Some_0.key;
            ||| key == Key::Tab
            ||| key == Key::Minus
            ||| key == Key::Num0
            ||| shortcut == ApplicationShortcut::MarkdownFind
            ||| shortcut == ApplicationShortcut::MarkdownReload
            ||| shortcut == ApplicationShortcut::OpenMarkdownFile
        }),
{
}

proof fn keys_are_written_differently(a: Key, b: Key)
    ensures
        1 <= a.text().len() <= 3,
        a != b ==> a.text() != b.text(),
{
    reveal_strlit("P");
    reveal_strlit("T");
    reveal_strlit("N");
    reveal_strlit("W");
    reveal_strlit("Tab");
    reveal_strlit(",");
    reveal_strlit("S");
    reveal_strlit("-");
    reveal_strlit("0");
    reveal_strlit("K");
    reveal_strlit("R");
    reveal_strlit("F");
    reveal_strlit("F11");
    reveal_strlit("M");
    reveal_strlit("V");
    reveal_strlit("O");
    if a != b && a.text().len() == b.text().len() {
        assert(a.text()[0] != b.text()[0]);
    }
}

/// How a chord of the control key is written where that is the main modifier.
proof fn control_chords_are_written(chord: Chord)
    requires
        chord.modifiers.command != chord.modifiers.ctrl,
        !chord.modifiers.alt,
    ensures
        chord.text(Platform::Other) == (if chord.modifiers.shift {
            "Ctrl+Shift+"@
        } else {
            "Ctrl+"@
        }) + chord.key.text(),
{
    reveal_strlit("");
    reveal_strlit("Ctrl+");
    reveal_strlit("Shift+");
    reveal_strlit("Ctrl+Shift+");
    assert(chord.text(Platform::Other) =~= (if chord.modifiers.shift {
        "Ctrl+Shift+"@
    } else {
        "Ctrl+"@
    }) + chord.key.text());
}

/// Where the main modifier is the control key, no two commands share a written
/// label.
pub proof fn labels_are_unambiguous(a: ApplicationShortcut, b: ApplicationShortcut)
    requires
        a != b,
        a.label_text(Platform::Other) is Some,
        b.label_text(Platform::Other) is Some,
    ensures
        a.label_text(Platform::Other) != b.label_text(Platform::Other),
{
    let x = a.default_chord(Platform::Other)->Some_0;
    let y = b.default_chord(Platform::Other)->Some_0;
    control_chords_are_written(x);
    control_chords_are_written(y);
    keys_are_written_differently(x.key, y.key);
    keys_are_written_differently(y.key, x.key);
    reveal_strlit("Ctrl+");
    reveal_strlit("Ctrl+Shift+");
    let (s, t) = (x.text(Platform::Other), y.text(Platform::Other));
    assert("Ctrl+"@.len() == 5 && "Ctrl+Shift+"@.len() == 11);
    assert(s.len() == x.key.text().len() + if x.modifiers.shift {
        11int
    } else {
        5
    });
    assert(t.len() == y.key.text().len() + if y.modifiers.shift {
        11int
    } else {
        5
    });
    if s == t {
        let start: int = if x.modifiers.shift {
            11
        } else {
            5
        };
        assert(x.modifiers.shift == y.modifiers.shift);
        assert(s.skip(start) =~= x.key.text());
        assert(t.skip(start) =~= y.key.text());
    }
}

/// A label is written exactly for the commands that have a chord: on macOS for
/// all of them, and elsewhere for all but a new window and the preferences chord
/// of macOS. Elsewhere, opening and closing a session leave the plain control
/// letters alone.
pub proof fn labels_are_written_for_chords(shortcut: ApplicationShortcut, platform: Platform)
    ensures
        shortcut.label_text(platform) is Some == shortcut.default_chord(platform) is Some,
        shortcut.label_text(Platform::MacOs) is Some,
        shortcut.label_text(Platform::Other) is None <==> (shortcut
            == ApplicationShortcut::NewWindow || shortcut == ApplicationShortcut::Settings),
        ApplicationShortcut::NewSession.label_text(Platform::Other) == Some("Ctrl+Shift+T"@),
        ApplicationShortcut::CloseActiveSurface.label_text(Platform::Other) == Some(
            "Ctrl+Shift+W"@,
        ),
{
    reveal_strlit("T");
    reveal_strlit("W");
    reveal_strlit("Ctrl+Shift+");
    reveal_strlit("Ctrl+Shift+T");
    reveal_strlit("Ctrl+Shift+W");
    let open = ApplicationShortcut::NewSession.default_chord(Platform::Other)->Some_0;
    let close = ApplicationShortcut::CloseActiveSurface.default_chord(Platform::Other)->Some_0;
    control_chords_are_written(open);
    control_chords_are_written(close);
    assert("Ctrl+Shift+"@ + "T"@ =~= "Ctrl+Shift+T"@);
    assert("Ctrl+Shift+"@ + "W"@ =~= "Ctrl+Shift+W"@);
}

/// Every shortcut stands for an action of its own.
pub proof fn shortcuts_stand_for_their_own_actions(a: ApplicationShortcut, b: ApplicationShortcut)
    ensures
        a.keyboard_action() == b.keyboard_action() <==> a == b,
        ApplicationShortcut::CommandPalette.keyboard_action() == KeyboardAction::CommandPalette,
        ApplicationShortcut::CloseActiveSurface.keyboard_action()
            == KeyboardAction::CloseActiveSurface,
        ApplicationShortcut::Find.keyboard_action() == KeyboardAction::Find,
{
}

/// The first nine tabs, and no others, have an action that switches to them and
/// a chord that is written with their number, counted from one.
pub proof fn the_first_nine_tabs_are_numbered(index: nat, other: nat, platform: Platform)
    ensures
        quick_action_at(index) is Some <==> index < 9,
        quick_action_at(index) is Some ==> quick_action_at(index) == Some(
            KeyboardAction::QuickSwitch((index + 1) as u8),
        ) && (index + 1) as u8 == index + 1,
        quick_action_at(index) is Some && quick_action_at(index) == quick_action_at(other) ==> index
            == other,
        quick_switch_text(index, platform) is Some <==> index < 9,
        index < 9 ==> quick_switch_text(index, platform)->Some_0.len() > 0,
        index < 9 ==> quick_switch_text(index, platform)->Some_0.last() == decimal(
            index + 1,
        ).last(),
        index < 9 ==> decimal(index + 1).len() == 1,
{
    if index < 9 {
        assert(decimal(index + 1).len() == 1);
    }
}

} // verus!

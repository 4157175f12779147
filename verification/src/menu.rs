//! The native menu bar: what its commands do, and which shortcuts it shows.
use vstd::prelude::*;

use crate::app::{FesTermApp, FocusState};
#[allow(unused_imports)]
use crate::app::Shell;
#[allow(unused_imports)]
use crate::commands::{at_most_one, dispatched};
use crate::commands::one_or_none;
use crate::confirmations::OpenDocument;
use crate::effects::{AppCommand, Effect};
use crate::shortcuts::KeyboardAction;
use crate::state::TabContent;
use crate::text::{parse_number, same_text};
#[allow(unused_imports)]
use crate::text::{optional_text, parsed_number};

verus! {

#[derive(Clone, Copy, Debug, PartialEq, Eq, Structural)]
pub enum NativeMenuCommand {
    Paste,
    NewSession,
    NewWindow,
    StartLocalShell,
    OpenSettings,
    CloseActiveSurface,
    ToggleCommandPalette,
    ToggleSessionInspector,
    ClearTerminal,
    ResetTerminal,
    ToggleFocusMode,
}

impl NativeMenuCommand {
    /// The action whose key the platform may report beside the command.
    pub open spec fn counterpart_action(self) -> Option<KeyboardAction> {
        match self {
            NativeMenuCommand::Paste => None,
            NativeMenuCommand::NewSession => Some(KeyboardAction::NewSession),
            NativeMenuCommand::NewWindow => Some(KeyboardAction::NewWindow),
            NativeMenuCommand::StartLocalShell => Some(KeyboardAction::StartLocalShell),
            NativeMenuCommand::OpenSettings => Some(KeyboardAction::Settings),
            NativeMenuCommand::CloseActiveSurface => Some(KeyboardAction::CloseActiveSurface),
            NativeMenuCommand::ToggleCommandPalette => Some(KeyboardAction::CommandPalette),
            NativeMenuCommand::ToggleSessionInspector => None,
            NativeMenuCommand::ClearTerminal => Some(KeyboardAction::ClearTerminal),
            NativeMenuCommand::ResetTerminal => Some(KeyboardAction::ResetTerminal),
            NativeMenuCommand::ToggleFocusMode => Some(KeyboardAction::ToggleFocusMode),
        }
    }

    pub fn counterpart(self) -> (action: Option<KeyboardAction>)
        ensures
            action == self.counterpart_action(),
    {
        match self {
            NativeMenuCommand::Paste => None,
            NativeMenuCommand::NewSession => Some(KeyboardAction::NewSession),
            NativeMenuCommand::NewWindow => Some(KeyboardAction::NewWindow),
            NativeMenuCommand::StartLocalShell => Some(KeyboardAction::StartLocalShell),
            NativeMenuCommand::OpenSettings => Some(KeyboardAction::Settings),
            NativeMenuCommand::CloseActiveSurface => Some(KeyboardAction::CloseActiveSurface),
            NativeMenuCommand::ToggleCommandPalette => Some(KeyboardAction::CommandPalette),
            NativeMenuCommand::ToggleSessionInspector => None,
            NativeMenuCommand::ClearTerminal => Some(KeyboardAction::ClearTerminal),
            NativeMenuCommand::ResetTerminal => Some(KeyboardAction::ResetTerminal),
            NativeMenuCommand::ToggleFocusMode => Some(KeyboardAction::ToggleFocusMode),
        }
    }
}

/// What a command of the menu bar leads to besides the window's own change.
pub struct MenuEffects {
    /// The key press that stands for the same command is to be dropped.
    pub swallow: Option<KeyboardAction>,
    pub effects: Vec<Effect>,
}

impl FesTermApp {
    /// What a command of the menu bar does, where nothing blocks it.
    pub open spec fn menu_outcome(
        self,
        command: NativeMenuCommand,
        documents: Seq<OpenDocument>,
        chord: Option<String>,
        focused: Option<u64>,
        now_ms: u64,
    ) -> (Self, Seq<Effect>) {
        match command {
            NativeMenuCommand::Paste => if self.owns_input() {
                self.paste_requested()
            } else {
                (self, seq![Effect::RequestSystemPaste])
            },
            NativeMenuCommand::NewSession => (self, dispatched(AppCommand::OpenLauncher)),
            NativeMenuCommand::NewWindow => (self, dispatched(AppCommand::OpenWindow)),
            NativeMenuCommand::StartLocalShell => (self, dispatched(AppCommand::StartLocalSession)),
            NativeMenuCommand::OpenSettings => (self, dispatched(AppCommand::OpenSettings)),
            NativeMenuCommand::CloseActiveSurface => {
                let (after, effect) = self.tab_close_outcome(self.state.active, documents);
                (after, at_most_one(effect))
            },
            NativeMenuCommand::ToggleCommandPalette => (
                self.with_focus(
                    FocusState {
                        palette_open: !self.shell.focus.palette_open,
                        ..self.shell.focus
                    },
                ),
                seq![],
            ),
            NativeMenuCommand::ToggleSessionInspector => self.inspector_toggled(focused),
            NativeMenuCommand::ClearTerminal => self.terminal_cleared(now_ms),
            NativeMenuCommand::ResetTerminal => self.terminal_reset(now_ms),
            NativeMenuCommand::ToggleFocusMode => self.focus_mode_toggled(chord, now_ms),
        }
    }

    /// Carries out a command of the menu bar. While something blocks the
    /// terminal, only pasting is let through.
    pub fn dispatch_native_menu_command(
        &mut self,
        command: NativeMenuCommand,
        documents: &Vec<OpenDocument>,
        chord: Option<String>,
        focused: Option<u64>,
        now_ms: u64,
    ) -> (result: MenuEffects)
        ensures
            if old(self).shell.overlays.blocking() && command != NativeMenuCommand::Paste {
                &&& *final(self) == *old(self)
                &&& result.swallow is None
                &&& result.effects@.len() == 0
            } else {
                &&& (*final(self), result.effects@) == old(self).menu_outcome(
                    command,
                    documents@,
                    chord,
                    focused,
                    now_ms,
                )
                &&& result.swallow == command.counterpart_action()
            },
    {
        let paste = matches!(command, NativeMenuCommand::Paste);
        if self.shell.overlays.blocks_terminal_input() && !paste {
            return MenuEffects { swallow: None, effects: Vec::new() };
        }
        let swallow = command.counterpart();
        let mut effects = Vec::new();
        match command {
            NativeMenuCommand::Paste => if self.terminal_owns_input() {
                effects = self.paste_into_active_session();
            } else {
                effects.push(Effect::RequestSystemPaste);
                assert(effects@ =~= seq![Effect::RequestSystemPaste]);
            },
            NativeMenuCommand::NewSession => effects.push(
                Effect::Dispatch(AppCommand::OpenLauncher),
            ),
            NativeMenuCommand::NewWindow => effects.push(Effect::Dispatch(AppCommand::OpenWindow)),
            NativeMenuCommand::StartLocalShell => effects.push(
                Effect::Dispatch(AppCommand::StartLocalSession),
            ),
            NativeMenuCommand::OpenSettings => effects.push(
                Effect::Dispatch(AppCommand::OpenSettings),
            ),
            NativeMenuCommand::CloseActiveSurface => {
                let effect = self.request_close_tab(self.state.active, documents);
                effects = one_or_none(effect);
            },
            NativeMenuCommand::ToggleCommandPalette => {
                self.shell.focus.palette_open = !self.shell.focus.palette_open;
            },
            NativeMenuCommand::ToggleSessionInspector => {
                effects = self.toggle_inspector_from_current_focus(focused);
            },
            NativeMenuCommand::ClearTerminal => {
                effects = self.clear_active_terminal(now_ms);
            },
            NativeMenuCommand::ResetTerminal => {
                effects = self.reset_active_terminal(now_ms);
            },
            NativeMenuCommand::ToggleFocusMode => {
                effects = self.toggle_focus_mode(chord, now_ms);
            },
        }
        assert(effects@ =~= old(self).menu_outcome(
            command,
            documents@,
            chord,
            focused,
            now_ms,
        ).1);
        MenuEffects { swallow, effects }
    }
}

impl TabContent {
    /// What the menu bar calls closing a tab with this content.
    pub open spec fn menu_close_text(self) -> Seq<char> {
        match self {
            TabContent::Launcher => "Close Launcher"@,
            TabContent::Settings => "Close Settings"@,
            TabContent::Profiles => "Close Profiles"@,
            TabContent::MarkdownViewer(_) => "Close Markdown Viewer"@,
            TabContent::TextEditor(_) => "Close Editor"@,
            _ => "Close Session"@,
        }
    }

    pub fn menu_close_label(&self) -> (label: &'static str)
        ensures
            label@ == self.menu_close_text(),
    {
        match self {
            TabContent::Launcher => "Close Launcher",
            TabContent::Settings => "Close Settings",
            TabContent::Profiles => "Close Profiles",
            TabContent::MarkdownViewer(_) => "Close Markdown Viewer",
            TabContent::TextEditor(_) => "Close Editor",
            _ => "Close Session",
        }
    }
}

/// A chord as the keyboard settings spell it.
#[derive(Debug)]
pub struct ParsedChord {
    pub key: String,
    pub ctrl: bool,
    pub command: bool,
    pub alt: bool,
    pub shift: bool,
}

/// A command of the menu bar with the action it stands for and its chord.
#[derive(Debug)]
pub struct MenuBinding {
    pub command: NativeMenuCommand,
    pub action: KeyboardAction,
    /// The action only counts while a terminal owns the keyboard.
    pub terminal_only: bool,
    pub chord: Option<ParsedChord>,
}

/// A shortcut of the menu bar.
#[derive(Debug)]
pub struct NativeShortcut {
    pub command: NativeMenuCommand,
    pub key: String,
    pub control: bool,
    pub command_modifier: bool,
    pub option: bool,
    pub shift: bool,
}

pub struct NativeShortcutView {
    pub command: NativeMenuCommand,
    pub key: Seq<char>,
    pub control: bool,
    pub command_modifier: bool,
    pub option: bool,
    pub shift: bool,
}

impl View for NativeShortcut {
    type V = NativeShortcutView;

    open spec fn view(&self) -> NativeShortcutView {
        NativeShortcutView {
            command: self.command,
            key: self.key@,
            control: self.control,
            command_modifier: self.command_modifier,
            option: self.option,
            shift: self.shift,
        }
    }
}

/// `char::from_u32` gives the character with a code point, where it is one:
/// surrogates and everything above the last code point are not.
pub assume_specification[ char::from_u32 ](code: u32) -> (c: Option<char>)
    ensures
        c == if code < 0xd800 || 0xe000 <= code <= 0x10ffff {
            Some(code as char)
        } else {
            None
        },
;

pub open spec fn ascii(s: Seq<char>) -> bool {
    forall|i: int| 0 <= i < s.len() ==> #[trigger] s[i] <= '\u{7f}'
}

/// The lower-case form of an ASCII character.
pub open spec fn ascii_lower(c: char) -> char {
    if 'A' <= c <= 'Z' {
        (c as u32 + 32) as char
    } else {
        c
    }
}

/// The lower-case form of a text in ASCII.
pub open spec fn ascii_lowercase(s: Seq<char>) -> Seq<char> {
    s.map_values(|c: char| ascii_lower(c))
}

/// The lower-case form of a text, as Unicode has it.
pub uninterp spec fn lowercase(s: Seq<char>) -> Seq<char>;

/// The lower-case form of a text, by std's `str::to_lowercase`. What it makes of
/// text beyond ASCII follows from Unicode's tables and is only given a name.
#[verifier::external_body]
fn lower_case(s: &str) -> (lower: String)
    ensures
        lower@ == lowercase(s@),
        ascii(s@) ==> lower@ == ascii_lowercase(s@),
{
    s.to_lowercase()
}

/// The number of a function key, as its name gives it.
pub open spec fn function_key(key: Seq<char>) -> Option<nat> {
    if key.len() > 1 && key[0] == 'F' {
        parsed_number(key.skip(1), u32::MAX as nat)
    } else {
        None
    }
}

/// The menu bar's name for a key, where `lower` is its lower-case form. A key
/// whose name begins like a function key but is none has no name.
pub open spec fn menu_key(key: Seq<char>, lower: Seq<char>) -> Option<Seq<char>> {
    if key == "Comma"@ {
        Some(","@)
    } else if key == "Period"@ {
        Some("."@)
    } else if key == "Tab"@ {
        Some("\t"@)
    } else if key == "Minus"@ {
        Some("-"@)
    } else if key == "Plus"@ {
        Some("+"@)
    } else if key == "Equals"@ {
        Some("="@)
    } else if key.len() > 1 && key[0] == 'F' {
        match function_key(key) {
            Some(number) => if 0xf703 + number <= 0x10ffff {
                Some(seq![(0xf703 + number) as char])
            } else {
                None
            },
            None => None,
        }
    } else {
        Some(lower)
    }
}

/// Names a key for the menu bar.
pub fn native_key(key: &str) -> (name: Option<String>)
    requires
        function_key(key@) is Some ==> function_key(key@)->Some_0 <= u32::MAX - 0xf704,
    ensures
        optional_text(name) == menu_key(key@, lowercase(key@)),
        ascii(key@) ==> optional_text(name) == menu_key(key@, ascii_lowercase(key@)),
{
    key_name(key, lower_case(key))
}

/// Names a key whose lower-case form is `lower`.
pub fn key_name(key: &str, lower: String) -> (name: Option<String>)
    requires
        function_key(key@) is Some ==> function_key(key@)->Some_0 <= u32::MAX - 0xf704,
    ensures
        optional_text(name) == menu_key(key@, lower@),
{
    let ghost lowered = lower@;
    let length: usize = key.unicode_len();
    let name = if same_text(key, "Comma") {
        Some(",".to_owned())
    } else if same_text(key, "Period") {
        Some(".".to_owned())
    } else if same_text(key, "Tab") {
        Some("\t".to_owned())
    } else if same_text(key, "Minus") {
        Some("-".to_owned())
    } else if same_text(key, "Plus") {
        Some("+".to_owned())
    } else if same_text(key, "Equals") {
        Some("=".to_owned())
    } else if length > 1 && key.get_char(0) == 'F' {
        let mut digits = String::new();
        let mut i: usize = 1;
        while i < length
            invariant
                1 <= i <= length == key@.len(),
                digits@ == key@.subrange(1, i as int),
            decreases length - i,
        {
            digits.push(key.get_char(i));
            i = i + 1;
            assert(digits@ =~= key@.subrange(1, i as int));
        }
        assert(digits@ =~= key@.skip(1));
        match parse_number(digits.as_str(), 0xffff_ffff) {
            Some(number) => {
                let code: u32 = 0xf704 + number as u32 - 1;
                match char::from_u32(code) {
                    Some(c) => {
                        let mut text = String::new();
                        text.push(c);
                        assert(text@ =~= seq![c]);
                        Some(text)
                    },
                    None => None,
                }
            },
            None => None,
        }
    } else {
        Some(lower)
    };
    assert(optional_text(name) == menu_key(key@, lowered));
    name
}

impl FesTermApp {
    /// A shortcut of the menu bar counts now: nothing blocks it, the palette
    /// leaves it alone, and a terminal owns the keyboard where it must.
    pub open spec fn menu_binding_counts(self, binding: MenuBinding) -> bool {
        &&& !self.shell.overlays.blocking()
        &&& !(self.shell.focus.palette_open && binding.action != KeyboardAction::CommandPalette)
        &&& !(binding.terminal_only && !self.owns_input())
    }

    /// The number of the function key that `binding` shows now, if it shows one,
    /// has a code point within the machine's range.
    pub open spec fn menu_key_fits(self, binding: MenuBinding) -> bool {
        match binding.chord {
            Some(chord) => self.menu_binding_counts(binding) && function_key(chord.key@) is Some
                ==> function_key(chord.key@)->Some_0 <= u32::MAX - 0xf704,
            None => true,
        }
    }

    /// The shortcut that the menu bar shows for `binding`, where `lower` is its
    /// key's lower-case form.
    pub open spec fn menu_shortcut(self, binding: MenuBinding, lower: Seq<char>) -> Option<
        NativeShortcutView,
    > {
        match binding.chord {
            Some(chord) => if !self.menu_binding_counts(binding) {
                None
            } else {
                match menu_key(chord.key@, lower) {
                    Some(key) => Some(
                        NativeShortcutView {
                            command: binding.command,
                            key,
                            control: chord.ctrl,
                            command_modifier: chord.command,
                            option: chord.alt,
                            shift: chord.shift,
                        },
                    ),
                    None => None,
                }
            },
            None => None,
        }
    }

    /// `shortcut` is what the menu bar shows for `binding`.
    pub open spec fn shows_shortcut(
        self,
        binding: MenuBinding,
        shortcut: Option<NativeShortcutView>,
    ) -> bool {
        match binding.chord {
            Some(chord) => {
                &&& shortcut == self.menu_shortcut(binding, lowercase(chord.key@))
                &&& ascii(chord.key@) ==> shortcut == self.menu_shortcut(
                    binding,
                    ascii_lowercase(chord.key@),
                )
            },
            None => shortcut is None,
        }
    }

    fn shortcut_for(&self, binding: &MenuBinding) -> (shortcut: Option<NativeShortcut>)
        requires
            self.menu_key_fits(*binding),
        ensures
            self.shows_shortcut(
                *binding,
                match shortcut {
                    Some(shortcut) => Some(shortcut@),
                    None => None,
                },
            ),
    {
        let chord = match &binding.chord {
            Some(chord) => chord,
            None => return None,
        };
        let palette_action = matches!(binding.action, KeyboardAction::CommandPalette);
        let counts = !self.shell.overlays.blocks_terminal_input() && !(
        self.shell.focus.palette_open && !palette_action) && !(binding.terminal_only
            && !self.terminal_owns_input());
        if counts {
            match native_key(chord.key.as_str()) {
                Some(key) => Some(
                    NativeShortcut {
                        command: binding.command,
                        key,
                        control: chord.ctrl,
                        command_modifier: chord.command,
                        option: chord.alt,
                        shift: chord.shift,
                    },
                ),
                None => None,
            }
        } else {
            None
        }
    }

    /// Brings the menu bar up to date: what closing is called, whether a
    /// session is in front, whether the inspector is open, and for each of its
    /// commands the shortcut that counts now, if one does.
    pub fn update_native_menu(&self, bindings: &Vec<MenuBinding>) -> (menu: (
        &'static str,
        bool,
        bool,
        Vec<Option<NativeShortcut>>,
    ))
        requires
            self.state.wf(),
            self.state.tabs@.len() > 0,
            forall|i: int|
                0 <= i < bindings@.len() ==> self.menu_key_fits(#[trigger] bindings@[i]),
        ensures
            menu.0@ == self.state.active_tab()->Some_0.content.menu_close_text(),
            menu.1 == (self.state.active_session() is Some),
            menu.2 == self.shell.focus.inspector_open,
            menu.3@.len() == bindings@.len(),
            forall|i: int|
                0 <= i < bindings@.len() ==> self.shows_shortcut(
                    bindings@[i],
                    match (#[trigger] menu.3@[i]) {
                        Some(shortcut) => Some(shortcut@),
                        None => None,
                    },
                ),
    {
        let close_label = match self.state.tab(self.state.active) {
            Some(tab) => tab.content.menu_close_label(),
            None => "Close Session",
        };
        let mut shortcuts: Vec<Option<NativeShortcut>> = Vec::new();
        let mut i: usize = 0;
        while i < bindings.len()
            invariant
                i <= bindings@.len(),
                shortcuts@.len() == i,
                forall|k: int|
                    0 <= k < bindings@.len() ==> self.menu_key_fits(#[trigger] bindings@[k]),
                forall|k: int|
                    0 <= k < i ==> self.shows_shortcut(
                        bindings@[k],
                        match (#[trigger] shortcuts@[k]) {
                            Some(shortcut) => Some(shortcut@),
                            None => None,
                        },
                    ),
            decreases bindings@.len() - i,
        {
            let binding = &bindings[i];
            let shortcut = self.shortcut_for(binding);
            shortcuts.push(shortcut);
            i = i + 1;
        }
        (
            close_label,
            self.state.session_tab(self.state.active).is_some(),
            self.shell.focus.inspector_open,
            shortcuts,
        )
    }
}

/// While something blocks the terminal, the menu bar shows no shortcut.
pub proof fn blocked_menu_has_no_shortcuts(app: FesTermApp, binding: MenuBinding, lower: Seq<char>)
    requires
        app.shell.overlays.blocking(),
    ensures
        app.menu_shortcut(binding, lower) is None,
{
}

/// A command of the menu bar does what its shortcut does.
pub proof fn menu_commands_do_what_their_shortcuts_do(
    app: FesTermApp,
    command: NativeMenuCommand,
    documents: Seq<OpenDocument>,
    chord: Option<String>,
    focused: Option<u64>,
    now_ms: u64,
)
    requires
        command.counterpart_action() is Some,
        command != NativeMenuCommand::ToggleCommandPalette,
    ensures
        app.menu_outcome(command, documents, chord, focused, now_ms) == app.action_outcome(
            command.counterpart_action()->Some_0,
            documents,
            chord,
            now_ms,
        ),
{
}

/// Every command of the menu bar has a shortcut of its own, but for pasting and
/// the inspector: no two swallow the same key press, and each the one named like
/// it.
pub proof fn menu_commands_have_shortcuts_of_their_own(a: NativeMenuCommand, b: NativeMenuCommand)
    ensures
        a.counterpart_action() is None <==> a == NativeMenuCommand::Paste || a
            == NativeMenuCommand::ToggleSessionInspector,
        a != b && a.counterpart_action() is Some ==> a.counterpart_action()
            != b.counterpart_action(),
        NativeMenuCommand::CloseActiveSurface.counterpart_action() == Some(
            KeyboardAction::CloseActiveSurface,
        ),
        NativeMenuCommand::ToggleCommandPalette.counterpart_action() == Some(
            KeyboardAction::CommandPalette,
        ),
{
}

/// The rest of the menu bar: pasting goes to the terminal where that owns the
/// keyboard and to the focused widget otherwise; the palette opens and closes;
/// the inspector remembers what had the keyboard.
pub proof fn the_menu_pastes_where_the_keyboard_is(
    app: FesTermApp,
    documents: Seq<OpenDocument>,
    chord: Option<String>,
    focused: Option<u64>,
    now_ms: u64,
)
    ensures
        ({
            let (pasted, effects) = app.menu_outcome(
                NativeMenuCommand::Paste,
                documents,
                chord,
                focused,
                now_ms,
            );
            let (toggled, nothing) = app.menu_outcome(
                NativeMenuCommand::ToggleCommandPalette,
                documents,
                chord,
                focused,
                now_ms,
            );
            &&& app.owns_input() ==> app.pastes(None, 0, pasted, effects)
            &&& !app.owns_input() ==> pasted == app && effects == seq![Effect::RequestSystemPaste]
            &&& nothing.len() == 0
            &&& toggled.shell.focus.palette_open != app.shell.focus.palette_open
            &&& toggled.menu_outcome(
                NativeMenuCommand::ToggleCommandPalette,
                documents,
                chord,
                focused,
                now_ms,
            ).0 == app
            &&& app.menu_outcome(
                NativeMenuCommand::ToggleSessionInspector,
                documents,
                chord,
                focused,
                now_ms,
            ) == app.inspector_toggled(focused)
        }),
{
}

/// A shortcut is shown exactly where its chord can be shown and would work now:
/// nothing blocks the terminal, the palette is closed or it is the palette's own,
/// and a terminal owns the keyboard where it must. It is shown as it is bound.
pub proof fn shortcuts_are_shown_where_they_work(
    app: FesTermApp,
    binding: MenuBinding,
    lower: Seq<char>,
)
    ensures
        ({
            let shown = app.menu_shortcut(binding, lower);
            let works = !app.shell.overlays.blocking() && (!app.shell.focus.palette_open
                || binding.action == KeyboardAction::CommandPalette) && (!binding.terminal_only
                || app.owns_input());
            &&& shown is Some ==> works && binding.chord is Some
            &&& works && binding.chord is Some && menu_key(
                binding.chord->Some_0.key@,
                lower,
            ) is Some ==> shown is Some
            &&& shown is Some ==> {
                let chord = binding.chord->Some_0;
                &&& shown->Some_0.command == binding.command
                &&& shown->Some_0.control == chord.ctrl
                &&& shown->Some_0.command_modifier == chord.command
                &&& shown->Some_0.option == chord.alt
                &&& shown->Some_0.shift == chord.shift
                &&& Some(shown->Some_0.key) == menu_key(chord.key@, lower)
            }
        }),
{
}

/// Function keys have code points one after the other, from the first on; other
/// keys are named by their lower-case form, unless they are one of the signs.
pub proof fn function_keys_follow_each_other(key: Seq<char>, lower: Seq<char>, number: nat)
    requires
        key.len() > 1,
        key[0] == 'F',
        parsed_number(key.skip(1), u32::MAX as nat) == Some(number),
        1 <= number <= 35,
    ensures
        menu_key(key, lower) is Some,
        menu_key(key, lower)->Some_0.len() == 1,
        menu_key(key, lower)->Some_0[0] as nat == 0xf704 + number - 1,
{
    reveal_strlit("Comma");
    reveal_strlit("Period");
    reveal_strlit("Tab");
    reveal_strlit("Minus");
    reveal_strlit("Plus");
    reveal_strlit("Equals");
    assert(key[0] != "Comma"@[0] && key[0] != "Period"@[0] && key[0] != "Tab"@[0]);
    assert(key[0] != "Minus"@[0] && key[0] != "Plus"@[0] && key[0] != "Equals"@[0]);
}

/// A key of one letter is shown in its lower-case form.
pub proof fn letters_are_shown_in_lower_case(key: Seq<char>, lower: Seq<char>)
    requires
        key.len() == 1,
    ensures
        menu_key(key, lower) == Some(lower),
{
    reveal_strlit("Comma");
    reveal_strlit("Period");
    reveal_strlit("Tab");
    reveal_strlit("Minus");
    reveal_strlit("Plus");
    reveal_strlit("Equals");
}

/// Lower-casing in ASCII changes capital letters only, keeps the length, and
/// does nothing the second time.
pub proof fn ascii_lowercase_changes_capitals_only(s: Seq<char>, i: int)
    requires
        0 <= i < s.len(),
    ensures
        ascii_lowercase(s).len() == s.len(),
        'A' <= s[i] <= 'Z' ==> ascii_lowercase(s)[i] as u32 == s[i] as u32 - 'A' as u32
            + 'a' as u32,
        !('A' <= s[i] <= 'Z') ==> ascii_lowercase(s)[i] == s[i],
        !('A' <= ascii_lowercase(s)[i] <= 'Z'),
{
}

/// The menu bar calls closing a tab after what the tab holds.
pub proof fn closing_is_called_after_the_tab(a: TabContent, b: TabContent)
    requires
        a.menu_close_text() == b.menu_close_text(),
    ensures
        a is Launcher <==> b is Launcher,
        a is Settings <==> b is Settings,
        a is Profiles <==> b is Profiles,
        a is MarkdownViewer <==> b is MarkdownViewer,
        a is TextEditor <==> b is TextEditor,
{
    reveal_strlit("Close Launcher");
    reveal_strlit("Close Settings");
    reveal_strlit("Close Profiles");
    reveal_strlit("Close Markdown Viewer");
    reveal_strlit("Close Editor");
    reveal_strlit("Close Session");
    assert("Close Launcher"@[6] == 'L');
    assert("Close Settings"@[6] == 'S' && "Close Settings"@.len() == 14);
    assert("Close Profiles"@[6] == 'P');
    assert("Close Markdown Viewer"@[6] == 'M');
    assert("Close Editor"@[6] == 'E');
    assert("Close Session"@[6] == 'S' && "Close Session"@.len() == 13);
}

} // verus!

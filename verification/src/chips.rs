//! The row of chips: what each tab's chip says.
use std::path::Path;

use vstd::prelude::*;

use crate::app::FesTermApp;
use crate::shortcuts::MAX_QUICK_SWITCH_TABS;
use crate::state::{ChipStatus, SessionTab, Tab, TabContent};
#[allow(unused_imports)]
use crate::state::Destination;
#[allow(unused_imports)]
use crate::text::optional_text;

verus! {

/// A character that parts the components of a path: a slash, and where
/// `backslash` says so a backslash too.
pub open spec fn separates(c: char, backslash: bool) -> bool {
    c == '/' || (backslash && c == '\\')
}

/// What follows the last separator of `s`.
pub open spec fn last_piece(s: Seq<char>, backslash: bool) -> Seq<char>
    decreases s.len(),
{
    if s.len() == 0 || separates(s.last(), backslash) {
        Seq::empty()
    } else {
        last_piece(s.drop_last(), backslash).push(s.last())
    }
}

/// The name that the path `s`, without a prefix, ends in. Separators and `.` at
/// its end do not count; nothing is left of a path that ends in `..`.
pub open spec fn final_name(s: Seq<char>, backslash: bool) -> Option<Seq<char>>
    decreases s.len(),
{
    let piece = last_piece(s, backslash);
    if s.len() == 0 {
        None
    } else if piece.len() == 0 || piece == seq!['.'] {
        final_name(s.drop_last(), backslash)
    } else if piece == seq!['.', '.'] {
        None
    } else {
        Some(piece)
    }
}

/// The file name of `s` where only slashes part a path.
pub open spec fn unix_name(s: Seq<char>) -> Option<Seq<char>> {
    final_name(s, false)
}

/// `s` begins with the letter of a drive.
pub open spec fn has_drive(s: Seq<char>) -> bool {
    s.len() >= 2 && s[1] == ':' && ('a' <= s[0] <= 'z' || 'A' <= s[0] <= 'Z')
}

/// The file name of `s` where backslashes part a path too, and where it can
/// begin with a drive.
pub open spec fn windows_name(s: Seq<char>) -> Option<Seq<char>> {
    final_name(
        if has_drive(s) {
            s.skip(2)
        } else {
            s
        },
        true,
    )
}

/// `s` can begin with the prefix of a share or a device.
pub open spec fn has_share(s: Seq<char>) -> bool {
    s.len() >= 2 && separates(s[0], true) && separates(s[1], true)
}

/// `name` is a part of `s` between backslashes.
pub open spec fn is_piece(s: Seq<char>, name: Seq<char>) -> bool {
    &&& name.len() > 0
    &&& !name.contains('\\')
    &&& exists|i: int, j: int| 0 <= i <= j <= s.len() && name == #[trigger] s.subrange(i, j)
}

/// `name` can be the file name of the path `s`: as a platform with slashes reads
/// it, or as one with drives and backslashes does. Behind the prefix of a share
/// or a device, such a platform finds a part of the path or nothing.
pub open spec fn possible_file_name(s: Seq<char>, name: Option<Seq<char>>) -> bool {
    ||| name == unix_name(s)
    ||| if has_share(s) {
        name is None || is_piece(s, name->Some_0)
    } else {
        name == windows_name(s)
    }
}

/// The final component of a path, by std's `Path::file_name`. Platforms differ
/// in what parts a path and in what it can begin with, so that the result is one
/// of two readings; what follows the prefix of a share or a device is only
/// stated to be a part of the path, if there is anything.
#[verifier::external_body]
fn path_file_name(path: &str) -> (name: Option<String>)
    ensures
        possible_file_name(path@, optional_text(name)),
{
    Path::new(path).file_name().map(|name| name.to_string_lossy().into_owned())
}

/// The short form of a title whose file name is `name`.
pub open spec fn short_title(title: Seq<char>, name: Option<Seq<char>>) -> Seq<char> {
    match name {
        Some(name) => if name.len() > 0 {
            name
        } else {
            title
        },
        None => title,
    }
}

/// Shortens a title to its file name, and keeps it where it has none.
pub fn shorten(title: &str, name: Option<String>) -> (short: String)
    ensures
        short@ == short_title(title@, optional_text(name)),
{
    match name {
        Some(name) => if name.as_str().is_empty() {
            title.to_owned()
        } else {
            name
        },
        None => title.to_owned(),
    }
}

/// Reduces a title that looks like a path to what it ends in.
pub fn display_secondary(title: &str) -> (short: String)
    ensures
        exists|name: Option<Seq<char>>|
            possible_file_name(title@, name) && short@ == #[trigger] short_title(title@, name),
        !has_share(title@) ==> short@ == short_title(title@, unix_name(title@)) || short@
            == short_title(title@, windows_name(title@)),
        read_alike(title@) ==> short@ == short_title(title@, unix_name(title@)),
        title@.len() > 0 ==> short@.len() > 0,
{
    let name = path_file_name(title);
    let ghost found = optional_text(name);
    let short = shorten(title, name);
    assert(short@ == short_title(title@, found));
    proof {
        if read_alike(title@) {
            plain_titles_read_alike(title@);
        }
    }
    short
}

/// A title without backslashes, drive or share.
pub open spec fn read_alike(s: Seq<char>) -> bool {
    !s.contains('\\') && !has_drive(s) && !has_share(s)
}

/// A title without backslashes, drive or share has the same file name on every
/// platform.
pub proof fn plain_titles_read_alike(s: Seq<char>)
    requires
        read_alike(s),
    ensures
        unix_name(s) == windows_name(s),
        forall|name: Option<Seq<char>>| #[trigger]
            possible_file_name(s, name) ==> name == unix_name(s),
{
    final_names_agree(s);
}

proof fn last_pieces_agree(s: Seq<char>)
    requires
        !s.contains('\\'),
    ensures
        last_piece(s, false) == last_piece(s, true),
    decreases s.len(),
{
    if s.len() > 0 {
        assert(s.contains(s.last()));
        assert(forall|c: char| s.drop_last().contains(c) ==> s.contains(c));
        last_pieces_agree(s.drop_last());
    }
}

proof fn final_names_agree(s: Seq<char>)
    requires
        !s.contains('\\'),
    ensures
        final_name(s, false) == final_name(s, true),
    decreases s.len(),
{
    last_pieces_agree(s);
    if s.len() > 0 {
        assert(forall|c: char| s.drop_last().contains(c) ==> s.contains(c));
        final_names_agree(s.drop_last());
    }
}

impl SessionTab {
    /// What a chip says about a session besides its label, where `name` is the
    /// file name of its terminal's title.
    pub open spec fn secondary_text(self, name: Option<Seq<char>>) -> Option<Seq<char>> {
        match self.dynamic_secondary {
            Some(text) => Some(text@),
            None => if self.terminal_title@.len() > 0 {
                Some(short_title(self.terminal_title@, name))
            } else {
                optional_text(self.launch_secondary)
            },
        }
    }

    /// What a chip says about a session besides its label: what the session
    /// says about itself, or the short form of its terminal's title, or what it
    /// was launched with.
    pub fn secondary(&self) -> (text: Option<String>)
        ensures
            exists|name: Option<Seq<char>>|
                possible_file_name(self.terminal_title@, name) && optional_text(text)
                    == #[trigger] self.secondary_text(name),
    {
        match &self.dynamic_secondary {
            Some(text) => {
                proof {
                    let name = unix_name(self.terminal_title@);
                    assert(possible_file_name(self.terminal_title@, name));
                    assert(self.secondary_text(name) == Some(text@));
                }
                Some(text.clone())
            },
            None => if !self.terminal_title.as_str().is_empty() {
                let short = display_secondary(self.terminal_title.as_str());
                proof {
                    let name = choose|name: Option<Seq<char>>|
                        possible_file_name(self.terminal_title@, name) && short@
                            == #[trigger] short_title(self.terminal_title@, name);
                    assert(self.secondary_text(name) == Some(short@));
                }
                Some(short)
            } else {
                proof {
                    let name = unix_name(self.terminal_title@);
                    assert(possible_file_name(self.terminal_title@, name));
                    assert(self.secondary_text(name) == optional_text(self.launch_secondary));
                }
                match &self.launch_secondary {
                    Some(text) => Some(text.clone()),
                    None => None,
                }
            },
        }
    }
}

#[derive(Debug)]
pub struct ChipViewModel {
    pub id: u64,
    pub primary: String,
    pub secondary: Option<String>,
    pub status: ChipStatus,
    pub closable: bool,
    pub renamable: bool,
    pub movable_across_windows: bool,
    pub quick_switch_number: Option<u8>,
    pub pulse_new_output: bool,
}

pub struct ChipView {
    pub id: u64,
    pub primary: Seq<char>,
    pub secondary: Option<Seq<char>>,
    pub status: ChipStatus,
    pub closable: bool,
    pub renamable: bool,
    pub movable_across_windows: bool,
    pub quick_switch_number: Option<u8>,
    pub pulse_new_output: bool,
}

impl View for ChipViewModel {
    type V = ChipView;

    open spec fn view(&self) -> ChipView {
        ChipView {
            id: self.id,
            primary: self.primary@,
            secondary: optional_text(self.secondary),
            status: self.status,
            closable: self.closable,
            renamable: self.renamable,
            movable_across_windows: self.movable_across_windows,
            quick_switch_number: self.quick_switch_number,
            pulse_new_output: self.pulse_new_output,
        }
    }
}

impl Tab {
    /// The two lines of a tab's chip, and its state. `name` is the file name of
    /// a session's title.
    pub open spec fn chip_texts(self, name: Option<Seq<char>>) -> (
        Seq<char>,
        Option<Seq<char>>,
        ChipStatus,
    ) {
        match self.content {
            TabContent::Launcher => ("New Session"@, Some("Launcher"@), ChipStatus::Neutral),
            TabContent::Settings => ("Settings"@, Some("Application"@), ChipStatus::Neutral),
            TabContent::Profiles => ("Profiles"@, Some("Application"@), ChipStatus::Neutral),
            TabContent::MarkdownViewer(tab) => (
                tab.title@,
                Some(tab.secondary@),
                ChipStatus::Neutral,
            ),
            TabContent::TextEditor(tab) => (tab.title@, Some(tab.origin@), tab.status),
            TabContent::SshAuthenticationRequired(to) => (
                to.label@,
                Some(to.waiting_text("SSH"@)),
                ChipStatus::Neutral,
            ),
            TabContent::SftpAuthenticationRequired(to) => (
                to.label@,
                Some(to.waiting_text("SFTP"@)),
                ChipStatus::Neutral,
            ),
            TabContent::SftpFileManagerAuthenticationRequired(to) => (
                to.label@,
                Some(to.waiting_text("GUI SFTP"@)),
                ChipStatus::Neutral,
            ),
            TabContent::SftpFileManager(tab) => (
                tab.label@,
                Some("GUI SFTP file manager"@),
                ChipStatus::Neutral,
            ),
            TabContent::Session(session) => (
                session.label@,
                session.secondary_text(name),
                session.chip_status,
            ),
        }
    }

    /// `name` can be the file name of this tab's title.
    pub open spec fn possible_name(self, name: Option<Seq<char>>) -> bool {
        match self.content {
            TabContent::Session(session) => possible_file_name(session.terminal_title@, name),
            _ => true,
        }
    }

    fn chip_lines(&self) -> (lines: (String, Option<String>, ChipStatus))
        ensures
            exists|name: Option<Seq<char>>|
                self.possible_name(name) && (lines.0@, optional_text(lines.1), lines.2)
                    == #[trigger] self.chip_texts(name),
    {
        let lines = match &self.content {
            TabContent::Launcher => (
                "New Session".to_owned(),
                Some("Launcher".to_owned()),
                ChipStatus::Neutral,
            ),
            TabContent::Settings => (
                "Settings".to_owned(),
                Some("Application".to_owned()),
                ChipStatus::Neutral,
            ),
            TabContent::Profiles => (
                "Profiles".to_owned(),
                Some("Application".to_owned()),
                ChipStatus::Neutral,
            ),
            TabContent::MarkdownViewer(tab) => (
                tab.title.clone(),
                Some(tab.secondary.clone()),
                ChipStatus::Neutral,
            ),
            TabContent::TextEditor(tab) => (
                tab.title.clone(),
                Some(tab.origin.clone()),
                tab.status,
            ),
            TabContent::SshAuthenticationRequired(to) => (
                to.label.clone(),
                Some(to.waiting("SSH")),
                ChipStatus::Neutral,
            ),
            TabContent::SftpAuthenticationRequired(to) => (
                to.label.clone(),
                Some(to.waiting("SFTP")),
                ChipStatus::Neutral,
            ),
            TabContent::SftpFileManagerAuthenticationRequired(to) => (
                to.label.clone(),
                Some(to.waiting("GUI SFTP")),
                ChipStatus::Neutral,
            ),
            TabContent::SftpFileManager(tab) => (
                tab.label.clone(),
                Some("GUI SFTP file manager".to_owned()),
                ChipStatus::Neutral,
            ),
            TabContent::Session(session) => {
                let secondary = session.secondary();
                proof {
                    let name = choose|name: Option<Seq<char>>|
                        possible_file_name(session.terminal_title@, name) && optional_text(
                            secondary,
                        ) == #[trigger] session.secondary_text(name);
                    assert(self.chip_texts(name) == (
                        session.label@,
                        optional_text(secondary),
                        session.chip_status,
                    ));
                }
                (session.label.clone(), secondary, session.chip_status)
            },
        };
        proof {
            if !(self.content is Session) {
                assert(self.possible_name(None));
                assert((lines.0@, optional_text(lines.1), lines.2) == self.chip_texts(None));
            }
        }
        lines
    }

    /// A tab that can go to another window. Every window can open a launcher,
    /// settings and profiles of its own, so those stay.
    pub open spec fn movable(self) -> bool {
        !(self.content is Launcher) && !(self.content is Settings) && !(self.content is Profiles)
    }

    pub fn movable_across_windows(&self) -> (result: bool)
        ensures
            result == self.movable(),
    {
        !matches!(
            self.content,
            TabContent::Launcher | TabContent::Settings | TabContent::Profiles
        )
    }
}

impl FesTermApp {
    /// A session in the background has had output that nobody has seen yet.
    pub open spec fn pulses(self, tab: Tab) -> bool {
        &&& self.shell.documents.settings.pulse_new_output_dot
        &&& tab.id != self.state.active
        &&& tab.session() is Some
        &&& tab.session()->Some_0.has_new_output
    }

    /// The number on the chip at `index`: its place among the first nine, as
    /// long as that place's chord is the usual one.
    pub open spec fn chip_number(index: int, usual_chords: Seq<bool>) -> Option<u8> {
        if index < MAX_QUICK_SWITCH_TABS && index < usual_chords.len() && usual_chords[index] {
            Some((index + 1) as u8)
        } else {
            None
        }
    }

    /// The chip of the tab at `index`, where `name` is the file name of its title.
    pub open spec fn chip(self, index: int, usual_chords: Seq<bool>, name: Option<Seq<char>>) -> ChipView {
        let tab = self.state.tabs@[index];
        let (primary, secondary, status) = tab.chip_texts(name);
        ChipView {
            id: tab.id.0,
            primary,
            secondary,
            status,
            closable: true,
            renamable: tab.session() is Some,
            movable_across_windows: tab.movable(),
            quick_switch_number: Self::chip_number(index, usual_chords),
            pulse_new_output: self.pulses(tab),
        }
    }

    /// `chip` is the chip of the tab at `index`.
    pub open spec fn is_chip(self, index: int, usual_chords: Seq<bool>, chip: ChipView) -> bool {
        exists|name: Option<Seq<char>>|
            self.state.tabs@[index].possible_name(name) && chip == #[trigger] self.chip(
                index,
                usual_chords,
                name,
            )
    }

    /// Builds the chips of this window and says which of them is in front.
    /// `usual_chords` says of each of the first nine places whether its chord is
    /// the usual one.
    pub fn chip_view_models(&self, usual_chords: &Vec<bool>) -> (result: (Vec<ChipViewModel>, u64))
        ensures
            result.0@.len() == self.state.tabs@.len(),
            forall|i: int|
                0 <= i < result.0@.len() ==> self.is_chip(
                    i,
                    usual_chords@,
                    (#[trigger] result.0@[i])@,
                ),
            result.1 == self.state.active.0,
    {
        let pulse = self.shell.documents.settings.pulse_new_output_dot;
        let mut chips: Vec<ChipViewModel> = Vec::new();
        let mut i: usize = 0;
        while i < self.state.tabs.len()
            invariant
                i <= self.state.tabs@.len(),
                chips@.len() == i,
                pulse == self.shell.documents.settings.pulse_new_output_dot,
                forall|k: int|
                    0 <= k < i ==> self.is_chip(k, usual_chords@, (#[trigger] chips@[k])@),
            decreases self.state.tabs@.len() - i,
        {
            let tab = &self.state.tabs[i];
            let (primary, secondary, status) = tab.chip_lines();
            let (renamable, unseen) = match &tab.content {
                TabContent::Session(session) => (true, session.has_new_output),
                _ => (false, false),
            };
            let quick_switch_number: Option<u8> = if i < MAX_QUICK_SWITCH_TABS && i
                < usual_chords.len() && usual_chords[i] {
                Some((i + 1) as u8)
            } else {
                None
            };
            let ghost name = choose|name: Option<Seq<char>>|
                tab.possible_name(name) && (primary@, optional_text(secondary), status)
                    == #[trigger] tab.chip_texts(name);
            let chip = ChipViewModel {
                id: tab.id.0,
                primary,
                secondary,
                status,
                closable: true,
                renamable,
                movable_across_windows: tab.movable_across_windows(),
                quick_switch_number,
                pulse_new_output: pulse && tab.id != self.state.active && unseen,
            };
            assert(chip@ == self.chip(i as int, usual_chords@, name));
            chips.push(chip);
            assert(self.is_chip(i as int, usual_chords@, chips@[i as int]@));
            i = i + 1;
        }
        (chips, self.state.active.0)
    }
}

/// The tab in front never pulses, and nothing does while the preference is off.
pub proof fn only_background_sessions_pulse(app: FesTermApp, tab: Tab)
    requires
        tab.id == app.state.active
            || !app.shell.documents.settings.pulse_new_output_dot || tab.session() is None,
    ensures
        !app.pulses(tab),
{
}

/// Output that nobody has seen pulses on the chip of its session: exactly where
/// the preference is on, the tab is in the background and the session has had
/// some.
pub proof fn unseen_output_pulses(app: FesTermApp, tab: Tab)
    ensures
        app.pulses(tab) <==> {
            &&& app.shell.documents.settings.pulse_new_output_dot
            &&& tab.id != app.state.active
            &&& tab.content is Session
            &&& tab.content->Session_0.has_new_output
        },
{
}

/// A chip is about its own tab: it carries the tab's identifier, a session's
/// label and state, can be renamed exactly where it is a session and moved to
/// another window unless it is one that every window has, and can always be
/// closed. Its number is its place, for the first nine places, where that place's
/// chord is the usual one.
pub proof fn chips_are_about_their_tabs(
    app: FesTermApp,
    index: int,
    usual_chords: Seq<bool>,
    chip: ChipView,
)
    requires
        0 <= index < app.state.tabs@.len(),
        app.is_chip(index, usual_chords, chip),
    ensures
        ({
            let tab = app.state.tabs@[index];
            &&& chip.id == tab.id.0
            &&& chip.closable
            &&& chip.renamable <==> tab.content is Session
            &&& chip.movable_across_windows <==> !(tab.content is Launcher || tab.content is Settings
                || tab.content is Profiles)
            &&& chip.pulse_new_output ==> tab.id != app.state.active
            &&& chip.quick_switch_number is Some <==> index < 9 && index < usual_chords.len()
                && usual_chords[index]
            &&& chip.quick_switch_number is Some ==> chip.quick_switch_number->Some_0 == index + 1
            &&& match tab.content {
                TabContent::Session(session) => {
                    &&& chip.primary == session.label@
                    &&& chip.status == session.chip_status
                    &&& session.dynamic_secondary is Some ==> chip.secondary == Some(
                        session.dynamic_secondary->Some_0@,
                    )
                    &&& session.dynamic_secondary is None && session.terminal_title@.len() == 0
                        ==> chip.secondary == optional_text(session.launch_secondary)
                },
                TabContent::TextEditor(editor) => {
                    &&& chip.primary == editor.title@
                    &&& chip.secondary == Some(editor.origin@)
                    &&& chip.status == editor.status
                },
                TabContent::MarkdownViewer(viewer) => {
                    &&& chip.primary == viewer.title@
                    &&& chip.secondary == Some(viewer.secondary@)
                },
                TabContent::SftpFileManager(manager) => chip.primary == manager.label@,
                TabContent::SshAuthenticationRequired(to) => chip.primary == to.label@,
                TabContent::SftpAuthenticationRequired(to) => chip.primary == to.label@,
                TabContent::SftpFileManagerAuthenticationRequired(to) => chip.primary == to.label@,
                _ => chip.status == ChipStatus::Neutral,
            }
        }),
{
}

proof fn piece_of_name(s: Seq<char>, name: Seq<char>)
    requires
        s.len() > 0,
        s.last() == '/',
        !name.contains('/'),
    ensures
        last_piece(s + name, false) == name,
    decreases name.len(),
{
    if name.len() == 0 {
        assert(s + name =~= s);
    } else {
        assert(name.contains(name.last()));
        assert((s + name).drop_last() =~= s + name.drop_last());
        assert forall|c: char| name.drop_last().contains(c) implies name.contains(c) by {
            let i = choose|i: int| 0 <= i < name.drop_last().len() && name.drop_last()[i] == c;
            assert(name[i] == c);
        }
        piece_of_name(s, name.drop_last());
        assert(name.drop_last().push(name.last()) =~= name);
    }
}

/// A path's file name is what follows its last slash; slashes behind it do not
/// count. So a title that is a path is shortened to that name, whatever the
/// directory.
pub proof fn paths_end_in_their_name(directory: Seq<char>, name: Seq<char>)
    requires
        directory.len() > 0,
        directory.last() == '/',
        name.len() > 0,
        !name.contains('/'),
        name != seq!['.'],
        name != seq!['.', '.'],
    ensures
        unix_name(directory + name) == Some(name),
        unix_name(directory + name + seq!['/']) == Some(name),
        short_title(directory + name, unix_name(directory + name)) == name,
{
    piece_of_name(directory, name);
    let path = directory + name;
    let slashed = path + seq!['/'];
    assert(slashed.last() == '/');
    assert(last_piece(slashed, false).len() == 0);
    assert(slashed.drop_last() =~= path);
}

/// A title without a file name is kept as it is, and a short title is never
/// empty.
pub proof fn short_titles_are_never_empty(title: Seq<char>, name: Option<Seq<char>>)
    requires
        title.len() > 0,
    ensures
        short_title(title, name).len() > 0,
        name is None ==> short_title(title, name) == title,
        name is Some && name->Some_0.len() > 0 ==> short_title(title, name) == name->Some_0,
        name is Some && name->Some_0.len() == 0 ==> short_title(title, name) == title,
{
}

/// The second line of a session's chip is what the session says of itself, else
/// its terminal's title, shortened, else what it was launched with.
pub proof fn second_lines_are_the_most_recent(session: SessionTab, name: Option<Seq<char>>)
    ensures
        ({
            let line = session.secondary_text(name);
            &&& session.dynamic_secondary is Some ==> line == Some(session.dynamic_secondary->Some_0@)
            &&& session.dynamic_secondary is None && session.terminal_title@.len() > 0 ==> line
                is Some && line->Some_0.len() > 0
            &&& session.dynamic_secondary is None && session.terminal_title@.len() > 0 && name
                is None ==> line == Some(session.terminal_title@)
            &&& session.dynamic_secondary is None && session.terminal_title@.len() == 0
                && session.launch_secondary is Some ==> line == Some(
                session.launch_secondary->Some_0@,
            )
            &&& session.dynamic_secondary is None && session.terminal_title@.len() == 0
                && session.launch_secondary is None ==> line is None
        }),
{
}

} // verus!

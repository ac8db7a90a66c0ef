//! What the keys of the console do.

use vstd::prelude::*;

use crate::console::{
    delete_armed, page_left, page_right, row_down, row_up, tab_after, tab_before, user_down,
    user_up, App, Console, Tab,
};

verus! {

/// A key.
#[derive(Clone, Copy, Debug, PartialEq, Eq, Structural)]
pub enum Key {
    Char(char),
    Enter,
    Esc,
    Tab,
    BackTab,
    Up,
    Down,
    Left,
    Right,
    Other,
}

/// What is left to do once a key has been taken.
#[derive(Clone, Copy, Debug, PartialEq, Eq, Structural)]
pub enum Command {
    Stay,
    Quit,
    /// See whether there is an archive already, then report that.
    ProbeExport,
    Export,
    Import,
    ToggleDevice,
    DeleteDevice,
    ToggleApproval,
    DeleteUser,
    RestoreUser,
}

/// Whether a key says yes.
pub open spec fn is_yes(key: Key) -> bool {
    key == Key::Char('y') || key == Key::Char('Y')
}

/// What a key does on the tab of the devices.
pub open spec fn devices_key(s: Console, key: Key) -> (Console, Command) {
    match key {
        Key::Enter => (s, Command::ToggleDevice),
        Key::Up => (row_up(s), Command::Stay),
        Key::Down => (row_down(s), Command::Stay),
        Key::Left => (page_left(s), Command::Stay),
        Key::Right => (page_right(s), Command::Stay),
        Key::Char(c) => if c == ' ' {
            (s, Command::ToggleDevice)
        } else if c == 'd' || c == 'D' {
            (delete_armed(s), Command::Stay)
        } else {
            (s, Command::Stay)
        },
        _ => (s, Command::Stay),
    }
}

/// What a key does on the tab of the accounts.
pub open spec fn users_key(s: Console, key: Key) -> (Console, Command) {
    match key {
        Key::Enter => (s, Command::ToggleApproval),
        Key::Up => (user_up(s), Command::Stay),
        Key::Down => (user_down(s), Command::Stay),
        Key::Char(c) => if c == ' ' {
            (s, Command::ToggleApproval)
        } else if c == 'd' || c == 'D' {
            (s, Command::DeleteUser)
        } else if c == 'r' || c == 'R' {
            (s, Command::RestoreUser)
        } else {
            (s, Command::Stay)
        },
        _ => (s, Command::Stay),
    }
}

/// What a key does where nothing is in its way.
pub open spec fn tab_key(s: Console, key: Key) -> (Console, Command) {
    match key {
        Key::Esc => (s, Command::Quit),
        Key::Tab => (
            Console { tab: tab_after(s.tab), message: Seq::empty(), ..s },
            Command::Stay,
        ),
        Key::BackTab => (
            Console { tab: tab_before(s.tab), message: Seq::empty(), ..s },
            Command::Stay,
        ),
        _ => if key == Key::Char('q') {
            (s, Command::Quit)
        } else {
            match s.tab {
                Tab::Devices => devices_key(s, key),
                Tab::Users => users_key(s, key),
                Tab::Export => if key == Key::Enter && !s.busy {
                    (s, Command::ProbeExport)
                } else {
                    (s, Command::Stay)
                },
                Tab::Import => if key == Key::Enter && !s.busy {
                    (s, Command::Import)
                } else {
                    (s, Command::Stay)
                },
            }
        },
    }
}

/// What a key does. Control with `c` or `d` always quits. While the server is
/// down, keys only quit. While a removal or an overwriting is asked about, the
/// key answers the question.
pub open spec fn pressed(s: Console, key: Key, control: bool) -> (Console, Command) {
    if control && (key == Key::Char('c') || key == Key::Char('d')) {
        (s, Command::Quit)
    } else if s.backend_down {
        if key == Key::Enter || key == Key::Char('q') || key == Key::Char('Q') || key
            == Key::Esc {
            (s, Command::Quit)
        } else {
            (s, Command::Stay)
        }
    } else if s.pending_delete is Some {
        if is_yes(key) {
            (s, Command::DeleteDevice)
        } else {
            (
                Console { pending_delete: None, message: "Delete cancelled"@, ..s },
                Command::Stay,
            )
        }
    } else if s.pending_export {
        if is_yes(key) {
            (Console { pending_export: false, ..s }, Command::Export)
        } else {
            (
                Console { pending_export: false, message: "Export cancelled"@, ..s },
                Command::Stay,
            )
        }
    } else {
        tab_key(s, key)
    }
}

/// The question that comes before an archive is overwritten.
pub open spec fn overwrite_question(path: Seq<char>) -> Seq<char> {
    path + " already exists — overwrite? (y = yes, any other key = cancel)"@
}

/// What to do once it is known whether there is an archive already.
pub open spec fn probed(s: Console, exists_already: bool) -> (Console, Command) {
    if exists_already {
        (
            Console {
                pending_export: true,
                message: overwrite_question(s.export_dir + "/pwd-export.tar.gz"@),
                ..s
            },
            Command::Stay,
        )
    } else {
        (s, Command::Export)
    }
}

impl App {
    fn devices_press(&mut self, key: Key) -> (r: Command)
        requires
            old(self)@.wf(),
        ensures
            final(self)@.wf(),
            (final(self)@, r) == devices_key(old(self)@, key),
    {
        match key {
            Key::Enter => Command::ToggleDevice,
            Key::Up => {
                self.prev_row();
                Command::Stay
            },
            Key::Down => {
                self.next_row();
                Command::Stay
            },
            Key::Left => {
                self.prev_page();
                Command::Stay
            },
            Key::Right => {
                self.next_page();
                Command::Stay
            },
            Key::Char(c) => {
                if c == ' ' {
                    return Command::ToggleDevice;
                }
                if c == 'd' || c == 'D' {
                    self.arm_delete();
                }
                Command::Stay
            },
            _ => Command::Stay,
        }
    }

    fn users_press(&mut self, key: Key) -> (r: Command)
        requires
            old(self)@.wf(),
        ensures
            final(self)@.wf(),
            (final(self)@, r) == users_key(old(self)@, key),
    {
        match key {
            Key::Enter => Command::ToggleApproval,
            Key::Up => {
                self.prev_user();
                Command::Stay
            },
            Key::Down => {
                self.next_user();
                Command::Stay
            },
            Key::Char(c) => {
                if c == ' ' {
                    Command::ToggleApproval
                } else if c == 'd' || c == 'D' {
                    Command::DeleteUser
                } else if c == 'r' || c == 'R' {
                    Command::RestoreUser
                } else {
                    Command::Stay
                }
            },
            _ => Command::Stay,
        }
    }

    fn turn_to(&mut self, tab: Tab)
        requires
            old(self)@.wf(),
        ensures
            final(self)@.wf(),
            final(self)@ == (Console { tab, message: Seq::empty(), ..old(self)@ }),
    {
        self.tab = tab;
        self.message = String::new();
        assert(self.message@ =~= Seq::<char>::empty());
    }

    fn tab_press(&mut self, key: Key) -> (r: Command)
        requires
            old(self)@.wf(),
        ensures
            final(self)@.wf(),
            (final(self)@, r) == tab_key(old(self)@, key),
    {
        match key {
            Key::Esc => return Command::Quit,
            Key::Tab => {
                let tab = self.tab.after();
                self.turn_to(tab);
                return Command::Stay;
            },
            Key::BackTab => {
                let tab = self.tab.before();
                self.turn_to(tab);
                return Command::Stay;
            },
            _ => {},
        }
        if key == Key::Char('q') {
            return Command::Quit;
        }
        match self.tab {
            Tab::Devices => self.devices_press(key),
            Tab::Users => self.users_press(key),
            Tab::Export => if key == Key::Enter && !self.busy {
                Command::ProbeExport
            } else {
                Command::Stay
            },
            Tab::Import => if key == Key::Enter && !self.busy {
                Command::Import
            } else {
                Command::Stay
            },
        }
    }

    /// Takes a key.
    pub fn press(&mut self, key: Key, control: bool) -> (r: Command)
        requires
            old(self)@.wf(),
        ensures
            final(self)@.wf(),
            (final(self)@, r) == pressed(old(self)@, key, control),
    {
        if control && (key == Key::Char('c') || key == Key::Char('d')) {
            return Command::Quit;
        }
        let yes: bool = key == Key::Char('y') || key == Key::Char('Y');
        if self.backend_down {
            if key == Key::Enter || key == Key::Char('q') || key == Key::Char('Q') || key
                == Key::Esc {
                return Command::Quit;
            }
            return Command::Stay;
        }
        if self.pending_delete.is_some() {
            if yes {
                return Command::DeleteDevice;
            }
            self.pending_delete = None;
            self.message = "Delete cancelled".to_string();
            return Command::Stay;
        }
        if self.pending_export {
            self.pending_export = false;
            if yes {
                return Command::Export;
            }
            self.message = "Export cancelled".to_string();
            return Command::Stay;
        }
        self.tab_press(key)
    }

    /// Goes on with an export once it is known whether there is an archive
    /// already: none is overwritten without asking.
    pub fn probe_export(&mut self, exists_already: bool) -> (r: Command)
        requires
            old(self)@.wf(),
        ensures
            final(self)@.wf(),
            (final(self)@, r) == probed(old(self)@, exists_already),
    {
        if !exists_already {
            return Command::Export;
        }
        let mut message = self.export_path();
        message.push_str(" already exists — overwrite? (y = yes, any other key = cancel)");
        self.message = message;
        self.pending_export = true;
        Command::Stay
    }
}

/// A device is removed only by a key that says yes to the question about it.
pub proof fn law_removal_takes_two_keys(s: Console, key: Key, control: bool)
    ensures
        pressed(s, key, control).1 == Command::DeleteDevice ==> s.pending_delete is Some && is_yes(
            key,
        ),
        s.pending_delete is None && pressed(s, key, control).0.pending_delete is Some ==> pressed(
            s,
            key,
            control,
        ).1 == Command::Stay,
{
}

/// An archive that is there already is overwritten only by a key that says yes
/// to the question about it.
pub proof fn law_overwriting_takes_two_keys(s: Console, key: Key, control: bool)
    ensures
        pressed(s, key, control).1 == Command::Export ==> s.pending_export && is_yes(key),
        probed(s, true).1 == Command::Stay && probed(s, true).0.pending_export,
{
}

/// Control with `c` quits from every state.
pub proof fn law_control_c_always_quits(s: Console)
    ensures
        pressed(s, Key::Char('c'), true).1 == Command::Quit,
        pressed(s, Key::Char('d'), true).1 == Command::Quit,
{
}

} // verus!

//! What the keys of the admin console do, key by key.

use vstd::prelude::*;

use crate::console::keys::{pressed, probed, Command, Key};
use crate::console::{started, Console, Tab};

verus! {

/// Whether keys reach the open tab: the server is up and no question is open.
pub open spec fn listening(s: Console) -> bool {
    !s.backend_down && s.pending_delete is None && !s.pending_export
}

/// On the tab of the accounts each key that the bar names asks for what the bar
/// says: `d` marks, `r` restores, space and enter turn the approval round. These
/// keys change nothing by themselves.
pub proof fn law_account_keys_do_what_the_bar_says(s: Console, key: Key, control: bool)
    requires
        listening(s),
        s.tab == Tab::Users,
    ensures
        key == Key::Char('D') || (key == Key::Char('d') && !control) ==> pressed(s, key, control)
            == (s, Command::DeleteUser),
        key == Key::Char('r') || key == Key::Char('R') ==> pressed(s, key, control) == (
            s,
            Command::RestoreUser,
        ),
        key == Key::Char(' ') || key == Key::Enter ==> pressed(s, key, control) == (
            s,
            Command::ToggleApproval,
        ),
        pressed(s, key, control).1 == Command::DeleteUser ==> key == Key::Char('d') || key
            == Key::Char('D'),
        pressed(s, key, control).1 == Command::RestoreUser ==> key == Key::Char('r') || key
            == Key::Char('R'),
        pressed(s, key, control).1 == Command::ToggleApproval ==> key == Key::Char(' ') || key
            == Key::Enter,
{
}

/// On the tab of the devices space and enter turn the approval of the selected
/// device round, and `d` asks about its removal.
pub proof fn law_device_keys_do_what_the_bar_says(s: Console, key: Key, control: bool)
    requires
        listening(s),
        s.tab == Tab::Devices,
        s.wf(),
    ensures
        key == Key::Char(' ') || key == Key::Enter ==> pressed(s, key, control) == (
            s,
            Command::ToggleDevice,
        ),
        pressed(s, key, control).1 == Command::ToggleDevice ==> key == Key::Char(' ') || key
            == Key::Enter,
        (key == Key::Char('D') || (key == Key::Char('d') && !control)) && s.selected is Some ==> {
            let after = pressed(s, key, control);
            let uuid = s.identities[s.page * 10 + s.selected->0].uuid@;
            &&& after.1 == Command::Stay
            &&& after.0.pending_delete == Some(uuid)
            &&& after.0 == (Console {
                pending_delete: Some(uuid),
                message: after.0.message,
                ..s
            })
            &&& after.0.message == "Delete device "@ + uuid
                + "? (the user's passwords are kept) Press 'y' to confirm"@
        },
        s.selected is None && key is Char ==> pressed(s, key, control).0 == s,
        pressed(s, key, control).0.pending_delete is Some ==> key == Key::Char('d') || key
            == Key::Char('D'),
{
}

/// On the tabs of the archives enter starts the export or the import, unless one
/// is under way, and no other key does.
pub proof fn law_enter_starts_what_the_tab_offers(s: Console, key: Key, control: bool)
    requires
        listening(s),
    ensures
        s.tab == Tab::Export && key == Key::Enter && !s.busy ==> pressed(s, key, control) == (
            s,
            Command::ProbeExport,
        ),
        s.tab == Tab::Import && key == Key::Enter && !s.busy ==> pressed(s, key, control) == (
            s,
            Command::Import,
        ),
        (s.tab == Tab::Export || s.tab == Tab::Import) && s.busy && key == Key::Enter ==> pressed(
            s,
            key,
            control,
        ) == (s, Command::Stay),
        pressed(s, key, control).1 == Command::ProbeExport ==> s.tab == Tab::Export && key
            == Key::Enter && !s.busy,
        pressed(s, key, control).1 == Command::Import ==> s.tab == Tab::Import && key
            == Key::Enter && !s.busy,
{
}

/// Wherever keys reach a tab, `q` and escape quit, tab and its opposite turn to
/// the next tab and the one before and clear the message, and letters that no
/// bar names do nothing.
pub proof fn law_keys_of_every_tab(s: Console, key: Key)
    requires
        listening(s),
    ensures
        key == Key::Char('q') || key == Key::Esc ==> pressed(s, key, false) == (s, Command::Quit),
        pressed(s, key, false).1 == Command::Quit ==> key == Key::Char('q') || key == Key::Esc,
        key == Key::Tab || key == Key::BackTab ==> {
            let after = pressed(s, key, false);
            &&& after.1 == Command::Stay
            &&& after.0 == (Console { tab: after.0.tab, message: Seq::empty(), ..s })
        },
        key == Key::Tab ==> pressed(s, key, false).0.tab == match s.tab {
            Tab::Devices => Tab::Users,
            Tab::Users => Tab::Export,
            Tab::Export => Tab::Import,
            Tab::Import => Tab::Devices,
        },
        key == Key::BackTab ==> pressed(s, key, false).0.tab == match s.tab {
            Tab::Devices => Tab::Import,
            Tab::Users => Tab::Devices,
            Tab::Export => Tab::Users,
            Tab::Import => Tab::Export,
        },
        key != Key::Tab && key != Key::BackTab ==> pressed(s, key, false).0.tab == s.tab,
        key == Key::Other ==> pressed(s, key, false) == (s, Command::Stay),
        key matches Key::Char(c) && c != 'q' && c != 'd' && c != 'D' && c != 'r' && c != 'R' && c
            != ' ' ==> pressed(s, key, false) == (s, Command::Stay),
{
}

/// Up and down move the selection among the accounts by one, and stay at the
/// ends.
pub proof fn law_arrows_move_among_the_accounts(s: Console, i: usize, control: bool)
    requires
        listening(s),
        s.wf(),
        s.tab == Tab::Users,
        s.user_selected == Some(i),
    ensures
        pressed(s, Key::Down, control).1 == Command::Stay,
        pressed(s, Key::Up, control).1 == Command::Stay,
        i + 1 < s.users.len() ==> pressed(s, Key::Down, control).0 == (Console {
            user_selected: Some((i + 1) as usize),
            ..s
        }),
        i + 1 == s.users.len() ==> pressed(s, Key::Down, control).0 == s,
        i > 0 ==> pressed(s, Key::Up, control).0 == (Console {
            user_selected: Some((i - 1) as usize),
            ..s
        }),
        i == 0 ==> pressed(s, Key::Up, control).0 == s,
        pressed(s, Key::Left, control) == (s, Command::Stay),
        pressed(s, Key::Right, control) == (s, Command::Stay),
{
}

/// Up and down move the selection among the devices of the page by one, and stay
/// at its ends, of which the lower one is the tenth device or the last one.
pub proof fn law_arrows_move_among_the_devices(s: Console, i: usize, control: bool)
    requires
        listening(s),
        s.wf(),
        s.tab == Tab::Devices,
        s.selected == Some(i),
    ensures
        pressed(s, Key::Down, control).1 == Command::Stay,
        pressed(s, Key::Up, control).1 == Command::Stay,
        i < 9 && s.page * 10 + i + 1 < s.identities.len() ==> pressed(s, Key::Down, control).0 == (
        Console { selected: Some((i + 1) as usize), ..s }),
        i == 9 || s.page * 10 + i + 1 == s.identities.len() ==> pressed(s, Key::Down, control).0
            == s,
        i > 0 ==> pressed(s, Key::Up, control).0 == (Console {
            selected: Some((i - 1) as usize),
            ..s
        }),
        i == 0 ==> pressed(s, Key::Up, control).0 == s,
{
}

/// Right and left turn the page by one and select its first device, and stay at
/// the ends.
pub proof fn law_arrows_turn_the_page(s: Console, control: bool)
    requires
        listening(s),
        s.tab == Tab::Devices,
    ensures
        s.page + 1 < s.total_pages ==> pressed(s, Key::Right, control) == (
            Console { page: (s.page + 1) as usize, selected: Some(0), ..s },
            Command::Stay,
        ),
        s.page + 1 >= s.total_pages ==> pressed(s, Key::Right, control) == (s, Command::Stay),
        s.page > 0 ==> pressed(s, Key::Left, control) == (
            Console { page: (s.page - 1) as usize, selected: Some(0), ..s },
            Command::Stay,
        ),
        s.page == 0 ==> pressed(s, Key::Left, control) == (s, Command::Stay),
{
}

/// A question about a removal is answered by the next key: `y` removes the
/// device, any other key drops the question.
pub proof fn law_a_removal_is_answered(s: Console, key: Key)
    requires
        !s.backend_down,
        s.pending_delete is Some,
    ensures
        key == Key::Char('y') || key == Key::Char('Y') ==> pressed(s, key, false) == (
            s,
            Command::DeleteDevice,
        ),
        key != Key::Char('y') && key != Key::Char('Y') ==> pressed(s, key, false) == (
            Console { pending_delete: None, message: "Delete cancelled"@, ..s },
            Command::Stay,
        ),
{
}

/// A question about overwriting is answered by the next key: `y` exports, any
/// other key drops the question.
pub proof fn law_an_overwriting_is_answered(s: Console, key: Key)
    requires
        !s.backend_down,
        s.pending_delete is None,
        s.pending_export,
    ensures
        key == Key::Char('y') || key == Key::Char('Y') ==> pressed(s, key, false) == (
            Console { pending_export: false, ..s },
            Command::Export,
        ),
        key != Key::Char('y') && key != Key::Char('Y') ==> pressed(s, key, false) == (
            Console { pending_export: false, message: "Export cancelled"@, ..s },
            Command::Stay,
        ),
{
}

/// Where there is an archive already the console asks before it exports, where
/// there is none it exports.
pub proof fn law_export_asks_before_it_overwrites(s: Console)
    ensures
        probed(s, false) == (s, Command::Export),
        probed(s, true).1 == Command::Stay,
        probed(s, true).0 == (Console {
            pending_export: true,
            message: s.export_dir + "/pwd-export.tar.gz"@
                + " already exists — overwrite? (y = yes, any other key = cancel)"@,
            ..s
        }),
{
}

/// While the server is down enter, `q` and escape quit, and no other key does
/// anything.
pub proof fn law_a_server_that_is_down_leaves_quitting(s: Console, key: Key)
    requires
        s.backend_down,
    ensures
        pressed(s, key, false).0 == s,
        key == Key::Enter || key == Key::Esc || key == Key::Char('q') || key == Key::Char('Q')
            ==> pressed(s, key, false).1 == Command::Quit,
        key != Key::Enter && key != Key::Esc && key != Key::Char('q') && key != Key::Char('Q')
            ==> pressed(s, key, false).1 == Command::Stay,
{
}

/// Control changes what `c` and `d` do, and no other key.
pub proof fn law_control_matters_for_two_keys(s: Console, key: Key)
    requires
        key != Key::Char('c'),
        key != Key::Char('d'),
    ensures
        pressed(s, key, true) == pressed(s, key, false),
{
}

/// The console starts on the tab of the devices, with nothing listed, nothing
/// asked and the archive where exports go.
pub proof fn law_console_starts_empty(base: Seq<char>, admin_key: Seq<char>, dir: Seq<char>)
    ensures
        ({
            let s = started(base, admin_key, dir);
            &&& listening(s)
            &&& s.tab == Tab::Devices
            &&& s.identities.len() == 0 && s.users.len() == 0
            &&& s.selected is None && s.user_selected is None
            &&& s.page == 0 && s.loading && !s.busy
            &&& s.message.len() == 0
            &&& s.base == base && s.admin_key == admin_key && s.export_dir == dir
            &&& s.import_path == dir + "/pwd-export.tar.gz"@
        }),
{
}

} // verus!

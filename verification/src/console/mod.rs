//! The admin console: what it shows, what its keys do, and what it asks of the
//! server.

pub mod flows;
pub mod keys;
pub mod report;
pub mod view;

use vstd::prelude::*;

use crate::outside::opt_text;

verus! {

/// How many devices a page shows.
pub const PAGE_SIZE: usize = 10;

/// A device as the console knows it.
#[derive(Debug)]
pub struct IdentityEntry {
    pub uuid: String,
    pub user_id: Option<String>,
    pub ip_address: String,
    pub confirmed: bool,
    pub device_token: String,
    pub created_at: String,
    pub updated_at: String,
}

/// An account as the console knows it.
#[derive(Debug)]
pub struct UserEntry {
    pub uuid: String,
    pub name: String,
    pub is_deleted: bool,
    pub identity_count: i64,
    pub created_at: String,
    pub updated_at: String,
}

#[derive(Clone, Copy, Debug, PartialEq, Eq, Structural)]
pub enum Tab {
    Devices,
    Users,
    Export,
    Import,
}

/// The tab to the right, the first one behind the last.
pub open spec fn tab_after(tab: Tab) -> Tab {
    match tab {
        Tab::Devices => Tab::Users,
        Tab::Users => Tab::Export,
        Tab::Export => Tab::Import,
        Tab::Import => Tab::Devices,
    }
}

/// The tab to the left, the last one before the first.
pub open spec fn tab_before(tab: Tab) -> Tab {
    match tab {
        Tab::Devices => Tab::Import,
        Tab::Users => Tab::Devices,
        Tab::Export => Tab::Users,
        Tab::Import => Tab::Export,
    }
}

impl Tab {
    /// The tab to the right.
    pub fn after(self) -> (r: Tab)
        ensures
            r == tab_after(self),
    {
        match self {
            Tab::Devices => Tab::Users,
            Tab::Users => Tab::Export,
            Tab::Export => Tab::Import,
            Tab::Import => Tab::Devices,
        }
    }

    /// The tab to the left.
    pub fn before(self) -> (r: Tab)
        ensures
            r == tab_before(self),
    {
        match self {
            Tab::Devices => Tab::Import,
            Tab::Users => Tab::Devices,
            Tab::Export => Tab::Users,
            Tab::Import => Tab::Export,
        }
    }
}

/// Going right and left again leads back, and four steps lead all round.
pub proof fn law_tabs_go_round(tab: Tab)
    ensures
        tab_before(tab_after(tab)) == tab,
        tab_after(tab_before(tab)) == tab,
        tab_after(tab_after(tab_after(tab_after(tab)))) == tab,
{
}

/// The state of the console.
#[derive(Debug)]
pub struct App {
    pub identities: Vec<IdentityEntry>,
    /// The selected device, counted from the start of the page.
    pub selected: Option<usize>,
    pub page: usize,
    pub total_pages: usize,
    pub users: Vec<UserEntry>,
    pub user_selected: Option<usize>,
    pub loading: bool,
    pub message: String,
    pub base: String,
    pub admin_key: String,
    pub tab: Tab,
    /// Where archives are written to and read from.
    pub export_dir: String,
    pub import_path: String,
    pub busy: bool,
    /// The device that the next key removes, if it confirms.
    pub pending_delete: Option<String>,
    /// Whether the next key overwrites the archive, if it confirms.
    pub pending_export: bool,
    /// Whether the server could not be reached.
    pub backend_down: bool,
}

/// The value of an [`App`].
pub struct Console {
    pub identities: Seq<IdentityEntry>,
    pub selected: Option<usize>,
    pub page: usize,
    pub total_pages: usize,
    pub users: Seq<UserEntry>,
    pub user_selected: Option<usize>,
    pub loading: bool,
    pub message: Seq<char>,
    pub base: Seq<char>,
    pub admin_key: Seq<char>,
    pub tab: Tab,
    pub export_dir: Seq<char>,
    pub import_path: Seq<char>,
    pub busy: bool,
    pub pending_delete: Option<Seq<char>>,
    pub pending_export: bool,
    pub backend_down: bool,
}

impl View for App {
    type V = Console;

    open spec fn view(&self) -> Console {
        Console {
            identities: self.identities@,
            selected: self.selected,
            page: self.page,
            total_pages: self.total_pages,
            users: self.users@,
            user_selected: self.user_selected,
            loading: self.loading,
            message: self.message@,
            base: self.base@,
            admin_key: self.admin_key@,
            tab: self.tab,
            export_dir: self.export_dir@,
            import_path: self.import_path@,
            busy: self.busy,
            pending_delete: opt_text(self.pending_delete),
            pending_export: self.pending_export,
            backend_down: self.backend_down,
        }
    }
}

/// How many pages some number of devices fills: one at least.
pub open spec fn pages_for(devices: nat) -> nat {
    if devices == 0 {
        1
    } else {
        ((devices - 1) / (PAGE_SIZE as int) + 1) as nat
    }
}

impl Console {
    /// Whether the page shows something where it is not the first, the selected
    /// device is on the page, and the selected account is in the list.
    pub open spec fn wf(self) -> bool {
        &&& self.page > 0 ==> self.page * PAGE_SIZE < self.identities.len()
        &&& self.total_pages <= pages_for(self.identities.len())
        &&& self.selected matches Some(i) ==> i < PAGE_SIZE && self.page * PAGE_SIZE + i
            < self.identities.len()
        &&& self.user_selected matches Some(i) ==> i < self.users.len()
    }

    /// Where the page starts.
    pub open spec fn start(self) -> int {
        self.page * PAGE_SIZE
    }

    /// The place of the selected device in the list.
    pub open spec fn selected_index(self) -> Option<int> {
        match self.selected {
            Some(i) => Some(self.start() + i),
            None => None,
        }
    }

    /// How many devices are on the page.
    pub open spec fn on_page(self) -> int {
        let left = self.identities.len() - self.start();
        if left < 0 {
            0
        } else if left > PAGE_SIZE {
            PAGE_SIZE as int
        } else {
            left
        }
    }
}

/// The console when it starts.
pub open spec fn started(
    base: Seq<char>,
    admin_key: Seq<char>,
    export_dir: Seq<char>,
) -> Console {
    Console {
        identities: Seq::empty(),
        selected: None,
        page: 0,
        total_pages: 0,
        users: Seq::empty(),
        user_selected: None,
        loading: true,
        message: Seq::empty(),
        base,
        admin_key,
        tab: Tab::Devices,
        export_dir,
        import_path: export_dir + "/pwd-export.tar.gz"@,
        busy: false,
        pending_delete: None,
        pending_export: false,
        backend_down: false,
    }
}

/// The state after a step down among the devices.
pub open spec fn row_down(s: Console) -> Console {
    if s.on_page() == 0 {
        s
    } else {
        let i: int = match s.selected {
            Some(i) => i as int,
            None => 0,
        };
        Console {
            selected: Some(
                if i + 1 < s.on_page() {
                    (i + 1) as usize
                } else {
                    (s.on_page() - 1) as usize
                },
            ),
            ..s
        }
    }
}

/// The state after a step up among the devices.
pub open spec fn row_up(s: Console) -> Console {
    match s.selected {
        Some(i) => if i > 0 {
            Console { selected: Some((i - 1) as usize), ..s }
        } else {
            s
        },
        None => s,
    }
}

/// The state after a step to the next page.
pub open spec fn page_right(s: Console) -> Console {
    if s.page + 1 < s.total_pages {
        Console { page: (s.page + 1) as usize, selected: Some(0), ..s }
    } else {
        s
    }
}

/// The state after a step to the previous page.
pub open spec fn page_left(s: Console) -> Console {
    if s.page > 0 {
        Console { page: (s.page - 1) as usize, selected: Some(0), ..s }
    } else {
        s
    }
}

/// The state after a step down among the accounts.
pub open spec fn user_down(s: Console) -> Console {
    if s.users.len() == 0 {
        s
    } else {
        let i: int = match s.user_selected {
            Some(i) => i as int,
            None => 0,
        };
        Console {
            user_selected: Some(
                if i + 1 < s.users.len() {
                    (i + 1) as usize
                } else {
                    (s.users.len() - 1) as usize
                },
            ),
            ..s
        }
    }
}

/// The state after a step up among the accounts.
pub open spec fn user_up(s: Console) -> Console {
    match s.user_selected {
        Some(i) => if i > 0 {
            Console { user_selected: Some((i - 1) as usize), ..s }
        } else {
            s
        },
        None => s,
    }
}

/// The question that comes before a device is removed.
pub open spec fn delete_question(uuid: Seq<char>) -> Seq<char> {
    "Delete device "@ + uuid + "? (the user's passwords are kept) Press 'y' to confirm"@
}

/// The state after the removal of the selected device was asked for.
pub open spec fn delete_armed(s: Console) -> Console {
    match s.selected_index() {
        Some(i) => Console {
            message: delete_question(s.identities[i].uuid@),
            pending_delete: Some(s.identities[i].uuid@),
            ..s
        },
        None => s,
    }
}

impl App {
    /// Starts the console.
    pub fn new(base: String, admin_key: String, export_dir: String) -> (r: App)
        ensures
            r@ == started(base@, admin_key@, export_dir@),
            r@.wf(),
    {
        let mut import_path = export_dir.clone();
        import_path.push_str("/pwd-export.tar.gz");
        let app = App {
            identities: Vec::new(),
            selected: None,
            page: 0,
            total_pages: 0,
            users: Vec::new(),
            user_selected: None,
            loading: true,
            message: String::new(),
            base,
            admin_key,
            tab: Tab::Devices,
            export_dir,
            import_path,
            busy: false,
            pending_delete: None,
            pending_export: false,
            backend_down: false,
        };
        assert(app.identities@ =~= Seq::<IdentityEntry>::empty());
        assert(app.users@ =~= Seq::<UserEntry>::empty());
        assert(app.message@ =~= Seq::<char>::empty());
        app
    }

    /// Where the archive is written to.
    pub fn export_path(&self) -> (r: String)
        ensures
            r@ == self@.export_dir + "/pwd-export.tar.gz"@,
    {
        let mut path = self.export_dir.clone();
        path.push_str("/pwd-export.tar.gz");
        path
    }

    /// Where the page starts.
    pub fn page_start(&self) -> (r: usize)
        requires
            self@.wf(),
        ensures
            r == self@.start(),
    {
        assert(self@.identities.len() == self.identities.len());
        self.page * PAGE_SIZE
    }

    /// The place of the selected device in the list.
    pub fn selected_global_index(&self) -> (r: Option<usize>)
        requires
            self@.wf(),
        ensures
            match r {
                Some(i) => self@.selected_index() == Some(i as int) && i < self.identities@.len(),
                None => self@.selected_index() is None,
            },
    {
        assert(self@.identities.len() == self.identities.len());
        match self.selected {
            Some(i) => Some(self.page_start() + i),
            None => None,
        }
    }

    /// Asks before the selected device is removed.
    pub fn arm_delete(&mut self)
        requires
            old(self)@.wf(),
        ensures
            final(self)@ == delete_armed(old(self)@),
            final(self)@.wf(),
    {
        let i: usize = match self.selected_global_index() {
            Some(i) => i,
            None => return,
        };
        let uuid = self.identities[i].uuid.clone();
        let mut message = "Delete device ".to_string();
        message.push_str(uuid.as_str());
        message.push_str("? (the user's passwords are kept) Press 'y' to confirm");
        self.message = message;
        self.pending_delete = Some(uuid);
    }

    /// Selects the next account.
    pub fn next_user(&mut self)
        requires
            old(self)@.wf(),
        ensures
            final(self)@ == user_down(old(self)@),
            final(self)@.wf(),
    {
        let len: usize = self.users.len();
        if len == 0 {
            return;
        }
        let i: usize = match self.user_selected {
            Some(i) => i,
            None => 0,
        };
        self.user_selected = Some(
            if i + 1 < len {
                i + 1
            } else {
                len - 1
            },
        );
    }

    /// Selects the previous account.
    pub fn prev_user(&mut self)
        requires
            old(self)@.wf(),
        ensures
            final(self)@ == user_up(old(self)@),
            final(self)@.wf(),
    {
        if let Some(i) = self.user_selected {
            if i > 0 {
                self.user_selected = Some(i - 1);
            }
        }
    }

    /// Turns to the next page.
    pub fn next_page(&mut self)
        requires
            old(self)@.wf(),
        ensures
            final(self)@ == page_right(old(self)@),
            final(self)@.wf(),
    {
        if self.page < self.total_pages && self.page + 1 < self.total_pages {
            self.page = self.page + 1;
            self.selected = Some(0);
        }
    }

    /// Turns to the previous page.
    pub fn prev_page(&mut self)
        requires
            old(self)@.wf(),
        ensures
            final(self)@ == page_left(old(self)@),
            final(self)@.wf(),
    {
        if self.page > 0 {
            self.page = self.page - 1;
            self.selected = Some(0);
        }
    }

    /// Selects the next device of the page.
    pub fn next_row(&mut self)
        requires
            old(self)@.wf(),
        ensures
            final(self)@ == row_down(old(self)@),
            final(self)@.wf(),
    {
        let len: usize = self.identities.len();
        let start: usize = self.page_start();
        let page_count: usize = if start < len {
            if len - start > PAGE_SIZE {
                PAGE_SIZE
            } else {
                len - start
            }
        } else {
            0
        };
        if page_count == 0 {
            return;
        }
        let i: usize = match self.selected {
            Some(i) => i,
            None => 0,
        };
        self.selected = Some(
            if i + 1 < page_count {
                i + 1
            } else {
                page_count - 1
            },
        );
    }

    /// Selects the previous device of the page.
    pub fn prev_row(&mut self)
        requires
            old(self)@.wf(),
        ensures
            final(self)@ == row_up(old(self)@),
            final(self)@.wf(),
    {
        if let Some(i) = self.selected {
            if i > 0 {
                self.selected = Some(i - 1);
            }
        }
    }
}

/// A step to the next page and one back lead to the page that was left.
pub proof fn law_pages_turn_back(s: Console)
    requires
        s.wf(),
        page_right(s) != s,
    ensures
        page_left(page_right(s)) == (Console { selected: Some(0), ..s }),
        page_right(s).wf(),
{
}

} // verus!

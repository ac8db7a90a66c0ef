//! The admin console.

use password_manager_server::client::{after_sign_up, leftovers, SignUpNext};
use password_manager_server::console::flows::{
    Call, ExportOutcome, Listing, Outcome, RawIdentity, RawUser,
};
use password_manager_server::console::keys::{Command, Key};
use password_manager_server::console::report::{
    account_report, device_report, done_report, export_failure_report, export_report,
    import_source, parse_args, request_of, status_report, OneShot,
};
use password_manager_server::console::view::{
    render, truncate, Content, Look, Screen, Shade, Span, Style,
};
use password_manager_server::console::{App, Tab};
use password_manager_server::routes::router::Method;

fn some(text: &str) -> Option<String> {
    Some(text.to_string())
}

fn device(n: usize, user: Option<&str>, confirmed: bool) -> RawIdentity {
    RawIdentity {
        uuid: Some(format!("device-{n}")),
        user_id: user.map(|u| u.to_string()),
        ip_address: Some(format!("10.0.0.{n}")),
        is_confirmed: Some(confirmed),
        device_token: some("token"),
        created_at: some("then"),
        updated_at: some("now"),
    }
}

fn account(name: &str, is_deleted: bool) -> RawUser {
    RawUser {
        uuid: Some(format!("uuid-{name}")),
        name: some(name),
        is_deleted: Some(is_deleted),
        identity_count: Some(2),
        created_at: some("then"),
        updated_at: some("now"),
    }
}

fn console(devices: Vec<RawIdentity>, users: Vec<RawUser>) -> App {
    let mut app = App::new("http://b".to_string(), "key".to_string(), "./exports".to_string());
    app.fetch_all();
    app.fetched_all(Listing::Rows(devices));
    app.fetch_users();
    app.fetched_users(Listing::Rows(users));
    app
}

fn press(app: &mut App, key: Key) -> Command {
    app.press(key, false)
}

fn check_call(call: &Call, method: Method, url: &str) {
    assert_eq!(call.method, method);
    assert_eq!(call.url, url);
    assert_eq!(call.admin_key, "key");
}

fn texts(spans: &[Span]) -> Vec<&str> {
    spans.iter().map(|s| s.text.as_str()).collect()
}

// ─── Fetching ───────────────────────────────────────────────────────────────

#[test]
fn fetching_asks_and_takes() {
    let mut app = App::new("http://b".to_string(), "key".to_string(), "./exports".to_string());
    assert!(app.loading);
    assert_eq!(app.import_path, "./exports/pwd-export.tar.gz");
    check_call(&app.fetch_all(), Method::Get, "http://b/admin/identities");
    app.fetched_all(Listing::Rows((0..23).map(|n| device(n, None, false)).collect()));
    assert!(!app.loading);
    assert_eq!(app.total_pages, 3);
    assert_eq!(app.selected, Some(0));
    check_call(&app.fetch_users(), Method::Get, "http://b/admin/users");
    app.fetched_users(Listing::Rows(vec![account("a", false)]));
    assert_eq!(app.user_selected, Some(0));
}

#[test]
fn absent_fields_have_stand_ins() {
    let raw = RawIdentity {
        uuid: None,
        user_id: None,
        ip_address: None,
        is_confirmed: None,
        device_token: None,
        created_at: None,
        updated_at: None,
    };
    let user = RawUser {
        uuid: None,
        name: None,
        is_deleted: None,
        identity_count: None,
        created_at: None,
        updated_at: None,
    };
    let app = console(vec![raw], vec![user]);
    let e = &app.identities[0];
    assert_eq!(
        (e.uuid.as_str(), e.ip_address.as_str(), e.device_token.as_str(), e.confirmed),
        ("?", "?", "-", false)
    );
    assert_eq!((e.created_at.as_str(), e.updated_at.as_str()), ("?", "?"));
    assert_eq!(e.user_id, None);
    let u = &app.users[0];
    assert_eq!((u.uuid.as_str(), u.name.as_str(), u.identity_count), ("?", "?", 0));
    assert!(!u.is_deleted);
}

#[test]
fn shorter_lists_pull_the_page_back() {
    let mut app = console((0..23).map(|n| device(n, None, false)).collect(), Vec::new());
    press(&mut app, Key::Right);
    press(&mut app, Key::Right);
    press(&mut app, Key::Right);
    assert_eq!(app.page, 2);
    app.fetch_all();
    app.fetched_all(Listing::Rows((0..11).map(|n| device(n, None, false)).collect()));
    assert_eq!((app.page, app.total_pages, app.selected), (1, 2, Some(0)));
    app.fetch_all();
    app.fetched_all(Listing::Rows(Vec::new()));
    assert_eq!((app.page, app.total_pages, app.selected), (0, 1, None));
}

#[test]
fn failed_fetches_are_reported() {
    let mut app = console(vec![device(1, None, false)], vec![account("a", false)]);
    app.fetch_all();
    app.fetched_all(Listing::Refused);
    assert_eq!(app.message, "Failed to fetch identities");
    assert!(!app.backend_down);
    assert_eq!(app.identities.len(), 1);
    app.fetch_users();
    app.fetched_users(Listing::Refused);
    assert_eq!(app.message, "Failed to fetch users");
    app.fetched_users(Listing::Unreachable);
    assert!(app.backend_down);
    app.fetch_all();
    assert!(!app.backend_down);
    app.fetched_all(Listing::Unreachable);
    assert!(app.backend_down);
}

// ─── Keys ───────────────────────────────────────────────────────────────────

#[test]
fn tabs_go_round_both_ways() {
    let mut app = console(Vec::new(), Vec::new());
    let mut seen = Vec::new();
    for _ in 0..4 {
        app.message = "old".to_string();
        assert_eq!(press(&mut app, Key::Tab), Command::Stay);
        assert_eq!(app.message, "");
        seen.push(app.tab);
    }
    assert_eq!(seen, vec![Tab::Users, Tab::Export, Tab::Import, Tab::Devices]);
    press(&mut app, Key::BackTab);
    assert_eq!(app.tab, Tab::Import);
    press(&mut app, Key::Tab);
    assert_eq!(app.tab, Tab::Devices);
}

#[test]
fn arrows_move_the_selection() {
    let mut app = console(
        (0..12).map(|n| device(n, None, false)).collect(),
        vec![account("a", false), account("b", false)],
    );
    press(&mut app, Key::Up);
    assert_eq!(app.selected, Some(0));
    for _ in 0..20 {
        press(&mut app, Key::Down);
    }
    assert_eq!(app.selected, Some(9));
    press(&mut app, Key::Right);
    assert_eq!((app.page, app.selected), (1, Some(0)));
    for _ in 0..20 {
        press(&mut app, Key::Down);
    }
    assert_eq!(app.selected, Some(1));
    assert_eq!(app.selected_global_index(), Some(11));
    press(&mut app, Key::Right);
    assert_eq!(app.page, 1);
    press(&mut app, Key::Left);
    assert_eq!((app.page, app.selected), (0, Some(0)));
    press(&mut app, Key::Tab);
    press(&mut app, Key::Down);
    press(&mut app, Key::Down);
    assert_eq!(app.user_selected, Some(1));
    press(&mut app, Key::Up);
    press(&mut app, Key::Up);
    assert_eq!(app.user_selected, Some(0));
    press(&mut app, Key::Right);
    assert_eq!(app.page, 0);
}

#[test]
fn keys_ask_for_what_their_tab_offers() {
    let mut app = console(vec![device(1, None, false)], vec![account("a", false)]);
    assert_eq!(press(&mut app, Key::Enter), Command::ToggleDevice);
    assert_eq!(press(&mut app, Key::Char(' ')), Command::ToggleDevice);
    assert_eq!(press(&mut app, Key::Char('r')), Command::Stay);
    assert_eq!(press(&mut app, Key::Other), Command::Stay);
    press(&mut app, Key::Tab);
    assert_eq!(press(&mut app, Key::Enter), Command::ToggleApproval);
    assert_eq!(press(&mut app, Key::Char(' ')), Command::ToggleApproval);
    assert_eq!(press(&mut app, Key::Char('D')), Command::DeleteUser);
    assert_eq!(press(&mut app, Key::Char('R')), Command::RestoreUser);
    press(&mut app, Key::Tab);
    assert_eq!(press(&mut app, Key::Enter), Command::ProbeExport);
    assert_eq!(press(&mut app, Key::Char(' ')), Command::Stay);
    press(&mut app, Key::Tab);
    assert_eq!(press(&mut app, Key::Enter), Command::Import);
    app.busy = true;
    assert_eq!(press(&mut app, Key::Enter), Command::Stay);
    assert_eq!(press(&mut app, Key::Esc), Command::Quit);
    assert_eq!(press(&mut app, Key::Char('q')), Command::Quit);
    assert_eq!(press(&mut app, Key::Char('Q')), Command::Stay);
}

#[test]
fn control_c_quits_even_from_a_question() {
    let mut app = console(vec![device(1, None, false)], Vec::new());
    press(&mut app, Key::Char('d'));
    assert!(app.pending_delete.is_some());
    assert_eq!(app.press(Key::Char('c'), true), Command::Quit);
    assert_eq!(app.press(Key::Char('d'), true), Command::Quit);
    assert_eq!(app.press(Key::Char('c'), false), Command::Stay);
    assert_eq!(app.message, "Delete cancelled");
}

#[test]
fn an_unreachable_server_leaves_only_quitting() {
    let mut app = console(vec![device(1, None, false)], Vec::new());
    app.fetched_all(Listing::Unreachable);
    for key in [Key::Tab, Key::Char(' '), Key::Down, Key::Char('d')] {
        assert_eq!(press(&mut app, key), Command::Stay);
    }
    assert_eq!(app.tab, Tab::Devices);
    for key in [Key::Enter, Key::Esc, Key::Char('q'), Key::Char('Q')] {
        assert_eq!(press(&mut app, key), Command::Quit);
    }
}

// ─── Devices ────────────────────────────────────────────────────────────────

#[test]
fn toggling_a_device_turns_its_approval() {
    let mut app = console(vec![device(1, None, false)], Vec::new());
    let step = app.toggle_selected().unwrap();
    check_call(&step.call, Method::Post, "http://b/admin/identities/device-1/confirm");
    app.toggled(step, Outcome::Success);
    assert!(app.identities[0].confirmed);
    assert_eq!(app.message, "confirmed device-1");
    let step = app.toggle_selected().unwrap();
    check_call(&step.call, Method::Post, "http://b/admin/identities/device-1/unconfirm");
    app.toggled(step, Outcome::Status("500 Internal Server Error".to_string()));
    assert!(app.identities[0].confirmed);
    assert_eq!(app.message, "Failed to unconfirm device-1");
    assert!(console(Vec::new(), Vec::new()).toggle_selected().is_none());
}

#[test]
fn removing_a_device_takes_two_keys() {
    let mut app = console(vec![device(1, None, false), device(2, None, false)], Vec::new());
    press(&mut app, Key::Down);
    assert_eq!(press(&mut app, Key::Char('d')), Command::Stay);
    assert_eq!(
        app.message,
        "Delete device device-2? (the user's passwords are kept) Press 'y' to confirm"
    );
    assert_eq!(press(&mut app, Key::Char('n')), Command::Stay);
    assert_eq!(app.message, "Delete cancelled");
    assert!(app.delete_pending().is_none());
    press(&mut app, Key::Char('d'));
    assert_eq!(press(&mut app, Key::Char('Y')), Command::DeleteDevice);
    let step = app.delete_pending().unwrap();
    check_call(&step.call, Method::Delete, "http://b/admin/identities/device-2");
    assert!(app.pending_delete.is_none());
    assert!(app.deleted(step, Outcome::Success));
    assert_eq!(app.message, "Deleted device-2");

    for (outcome, message) in [
        (Outcome::Status("404 Not Found".to_string()), "Failed to delete device-2 (404 Not Found)"),
        (Outcome::Unreachable, "Failed to delete device-2"),
    ] {
        press(&mut app, Key::Char('d'));
        let step = app.delete_pending().unwrap();
        assert!(!app.deleted(step, outcome));
        assert_eq!(app.message, message);
    }
}

// ─── Accounts ───────────────────────────────────────────────────────────────

#[test]
fn accounts_are_marked_and_restored() {
    let mut app = console(Vec::new(), vec![account("a", false)]);
    let step = app.toggle_user_deleted(true).unwrap();
    check_call(&step.call, Method::Post, "http://b/admin/users/uuid-a/delete");
    assert!(app.user_toggled(step, Outcome::Success));
    assert_eq!(app.message, "deleted user uuid-a");
    let step = app.toggle_user_deleted(false).unwrap();
    check_call(&step.call, Method::Post, "http://b/admin/users/uuid-a/restore");
    assert!(!app.user_toggled(step, Outcome::Status("404 Not Found".to_string())));
    assert_eq!(app.message, "Failed to restore user uuid-a (404 Not Found)");
    let step = app.toggle_user_deleted(true).unwrap();
    assert!(!app.user_toggled(step, Outcome::Unreachable));
    assert_eq!(app.message, "Failed to delete user uuid-a");
    assert!(console(Vec::new(), Vec::new()).toggle_user_deleted(true).is_none());
}

#[test]
fn approving_an_account_sets_all_its_devices() {
    let mut app = console(
        vec![
            device(1, Some("uuid-a"), true),
            device(2, Some("uuid-b"), false),
            device(3, Some("uuid-a"), false),
        ],
        vec![account("a", false)],
    );
    assert_eq!(app.user_conf("uuid-a"), (1, 2));
    let mut step = app.toggle_user_approval().unwrap();
    assert!(step.confirm);
    assert_eq!(step.devices, vec!["device-1", "device-3"]);
    check_call(
        &app.approval_call(&step).unwrap(),
        Method::Post,
        "http://b/admin/identities/device-1/confirm",
    );
    app.approved(&mut step, &Outcome::Success);
    check_call(
        &app.approval_call(&step).unwrap(),
        Method::Post,
        "http://b/admin/identities/device-3/confirm",
    );
    app.approved(&mut step, &Outcome::Success);
    assert!(app.approval_call(&step).is_none(), "each device is asked for once");
    assert_eq!(app.user_conf("uuid-a"), (2, 2));
    assert!(!app.identities[1].confirmed);
    app.approval_done(&step);
    assert_eq!(app.message, "approved 2/2 device(s) for uuid-a");

    let mut step = app.toggle_user_approval().unwrap();
    assert!(!step.confirm, "what is all confirmed is withdrawn");
    app.approved(&mut step, &Outcome::Success);
    app.approved(&mut step, &Outcome::Unreachable);
    app.approval_done(&step);
    assert_eq!(app.message, "revoked 1/2 device(s) for uuid-a");
    assert_eq!(app.user_conf("uuid-a"), (1, 2));
}

#[test]
fn accounts_without_devices_cannot_be_approved() {
    let mut app = console(vec![device(1, Some("uuid-b"), false)], vec![account("a", false)]);
    assert!(app.toggle_user_approval().is_none());
    assert_eq!(app.message, "User uuid-a has no devices to approve");
    let mut app = console(Vec::new(), Vec::new());
    assert!(app.toggle_user_approval().is_none());
    assert_eq!(app.message, "");
}

// ─── Archives ───────────────────────────────────────────────────────────────

#[test]
fn exporting_asks_before_it_overwrites() {
    let mut app = console(Vec::new(), Vec::new());
    press(&mut app, Key::Tab);
    press(&mut app, Key::Tab);
    assert_eq!(press(&mut app, Key::Enter), Command::ProbeExport);
    assert_eq!(app.probe_export(true), Command::Stay);
    assert_eq!(
        app.message,
        "./exports/pwd-export.tar.gz already exists — overwrite? (y = yes, any other key = cancel)"
    );
    assert_eq!(press(&mut app, Key::Char('x')), Command::Stay);
    assert_eq!(app.message, "Export cancelled");
    app.probe_export(true);
    assert_eq!(press(&mut app, Key::Char('y')), Command::Export);
    assert_eq!(app.probe_export(false), Command::Export);
    check_call(&app.do_export(), Method::Get, "http://b/admin/export");
    assert!(app.busy);
    app.exported(ExportOutcome::Written(1234));
    assert!(!app.busy);
    assert_eq!(app.message, "Exported 1234 bytes to ./exports/pwd-export.tar.gz");
    app.exported(ExportOutcome::WriteFailed("denied".to_string()));
    assert_eq!(app.message, "Export: write to ./exports/pwd-export.tar.gz failed: denied");
    app.exported(ExportOutcome::Failed);
    assert_eq!(app.message, "Export failed");
}

#[test]
fn importing_reports_how_it_went() {
    let mut app = console((0..23).map(|n| device(n, None, false)).collect(), Vec::new());
    press(&mut app, Key::Right);
    assert_eq!(app.begin_import(), "./exports/pwd-export.tar.gz");
    assert!(app.busy);
    app.import_unreadable("no such file");
    assert_eq!(app.message, "Cannot read ./exports/pwd-export.tar.gz: no such file");
    assert!(!app.busy);
    check_call(&app.import_call(), Method::Post, "http://b/admin/import");
    assert!(!app.imported(Outcome::Status("401 Unauthorized".to_string())));
    assert_eq!(app.message, "Import failed (401 Unauthorized)");
    assert!(!app.imported(Outcome::Unreachable));
    assert_eq!(app.message, "Import failed");
    assert!(app.imported(Outcome::Success));
    app.import_done();
    assert_eq!(app.page, 0);
    assert_eq!(app.message, "Import successful — data reloaded");
}

// ─── The screen ─────────────────────────────────────────────────────────────

#[test]
fn the_screen_shows_the_devices() {
    let mut long = device(2, None, true);
    long.device_token = Some("x".repeat(64));
    let mut app = console(vec![device(1, None, false), long], Vec::new());
    press(&mut app, Key::Down);
    match render(&app) {
        Screen::Panel { tab_bar, key_bar, content, footer } => {
            assert_eq!(
                texts(&tab_bar),
                [" ", " Devices ", "  ", " Users ", "  ", " Export ", "  ", " Import "]
            );
            assert_eq!(tab_bar[1].look, Look::OpenTab);
            assert_eq!(tab_bar[3].look, Look::OtherTab);
            assert_eq!(key_bar.len(), 12);
            assert_eq!(texts(&key_bar)[..4], [" ↑/↓ ", " select   ", " ←/→ ", " page   "]);
            assert_eq!(footer, "Page 1/1  |  2 identities  |  ");
            match content {
                Content::Devices(table) => {
                    let columns: Vec<(&str, u16)> =
                        table.columns.iter().map(|c| (c.title.as_str(), c.width)).collect();
                    assert_eq!(columns.len(), 7);
                    assert_eq!(columns[0], ("", 4));
                    assert_eq!(columns[3], ("Device Token", 49));
                    assert_eq!(table.selected, Some(1));
                    let rows = table.rows;
                    assert_eq!(rows.len(), 2);
                    assert_eq!(rows[0].look, Look::Plain);
                    assert_eq!(rows[1].look, Look::Selected);
                    assert_eq!(
                        texts(&rows[0].cells),
                        ["  ", "then", "now", "token", "device-1", "10.0.0.1", "No"]
                    );
                    let cut = format!("{}...", "x".repeat(45));
                    assert_eq!(texts(&rows[1].cells)[0], "✓");
                    assert_eq!(texts(&rows[1].cells)[3], cut);
                    assert_eq!(texts(&rows[1].cells)[6], "Yes");
                }
                other => panic!("there are devices, not {other:?}"),
            }
        }
        other => panic!("the server is up, not {other:?}"),
    }
}

#[test]
fn the_screen_shows_the_accounts() {
    let mut app = console(
        vec![
            device(1, Some("uuid-a"), true),
            device(2, Some("uuid-a"), false),
            device(3, Some("uuid-b"), true),
            device(4, Some("uuid-c"), false),
        ],
        vec![account("a", false), account("b", true), account("c", true), account("d", false)],
    );
    press(&mut app, Key::Tab);
    press(&mut app, Key::Down);
    match render(&app) {
        Screen::Panel { content: Content::Users(table), footer, .. } => {
            let columns: Vec<(&str, u16)> =
                table.columns.iter().map(|c| (c.title.as_str(), c.width)).collect();
            assert_eq!(columns[..3], [("Name", 24), ("UUID", 38), ("Devices", 9)]);
            assert_eq!(table.selected, Some(1));
            let rows = table.rows;
            assert_eq!(footer, "4 users  |  ");
            assert_eq!(
                texts(&rows[0].cells),
                ["a", "uuid-a", "2", "1/2", "No", "then", "now"]
            );
            let looks: Vec<Look> = rows.iter().map(|r| r.cells[3].look).collect();
            assert_eq!(
                looks,
                vec![
                    Look::SomeConfirmed,
                    Look::AllConfirmed,
                    Look::NoneConfirmed,
                    Look::NoDevices
                ]
            );
            let conf: Vec<&str> = rows.iter().map(|r| r.cells[3].text.as_str()).collect();
            assert_eq!(conf, vec!["1/2", "Yes", "No", "—"]);
            let looks: Vec<Look> = rows.iter().map(|r| r.look).collect();
            assert_eq!(
                looks,
                vec![Look::Plain, Look::SelectedDeleted, Look::Deleted, Look::Plain]
            );
        }
        other => panic!("there are accounts, not {other:?}"),
    }
    assert_eq!(
        Look::SelectedDeleted.style(),
        Style { fg: Some(Shade::Red), bg: Some(Shade::DarkGray), bold: true }
    );
}

#[test]
fn the_screen_shows_questions_and_notices() {
    let mut app = console(Vec::new(), Vec::new());
    match render(&app) {
        Screen::Panel { content: Content::Notice(text), .. } => {
            assert_eq!(text, " No identities found");
        }
        other => panic!("there is a notice, not {other:?}"),
    }
    press(&mut app, Key::Tab);
    match render(&app) {
        Screen::Panel { content: Content::Notice(text), .. } => {
            assert_eq!(text, " No users found");
        }
        other => panic!("there is a notice, not {other:?}"),
    }
    press(&mut app, Key::Tab);
    app.probe_export(true);
    match render(&app) {
        Screen::Panel { key_bar, content: Content::Lines(lines), footer, .. } => {
            assert_eq!(
                texts(&key_bar),
                [" y ", " confirm overwrite   ", " any other key ", " cancel   "]
            );
            assert_eq!(key_bar[0].look, Look::DangerKey);
            assert_eq!(lines.len(), 11);
            assert_eq!(lines[6], " Writes to: ./exports/pwd-export.tar.gz");
            assert_eq!(lines[10], app.message);
            assert_eq!(footer, "");
        }
        other => panic!("there are lines, not {other:?}"),
    }
    press(&mut app, Key::Char('n'));
    press(&mut app, Key::Tab);
    app.begin_import();
    match render(&app) {
        Screen::Panel { content: Content::Lines(lines), .. } => {
            assert_eq!(lines[6], " Host dir mounts to: ./exports");
            assert_eq!(lines[8], " Path: ./exports/pwd-export.tar.gz");
            assert_eq!(lines[10], " Importing...");
        }
        other => panic!("there are lines, not {other:?}"),
    }
    app.fetched_users(Listing::Unreachable);
    match render(&app) {
        Screen::BackendDown(lines) => {
            assert_eq!(lines.len(), 8);
            assert_eq!(lines[1].look, Look::Warning);
            assert_eq!(lines[3].text, "  Could not reach http://b");
        }
        other => panic!("the server is down, not {other:?}"),
    }
}

#[test]
fn texts_are_cut_to_bytes() {
    assert_eq!(truncate("abcdef", 6), "abcdef");
    assert_eq!(truncate("abcdefg", 6), "abcdef...");
    assert_eq!(truncate("ééé", 6), "ééé");
    assert_eq!(truncate("éééé", 6), "ééé...");
    assert_eq!(truncate("€€", 3), "€...");
    assert_eq!(truncate("", 0), "");
}

// ─── One command, one report ────────────────────────────────────────────────

fn task(args: &[&str]) -> OneShot {
    parse_args(&args.iter().map(|a| a.to_string()).collect())
}

fn request(args: &[&str]) -> (Method, String) {
    request_of(&task(args)).unwrap()
}

#[test]
fn commands_are_read() {
    assert!(matches!(task(&[]), OneShot::Interactive));
    assert_eq!(request(&["list"]), (Method::Get, "/admin/identities".to_string()));
    assert_eq!(
        request(&["confirm", "u"]),
        (Method::Post, "/admin/identities/u/confirm".to_string())
    );
    assert_eq!(
        request(&["unconfirm", "u"]),
        (Method::Post, "/admin/identities/u/unconfirm".to_string())
    );
    assert_eq!(request(&["delete", "u"]), (Method::Delete, "/admin/identities/u".to_string()));
    assert_eq!(request(&["users"]), (Method::Get, "/admin/users".to_string()));
    assert_eq!(
        request(&["user-delete", "u"]),
        (Method::Post, "/admin/users/u/delete".to_string())
    );
    assert_eq!(
        request(&["user-restore", "u"]),
        (Method::Post, "/admin/users/u/restore".to_string())
    );
    assert_eq!(request(&["export"]), (Method::Get, "/admin/export".to_string()));
    assert_eq!(request(&["import"]), (Method::Post, "/admin/import".to_string()));
    for args in [vec!["confirm"], vec!["delete"], vec!["user-delete"]] {
        match task(&args) {
            OneShot::Incomplete(usage) => assert!(usage.starts_with("Usage: admin_cli ")),
            other => panic!("an argument is missing, not {other:?}"),
        }
    }
    assert!(matches!(task(&["purge"]), OneShot::Unknown(_)));
    assert!(request_of(&task(&["purge"])).is_none());
}

#[test]
fn reports_are_written() {
    assert_eq!(status_report(200), "Status: 200");
    assert_eq!(done_report(&task(&["confirm", "u"])), "confirmed u");
    assert_eq!(done_report(&task(&["unconfirm", "u"])), "unconfirmed u");
    assert_eq!(done_report(&task(&["delete", "u"])), "deleted u");
    assert_eq!(done_report(&task(&["user-delete", "u"])), "deleted user u");
    assert_eq!(done_report(&task(&["user-restore", "u"])), "restored user u");
    assert_eq!(done_report(&task(&["import"])), "Import successful");
    assert_eq!(export_report(9, "p"), "Exported 9 bytes to p");
    assert_eq!(export_failure_report(401), "Export failed: 401");
    assert_eq!(import_source(&None, "dir"), "dir/pwd-export.tar.gz");
    assert_eq!(import_source(&some("file"), "dir"), "file");
    assert_eq!(
        device_report(device(7, None, true)),
        vec![
            "  [✓] device-7",
            "         user:    -",
            "         ip:      10.0.0.7",
            "         device:  token",
            "         created: then",
            "         updated: now",
        ]
    );
    assert_eq!(
        account_report(account("zed", false)),
        "  [active ] zed  uuid-zed  devices:2  created:then"
    );
    assert_eq!(
        account_report(account("zed", true)),
        "  [deleted] zed  uuid-zed  devices:2  created:then"
    );
}

#[test]
fn the_smoke_test_decides() {
    assert_eq!(after_sign_up(200), SignUpNext::Enrolled);
    assert_eq!(after_sign_up(409), SignUpNext::SignIn);
    assert_eq!(after_sign_up(500), SignUpNext::Failed);
    let devices =
        vec![device(1, Some("a"), true), device(2, Some("b"), true), device(3, Some("a"), false)];
    assert_eq!(leftovers(&devices, "a"), vec!["device-1", "device-3"]);
    assert_eq!(leftovers(&devices, "c"), Vec::<String>::new());
}

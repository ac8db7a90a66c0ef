//! What the console shows.

use vstd::prelude::*;

use crate::console::flows::confirmed_of;
use crate::console::{App, Console, IdentityEntry, Tab, UserEntry, PAGE_SIZE};
use crate::text::{chars_of, decimal, decimal_text, signed_decimal, signed_text, text_between};

verus! {

#[derive(Clone, Copy, Debug, PartialEq, Eq, Structural)]
pub enum Shade {
    Black,
    Cyan,
    Gray,
    DarkGray,
    White,
    Red,
    Green,
    Yellow,
}

/// How a piece of text is coloured. What is absent is left to the terminal.
#[derive(Clone, Copy, Debug, PartialEq, Eq, Structural)]
pub struct Style {
    pub fg: Option<Shade>,
    pub bg: Option<Shade>,
    pub bold: bool,
}

/// What a piece of text is there for, which decides how it looks.
#[derive(Clone, Copy, Debug, PartialEq, Eq, Structural)]
pub enum Look {
    Plain,
    OpenTab,
    OtherTab,
    Key,
    DangerKey,
    Hint,
    Selected,
    Deleted,
    SelectedDeleted,
    NoDevices,
    AllConfirmed,
    NoneConfirmed,
    SomeConfirmed,
    Warning,
    Advice,
}

/// The colours of a look.
pub open spec fn look_style(look: Look) -> Style {
    match look {
        Look::Plain => Style { fg: None, bg: None, bold: false },
        Look::OpenTab => Style { fg: Some(Shade::Black), bg: Some(Shade::Cyan), bold: false },
        Look::OtherTab => Style { fg: Some(Shade::Cyan), bg: None, bold: false },
        Look::Key => Style { fg: Some(Shade::Black), bg: Some(Shade::Cyan), bold: true },
        Look::DangerKey => Style { fg: Some(Shade::Black), bg: Some(Shade::Red), bold: true },
        Look::Hint => Style { fg: Some(Shade::Gray), bg: None, bold: false },
        Look::Selected => Style { fg: Some(Shade::White), bg: Some(Shade::DarkGray), bold: true },
        Look::Deleted => Style { fg: Some(Shade::Red), bg: None, bold: false },
        Look::SelectedDeleted => Style {
            fg: Some(Shade::Red),
            bg: Some(Shade::DarkGray),
            bold: true,
        },
        Look::NoDevices => Style { fg: Some(Shade::DarkGray), bg: None, bold: true },
        Look::AllConfirmed => Style { fg: Some(Shade::Green), bg: None, bold: true },
        Look::NoneConfirmed => Style { fg: Some(Shade::Red), bg: None, bold: true },
        Look::SomeConfirmed => Style { fg: Some(Shade::Yellow), bg: None, bold: true },
        Look::Warning => Style { fg: Some(Shade::Red), bg: None, bold: true },
        Look::Advice => Style { fg: Some(Shade::Yellow), bg: None, bold: true },
    }
}

impl Look {
    /// The colours of the look.
    pub fn style(self) -> (r: Style)
        ensures
            r == look_style(self),
    {
        match self {
            Look::Plain => Style { fg: None, bg: None, bold: false },
            Look::OpenTab => Style { fg: Some(Shade::Black), bg: Some(Shade::Cyan), bold: false },
            Look::OtherTab => Style { fg: Some(Shade::Cyan), bg: None, bold: false },
            Look::Key => Style { fg: Some(Shade::Black), bg: Some(Shade::Cyan), bold: true },
            Look::DangerKey => Style { fg: Some(Shade::Black), bg: Some(Shade::Red), bold: true },
            Look::Hint => Style { fg: Some(Shade::Gray), bg: None, bold: false },
            Look::Selected => Style {
                fg: Some(Shade::White),
                bg: Some(Shade::DarkGray),
                bold: true,
            },
            Look::Deleted => Style { fg: Some(Shade::Red), bg: None, bold: false },
            Look::SelectedDeleted => Style {
                fg: Some(Shade::Red),
                bg: Some(Shade::DarkGray),
                bold: true,
            },
            Look::NoDevices => Style { fg: Some(Shade::DarkGray), bg: None, bold: true },
            Look::AllConfirmed => Style { fg: Some(Shade::Green), bg: None, bold: true },
            Look::NoneConfirmed => Style { fg: Some(Shade::Red), bg: None, bold: true },
            Look::SomeConfirmed => Style { fg: Some(Shade::Yellow), bg: None, bold: true },
            Look::Warning => Style { fg: Some(Shade::Red), bg: None, bold: true },
            Look::Advice => Style { fg: Some(Shade::Yellow), bg: None, bold: true },
        }
    }
}

/// A piece of text in one look.
#[derive(Debug)]
pub struct Span {
    pub text: String,
    pub look: Look,
}

/// The value of a [`Span`].
pub struct SpanValue {
    pub text: Seq<char>,
    pub look: Look,
}

impl View for Span {
    type V = SpanValue;

    open spec fn view(&self) -> SpanValue {
        SpanValue { text: self.text@, look: self.look }
    }
}

/// The values of pieces of text.
pub open spec fn spans(v: Seq<Span>) -> Seq<SpanValue> {
    v.map_values(|s: Span| s@)
}

fn span(text: String, look: Look) -> (r: Span)
    ensures
        r@ == (SpanValue { text: text@, look }),
{
    Span { text, look }
}

fn padded(left: &str, text: &str, right: &str) -> (r: String)
    ensures
        r@ == left@ + text@ + right@,
{
    let mut s = left.to_string();
    s.push_str(text);
    s.push_str(right);
    s
}

// ---------------------------------------------------------------------------
// The two bars
// ---------------------------------------------------------------------------

/// A tab in the bar.
pub open spec fn tab_label(label: Seq<char>, open_tab: bool) -> SpanValue {
    SpanValue {
        text: " "@ + label + " "@,
        look: if open_tab {
            Look::OpenTab
        } else {
            Look::OtherTab
        },
    }
}

/// A gap in the bar.
pub open spec fn gap(text: Seq<char>) -> SpanValue {
    SpanValue { text, look: Look::Plain }
}

/// The bar of the tabs.
pub open spec fn tab_bar(tab: Tab) -> Seq<SpanValue> {
    seq![
        gap(" "@),
        tab_label("Devices"@, tab == Tab::Devices),
        gap("  "@),
        tab_label("Users"@, tab == Tab::Users),
        gap("  "@),
        tab_label("Export"@, tab == Tab::Export),
        gap("  "@),
        tab_label("Import"@, tab == Tab::Import),
    ]
}

fn label(text: &str, open_tab: bool) -> (r: Span)
    ensures
        r@ == tab_label(text@, open_tab),
{
    span(
        padded(" ", text, " "),
        if open_tab {
            Look::OpenTab
        } else {
            Look::OtherTab
        },
    )
}

/// Makes the bar of the tabs.
pub fn render_tab_bar(app: &App) -> (r: Vec<Span>)
    ensures
        spans(r@) == tab_bar(app@.tab),
{
    let mut v: Vec<Span> = Vec::new();
    v.push(span(" ".to_string(), Look::Plain));
    v.push(label("Devices", app.tab == Tab::Devices));
    v.push(span("  ".to_string(), Look::Plain));
    v.push(label("Users", app.tab == Tab::Users));
    v.push(span("  ".to_string(), Look::Plain));
    v.push(label("Export", app.tab == Tab::Export));
    v.push(span("  ".to_string(), Look::Plain));
    v.push(label("Import", app.tab == Tab::Import));
    assert(spans(v@) =~= tab_bar(app@.tab));
    v
}

/// The keys of a tab and what they do.
pub open spec fn key_hints(tab: Tab) -> Seq<(Seq<char>, Seq<char>)> {
    match tab {
        Tab::Devices => seq![
            ("↑/↓"@, "select"@),
            ("←/→"@, "page"@),
            ("Space/Enter"@, "confirm/unconfirm"@),
            ("d"@, "delete device"@),
            ("Tab"@, "next tab"@),
            ("q"@, "quit"@),
        ],
        Tab::Users => seq![
            ("↑/↓"@, "select"@),
            ("Space/Enter"@, "approve/revoke devices"@),
            ("d"@, "soft-delete"@),
            ("r"@, "restore"@),
            ("Tab"@, "next tab"@),
            ("q"@, "quit"@),
        ],
        Tab::Export => seq![("Enter"@, "export"@), ("Tab"@, "next tab"@), ("q"@, "quit"@)],
        Tab::Import => seq![("Enter"@, "import"@), ("Tab"@, "next tab"@), ("q"@, "quit"@)],
    }
}

/// A key in the bar.
pub open spec fn key_span(key: Seq<char>) -> SpanValue {
    SpanValue { text: " "@ + key + " "@, look: Look::Key }
}

/// What a key does, in the bar.
pub open spec fn hint_span(hint: Seq<char>) -> SpanValue {
    SpanValue { text: " "@ + hint + "   "@, look: Look::Hint }
}

/// Keys and what they do, in the bar.
pub open spec fn hint_spans(hints: Seq<(Seq<char>, Seq<char>)>) -> Seq<SpanValue> {
    Seq::new(
        2 * hints.len(),
        |i: int|
            if i % 2 == 0 {
                key_span(hints[i / 2].0)
            } else {
                hint_span(hints[i / 2].1)
            },
    )
}

/// The bar of the keys. While a question is open it shows how to answer.
pub open spec fn key_bar(s: Console) -> Seq<SpanValue> {
    if s.pending_delete is Some || s.pending_export {
        seq![
            SpanValue { text: " y "@, look: Look::DangerKey },
            hint_span(
                if s.pending_export {
                    "confirm overwrite"@
                } else {
                    "confirm delete"@
                },
            ),
            key_span("any other key"@),
            hint_span("cancel"@),
        ]
    } else {
        hint_spans(key_hints(s.tab))
    }
}

fn push_hint(v: &mut Vec<Span>, key: &str, hint: &str)
    ensures
        spans(final(v)@) == spans(old(v)@).push(key_span(key@)).push(hint_span(hint@)),
{
    v.push(span(padded(" ", key, " "), Look::Key));
    v.push(span(padded(" ", hint, "   "), Look::Hint));
    assert(spans(v@) =~= spans(old(v)@).push(key_span(key@)).push(hint_span(hint@)));
}

/// Makes the bar of the keys.
pub fn render_key_bar(app: &App) -> (r: Vec<Span>)
    ensures
        spans(r@) == key_bar(app@),
{
    let mut v: Vec<Span> = Vec::new();
    if app.pending_delete.is_some() || app.pending_export {
        let question = if app.pending_export {
            "confirm overwrite"
        } else {
            "confirm delete"
        };
        v.push(span(" y ".to_string(), Look::DangerKey));
        v.push(span(padded(" ", question, "   "), Look::Hint));
        push_hint(&mut v, "any other key", "cancel");
        assert(spans(v@) =~= key_bar(app@));
        return v;
    }
    match app.tab {
        Tab::Devices => {
            push_hint(&mut v, "↑/↓", "select");
            push_hint(&mut v, "←/→", "page");
            push_hint(&mut v, "Space/Enter", "confirm/unconfirm");
            push_hint(&mut v, "d", "delete device");
        },
        Tab::Users => {
            push_hint(&mut v, "↑/↓", "select");
            push_hint(&mut v, "Space/Enter", "approve/revoke devices");
            push_hint(&mut v, "d", "soft-delete");
            push_hint(&mut v, "r", "restore");
        },
        Tab::Export => {
            push_hint(&mut v, "Enter", "export");
        },
        Tab::Import => {
            push_hint(&mut v, "Enter", "import");
        },
    }
    push_hint(&mut v, "Tab", "next tab");
    push_hint(&mut v, "q", "quit");
    assert(spans(v@) =~= hint_spans(key_hints(app@.tab)));
    v
}

// ---------------------------------------------------------------------------
// Tables
// ---------------------------------------------------------------------------

/// How many bytes a character takes in UTF-8.
pub open spec fn width(c: char) -> nat {
    if (c as u32) < 0x80 {
        1
    } else if (c as u32) < 0x800 {
        2
    } else if (c as u32) < 0x10000 {
        3
    } else {
        4
    }
}

/// How many leading characters of a text fit into some bytes.
pub open spec fn fitting(s: Seq<char>, bytes: nat) -> nat
    decreases s.len(),
{
    if s.len() == 0 || width(s[0]) > bytes {
        0
    } else {
        1 + fitting(s.skip(1), (bytes - width(s[0])) as nat)
    }
}

/// A text cut to some bytes, with dots where something was cut off.
pub open spec fn truncated(s: Seq<char>, bytes: nat) -> Seq<char> {
    if fitting(s, bytes) < s.len() {
        s.take(fitting(s, bytes) as int) + "..."@
    } else {
        s
    }
}

/// A cut text is no longer than the text by more than the dots.
proof fn lemma_fitting_bound(s: Seq<char>, bytes: nat)
    ensures
        fitting(s, bytes) <= s.len(),
    decreases s.len(),
{
    if s.len() > 0 && width(s[0]) <= bytes {
        lemma_fitting_bound(s.skip(1), (bytes - width(s[0])) as nat);
    }
}

/// Cuts a text to some bytes.
pub fn truncate(text: &str, bytes: usize) -> (r: String)
    ensures
        r@ == truncated(text@, bytes as nat),
{
    let chars = chars_of(text);
    let mut left: usize = bytes;
    let mut i: usize = 0;
    assert(text@.skip(0) =~= text@);
    while i < chars.len()
        invariant
            i <= chars@.len(),
            chars@ == text@,
            fitting(text@, bytes as nat) == i + fitting(text@.skip(i as int), left as nat),
        decreases chars@.len() - i,
    {
        let code: u32 = chars[i] as u32;
        let w: usize = if code < 0x80 {
            1
        } else if code < 0x800 {
            2
        } else if code < 0x10000 {
            3
        } else {
            4
        };
        assert(text@.skip(i as int)[0] == chars@[i as int]);
        assert(w == width(chars@[i as int]));
        if w > left {
            let mut cut = text_between(&chars, 0, i);
            assert(cut@ =~= text@.take(i as int));
            cut.push_str("...");
            return cut;
        }
        assert(text@.skip(i as int).skip(1) =~= text@.skip(i + 1));
        left = left - w;
        i += 1;
    }
    proof {
        assert(text@.skip(i as int).len() == 0);
        lemma_fitting_bound(text@, bytes as nat);
    }
    text.to_string()
}

/// A row of a table.
#[derive(Debug)]
pub struct TableRow {
    pub cells: Vec<Span>,
    pub look: Look,
}

/// A column of a table: its title, and its width in characters.
#[derive(Debug)]
pub struct Column {
    pub title: String,
    pub width: u16,
}

/// A table, with the place of its selected row.
#[derive(Debug)]
pub struct Table {
    pub columns: Vec<Column>,
    pub rows: Vec<TableRow>,
    pub selected: Option<usize>,
}

/// The values of columns.
pub open spec fn columns(v: Seq<Column>) -> Seq<(Seq<char>, u16)> {
    v.map_values(|c: Column| (c.title@, c.width))
}

fn push_column(v: &mut Vec<Column>, title: &str, width: u16)
    ensures
        columns(final(v)@) == columns(old(v)@).push((title@, width)),
{
    v.push(Column { title: title.to_string(), width });
    assert(columns(v@) =~= columns(old(v)@).push((title@, width)));
}

/// The columns of the devices.
pub open spec fn device_columns() -> Seq<(Seq<char>, u16)> {
    seq![
        (""@, 4),
        ("Created"@, 16),
        ("Updated"@, 16),
        ("Device Token"@, 49),
        ("UUID"@, 19),
        ("IP"@, 19),
        ("Conf"@, 10),
    ]
}

fn make_device_columns() -> (r: Vec<Column>)
    ensures
        columns(r@) == device_columns(),
{
    let mut v: Vec<Column> = Vec::new();
    push_column(&mut v, "", 4);
    push_column(&mut v, "Created", 16);
    push_column(&mut v, "Updated", 16);
    push_column(&mut v, "Device Token", 49);
    push_column(&mut v, "UUID", 19);
    push_column(&mut v, "IP", 19);
    push_column(&mut v, "Conf", 10);
    assert(columns(v@) =~= device_columns());
    v
}

/// The columns of the accounts.
pub open spec fn account_columns() -> Seq<(Seq<char>, u16)> {
    seq![
        ("Name"@, 24),
        ("UUID"@, 38),
        ("Devices"@, 9),
        ("Conf"@, 8),
        ("Deleted"@, 9),
        ("Created"@, 21),
        ("Updated"@, 21),
    ]
}

fn make_account_columns() -> (r: Vec<Column>)
    ensures
        columns(r@) == account_columns(),
{
    let mut v: Vec<Column> = Vec::new();
    push_column(&mut v, "Name", 24);
    push_column(&mut v, "UUID", 38);
    push_column(&mut v, "Devices", 9);
    push_column(&mut v, "Conf", 8);
    push_column(&mut v, "Deleted", 9);
    push_column(&mut v, "Created", 21);
    push_column(&mut v, "Updated", 21);
    assert(columns(v@) =~= account_columns());
    v
}

/// A cell without a look of its own.
pub open spec fn cell(text: Seq<char>) -> SpanValue {
    SpanValue { text, look: Look::Plain }
}

/// How yes and no are written.
pub open spec fn yes_no(yes: bool) -> Seq<char> {
    if yes {
        "Yes"@
    } else {
        "No"@
    }
}

fn yes_no_text(yes: bool) -> (r: String)
    ensures
        r@ == yes_no(yes),
{
    if yes {
        "Yes".to_string()
    } else {
        "No".to_string()
    }
}

/// The cells of a device: a mark, its times, its token cut short, its
/// identifier, its address and whether it is confirmed.
pub open spec fn device_cells(e: IdentityEntry) -> Seq<SpanValue> {
    seq![
        cell(
            if e.confirmed {
                "✓"@
            } else {
                "  "@
            },
        ),
        cell(e.created_at@),
        cell(e.updated_at@),
        cell(truncated(e.device_token@, 45)),
        cell(e.uuid@),
        cell(e.ip_address@),
        cell(yes_no(e.confirmed)),
    ]
}

/// Whether a row shows a device.
pub open spec fn device_row(row: TableRow, e: IdentityEntry, is_selected: bool) -> bool {
    &&& spans(row.cells@) == device_cells(e)
    &&& row.look == if is_selected {
        Look::Selected
    } else {
        Look::Plain
    }
}

fn make_device_row(e: &IdentityEntry, is_selected: bool) -> (r: TableRow)
    ensures
        device_row(r, *e, is_selected),
{
    let mut cells: Vec<Span> = Vec::new();
    cells.push(
        span(
            if e.confirmed {
                "✓".to_string()
            } else {
                "  ".to_string()
            },
            Look::Plain,
        ),
    );
    cells.push(span(e.created_at.clone(), Look::Plain));
    cells.push(span(e.updated_at.clone(), Look::Plain));
    cells.push(span(truncate(e.device_token.as_str(), 45), Look::Plain));
    cells.push(span(e.uuid.clone(), Look::Plain));
    cells.push(span(e.ip_address.clone(), Look::Plain));
    cells.push(span(yes_no_text(e.confirmed), Look::Plain));
    assert(spans(cells@) =~= device_cells(*e));
    TableRow {
        cells,
        look: if is_selected {
            Look::Selected
        } else {
            Look::Plain
        },
    }
}

/// The place of the highlighted device on the page.
pub open spec fn highlighted(s: Console) -> int {
    match s.selected {
        Some(i) => i as int,
        None => 0,
    }
}

/// Makes the rows of the devices on the page. There are none where the page is
/// empty.
pub fn render_devices(app: &App) -> (r: Vec<TableRow>)
    requires
        app@.wf(),
    ensures
        r@.len() == app@.on_page(),
        forall|i: int|
            0 <= i < r@.len() ==> device_row(
                #[trigger] r@[i],
                app@.identities[app@.start() + i],
                i == highlighted(app@),
            ),
{
    let len: usize = app.identities.len();
    let start: usize = app.page_start();
    let selected: usize = match app.selected {
        Some(i) => i,
        None => 0,
    };
    let mut rows: Vec<TableRow> = Vec::new();
    if start >= len {
        return rows;
    }
    let end: usize = if len - start > PAGE_SIZE {
        start + PAGE_SIZE
    } else {
        len
    };
    let mut i: usize = start;
    while i < end
        invariant
            start <= i <= end <= app.identities@.len(),
            start == app@.start(),
            selected == highlighted(app@),
            rows@.len() == i - start,
            forall|k: int|
                0 <= k < rows@.len() ==> device_row(
                    #[trigger] rows@[k],
                    app@.identities[app@.start() + k],
                    k == highlighted(app@),
                ),
        decreases end - i,
    {
        rows.push(make_device_row(&app.identities[i], i - start == selected));
        i += 1;
    }
    rows
}

/// How the approval of an account's devices is written: none, all, some.
pub open spec fn approval_span(confirmed: nat, total: nat) -> SpanValue {
    if total == 0 {
        SpanValue { text: "—"@, look: Look::NoDevices }
    } else if confirmed == total {
        SpanValue { text: "Yes"@, look: Look::AllConfirmed }
    } else if confirmed == 0 {
        SpanValue { text: "No"@, look: Look::NoneConfirmed }
    } else {
        SpanValue {
            text: decimal_text(confirmed) + "/"@ + decimal_text(total),
            look: Look::SomeConfirmed,
        }
    }
}

fn make_approval_span(confirmed: usize, total: usize) -> (r: Span)
    ensures
        r@ == approval_span(confirmed as nat, total as nat),
{
    if total == 0 {
        span("—".to_string(), Look::NoDevices)
    } else if confirmed == total {
        span("Yes".to_string(), Look::AllConfirmed)
    } else if confirmed == 0 {
        span("No".to_string(), Look::NoneConfirmed)
    } else {
        let c = decimal(confirmed as u64);
        let t = decimal(total as u64);
        span(padded(c.as_str(), "/", t.as_str()), Look::SomeConfirmed)
    }
}

/// The cells of an account: its name, its identifier, how many devices it has
/// and how many of them are confirmed, whether it is deleted, and its times.
pub open spec fn account_cells(u: UserEntry, entries: Seq<IdentityEntry>) -> Seq<SpanValue> {
    seq![
        cell(u.name@),
        cell(u.uuid@),
        cell(signed_text(u.identity_count as int)),
        approval_span(confirmed_of(entries, u.uuid@).0, confirmed_of(entries, u.uuid@).1),
        cell(yes_no(u.is_deleted)),
        cell(u.created_at@),
        cell(u.updated_at@),
    ]
}

/// The look of an account.
pub open spec fn account_look(is_selected: bool, is_deleted: bool) -> Look {
    match (is_selected, is_deleted) {
        (true, true) => Look::SelectedDeleted,
        (true, false) => Look::Selected,
        (false, true) => Look::Deleted,
        (false, false) => Look::Plain,
    }
}

/// Whether a row shows an account.
pub open spec fn account_row(
    row: TableRow,
    u: UserEntry,
    entries: Seq<IdentityEntry>,
    is_selected: bool,
) -> bool {
    &&& spans(row.cells@) == account_cells(u, entries)
    &&& row.look == account_look(is_selected, u.is_deleted)
}

/// The place of the highlighted account.
pub open spec fn highlighted_user(s: Console) -> int {
    match s.user_selected {
        Some(i) => i as int,
        None => 0,
    }
}

fn make_account_row(app: &App, u: &UserEntry, is_selected: bool) -> (r: TableRow)
    ensures
        account_row(r, *u, app@.identities, is_selected),
{
    let (confirmed, total) = app.user_conf(u.uuid.as_str());
    let mut cells: Vec<Span> = Vec::new();
    cells.push(span(u.name.clone(), Look::Plain));
    cells.push(span(u.uuid.clone(), Look::Plain));
    cells.push(span(signed_decimal(u.identity_count), Look::Plain));
    cells.push(make_approval_span(confirmed, total));
    cells.push(span(yes_no_text(u.is_deleted), Look::Plain));
    cells.push(span(u.created_at.clone(), Look::Plain));
    cells.push(span(u.updated_at.clone(), Look::Plain));
    assert(spans(cells@) =~= account_cells(*u, app@.identities));
    let look = match (is_selected, u.is_deleted) {
        (true, true) => Look::SelectedDeleted,
        (true, false) => Look::Selected,
        (false, true) => Look::Deleted,
        (false, false) => Look::Plain,
    };
    TableRow { cells, look }
}

/// Makes the rows of the accounts.
pub fn render_users(app: &App) -> (r: Vec<TableRow>)
    ensures
        r@.len() == app@.users.len(),
        forall|i: int|
            0 <= i < r@.len() ==> account_row(
                #[trigger] r@[i],
                app@.users[i],
                app@.identities,
                i == highlighted_user(app@),
            ),
{
    let selected: usize = match app.user_selected {
        Some(i) => i,
        None => 0,
    };
    let mut rows: Vec<TableRow> = Vec::new();
    let mut i: usize = 0;
    while i < app.users.len()
        invariant
            i <= app.users@.len(),
            selected == highlighted_user(app@),
            rows@.len() == i,
            forall|k: int|
                0 <= k < rows@.len() ==> account_row(
                    #[trigger] rows@[k],
                    app@.users[k],
                    app@.identities,
                    k == highlighted_user(app@),
                ),
        decreases app.users@.len() - i,
    {
        rows.push(make_account_row(app, &app.users[i], i == selected));
        i += 1;
    }
    rows
}

// ---------------------------------------------------------------------------
// Texts
// ---------------------------------------------------------------------------

/// The last line of the tabs for archives.
pub open spec fn status_line(s: Console, working: Seq<char>) -> Seq<char> {
    if s.busy {
        working
    } else {
        s.message
    }
}

/// The text of the tab that exports.
pub open spec fn export_lines(s: Console) -> Seq<Seq<char>> {
    seq![
        ""@,
        " Export All Data"@,
        ""@,
        " Downloads the database, secrets (.env), and a README"@,
        " as a single pwd-export.tar.gz file."@,
        ""@,
        " Writes to: "@ + s.export_dir + "/pwd-export.tar.gz"@,
        ""@,
        " Press ENTER to export"@,
        ""@,
        status_line(s, " Exporting..."@),
    ]
}

/// The text of the tab that imports.
pub open spec fn import_lines(s: Console) -> Seq<Seq<char>> {
    seq![
        ""@,
        " Import Data"@,
        ""@,
        " Drop a .tar.gz export into the shared export dir on the"@,
        " host, then press ENTER to import from the path below."@,
        ""@,
        " Host dir mounts to: "@ + s.export_dir,
        ""@,
        " Path: "@ + s.import_path,
        ""@,
        status_line(s, " Importing..."@),
    ]
}

fn make_status_line(app: &App, working: &str) -> (r: String)
    ensures
        r@ == status_line(app@, working@),
{
    if app.busy {
        working.to_string()
    } else {
        app.message.clone()
    }
}

/// Makes the text of the tab that exports.
pub fn render_export(app: &App) -> (r: Vec<String>)
    ensures
        crate::text::texts(r@) == export_lines(app@),
{
    let mut v: Vec<String> = Vec::new();
    v.push("".to_string());
    v.push(" Export All Data".to_string());
    v.push("".to_string());
    v.push(" Downloads the database, secrets (.env), and a README".to_string());
    v.push(" as a single pwd-export.tar.gz file.".to_string());
    v.push("".to_string());
    v.push(padded(" Writes to: ", app.export_dir.as_str(), "/pwd-export.tar.gz"));
    v.push("".to_string());
    v.push(" Press ENTER to export".to_string());
    v.push("".to_string());
    v.push(make_status_line(app, " Exporting..."));
    assert(crate::text::texts(v@) =~= export_lines(app@));
    v
}

/// Makes the text of the tab that imports.
pub fn render_import(app: &App) -> (r: Vec<String>)
    ensures
        crate::text::texts(r@) == import_lines(app@),
{
    let mut host = " Host dir mounts to: ".to_string();
    host.push_str(app.export_dir.as_str());
    let mut path = " Path: ".to_string();
    path.push_str(app.import_path.as_str());
    let mut v: Vec<String> = Vec::new();
    v.push("".to_string());
    v.push(" Import Data".to_string());
    v.push("".to_string());
    v.push(" Drop a .tar.gz export into the shared export dir on the".to_string());
    v.push(" host, then press ENTER to import from the path below.".to_string());
    v.push("".to_string());
    v.push(host);
    v.push("".to_string());
    v.push(path);
    v.push("".to_string());
    v.push(make_status_line(app, " Importing..."));
    assert(crate::text::texts(v@) =~= import_lines(app@));
    v
}

/// The notice that the server cannot be reached.
pub open spec fn down_lines(s: Console) -> Seq<SpanValue> {
    seq![
        cell(""@),
        SpanValue { text: "  ⚠  The backend server is not running."@, look: Look::Warning },
        cell(""@),
        cell("  Could not reach "@ + s.base),
        cell(""@),
        cell("  Start the backend server, then relaunch this admin CLI."@),
        cell(""@),
        SpanValue { text: "  Press Enter (or q / Ctrl+C) to quit now."@, look: Look::Advice },
    ]
}

/// Makes the notice that the server cannot be reached.
pub fn render_backend_down(app: &App) -> (r: Vec<Span>)
    ensures
        spans(r@) == down_lines(app@),
{
    let mut unreachable = "  Could not reach ".to_string();
    unreachable.push_str(app.base.as_str());
    let mut v: Vec<Span> = Vec::new();
    v.push(span("".to_string(), Look::Plain));
    v.push(span("  ⚠  The backend server is not running.".to_string(), Look::Warning));
    v.push(span("".to_string(), Look::Plain));
    v.push(span(unreachable, Look::Plain));
    v.push(span("".to_string(), Look::Plain));
    v.push(
        span("  Start the backend server, then relaunch this admin CLI.".to_string(), Look::Plain),
    );
    v.push(span("".to_string(), Look::Plain));
    v.push(span("  Press Enter (or q / Ctrl+C) to quit now.".to_string(), Look::Advice));
    assert(spans(v@) =~= down_lines(app@));
    v
}

/// The line at the foot.
pub open spec fn footer_text(s: Console) -> Seq<char> {
    match s.tab {
        Tab::Devices => "Page "@ + decimal_text((s.page + 1) as nat) + "/"@ + decimal_text(
            s.total_pages as nat,
        ) + "  |  "@ + decimal_text(s.identities.len()) + " identities  |  "@ + s.message,
        Tab::Users => decimal_text(s.users.len()) + " users  |  "@ + s.message,
        _ => ""@,
    }
}

/// Makes the line at the foot.
pub fn render_footer(app: &App) -> (r: String)
    requires
        app@.wf(),
    ensures
        r@ == footer_text(app@),
{
    match app.tab {
        Tab::Devices => {
            let len: usize = app.identities.len();
            let mut s = "Page ".to_string();
            s.push_str(decimal((app.page + 1) as u64).as_str());
            s.push_str("/");
            s.push_str(decimal(app.total_pages as u64).as_str());
            s.push_str("  |  ");
            s.push_str(decimal(len as u64).as_str());
            s.push_str(" identities  |  ");
            s.push_str(app.message.as_str());
            s
        },
        Tab::Users => {
            let mut s = decimal(app.users.len() as u64);
            s.push_str(" users  |  ");
            s.push_str(app.message.as_str());
            s
        },
        _ => "".to_string(),
    }
}

// ---------------------------------------------------------------------------
// The screen
// ---------------------------------------------------------------------------

/// What fills the middle of the screen.
#[derive(Debug)]
pub enum Content {
    Devices(Table),
    Users(Table),
    Lines(Vec<String>),
    /// A table without rows has a notice in its place.
    Notice(String),
}

/// The whole screen.
#[derive(Debug)]
pub enum Screen {
    BackendDown(Vec<Span>),
    Panel { tab_bar: Vec<Span>, key_bar: Vec<Span>, content: Content, footer: String },
}

/// Whether the middle of the screen is the one of a state.
pub open spec fn content_of(content: Content, s: Console) -> bool {
    match s.tab {
        Tab::Devices => if s.on_page() == 0 {
            content matches Content::Notice(text) && text@ == " No identities found"@
        } else {
            content matches Content::Devices(t) && {
                &&& columns(t.columns@) == device_columns()
                &&& t.selected == s.selected
                &&& t.rows@.len() == s.on_page()
                &&& forall|i: int|
                    0 <= i < t.rows@.len() ==> device_row(
                        #[trigger] t.rows@[i],
                        s.identities[s.start() + i],
                        i == highlighted(s),
                    )
            }
        },
        Tab::Users => if s.users.len() == 0 {
            content matches Content::Notice(text) && text@ == " No users found"@
        } else {
            content matches Content::Users(t) && {
                &&& columns(t.columns@) == account_columns()
                &&& t.selected == s.user_selected
                &&& t.rows@.len() == s.users.len()
                &&& forall|i: int|
                    0 <= i < t.rows@.len() ==> account_row(
                        #[trigger] t.rows@[i],
                        s.users[i],
                        s.identities,
                        i == highlighted_user(s),
                    )
            }
        },
        Tab::Export => content matches Content::Lines(lines) && crate::text::texts(lines@)
            == export_lines(s),
        Tab::Import => content matches Content::Lines(lines) && crate::text::texts(lines@)
            == import_lines(s),
    }
}

fn render_content(app: &App) -> (r: Content)
    requires
        app@.wf(),
    ensures
        content_of(r, app@),
{
    match app.tab {
        Tab::Devices => {
            let rows = render_devices(app);
            if rows.len() == 0 {
                Content::Notice(" No identities found".to_string())
            } else {
                Content::Devices(
                    Table { columns: make_device_columns(), rows, selected: app.selected },
                )
            }
        },
        Tab::Users => {
            let rows = render_users(app);
            if rows.len() == 0 {
                Content::Notice(" No users found".to_string())
            } else {
                Content::Users(
                    Table {
                        columns: make_account_columns(),
                        rows,
                        selected: app.user_selected,
                    },
                )
            }
        },
        Tab::Export => Content::Lines(render_export(app)),
        Tab::Import => Content::Lines(render_import(app)),
    }
}

/// Makes the screen.
pub fn render(app: &App) -> (r: Screen)
    requires
        app@.wf(),
    ensures
        match r {
            Screen::BackendDown(lines) => app@.backend_down && spans(lines@) == down_lines(app@),
            Screen::Panel { tab_bar: tabs, key_bar: keys, content, footer } => {
                &&& !app@.backend_down
                &&& spans(tabs@) == tab_bar(app@.tab)
                &&& spans(keys@) == key_bar(app@)
                &&& content_of(content, app@)
                &&& footer@ == footer_text(app@)
            },
        },
{
    if app.backend_down {
        return Screen::BackendDown(render_backend_down(app));
    }
    Screen::Panel {
        tab_bar: render_tab_bar(app),
        key_bar: render_key_bar(app),
        content: render_content(app),
        footer: render_footer(app),
    }
}

/// The selected device is among the rows that the page shows.
pub proof fn law_selection_is_shown(s: Console)
    requires
        s.wf(),
        s.selected is Some,
    ensures
        0 <= highlighted(s) < s.on_page(),
{
}

} // verus!

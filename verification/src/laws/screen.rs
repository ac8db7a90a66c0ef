//! What the console puts on the screen.

use vstd::prelude::*;
use vstd::utf8::encode_utf8;

use crate::console::flows::confirmed_of;
use crate::console::view::{
    columns, fitting, render, render_backend_down, render_devices, render_export, render_footer,
    render_import, render_key_bar, render_tab_bar, render_users, spans, truncate, width, Column,
    Content, Look, Screen, Shade, Span, Style, Table, TableRow,
};
use crate::console::{App, Tab};
use crate::text::{decimal_text, signed_text, texts};

verus! {

/// Whether a piece of text stands at a place, in a look.
pub open spec fn shows(v: Seq<Span>, i: int, text: Seq<char>, look: Look) -> bool {
    0 <= i < v.len() && v[i].text@ == text && v[i].look == look
}

proof fn lemma_spans(v: Seq<Span>)
    ensures
        spans(v).len() == v.len(),
        forall|i: int|
            0 <= i < v.len() ==> (#[trigger] v[i]).text@ == spans(v)[i].text && v[i].look == spans(
                v,
            )[i].look,
{
}

/// Whether colours are those of letters of one shade, on a ground or on none.
pub open spec fn coloured(style: Style, fg: Shade, bg: Option<Shade>, bold: bool) -> bool {
    style.fg == Some(fg) && style.bg == bg && style.bold == bold
}

/// Each look has its colours: what is selected stands on dark gray, what can be
/// done stands on cyan, what is dangerous on red; what is deleted or wrong is
/// red, what is right green, and what is half right yellow.
pub proof fn law_looks_have_their_colours(look: Look, r: Style)
    requires
        call_ensures(Look::style, (look,), r),
    ensures
        match look {
            Look::Plain => r.fg is None && r.bg is None && !r.bold,
            Look::OpenTab => coloured(r, Shade::Black, Some(Shade::Cyan), false),
            Look::OtherTab => coloured(r, Shade::Cyan, None, false),
            Look::Key => coloured(r, Shade::Black, Some(Shade::Cyan), true),
            Look::DangerKey => coloured(r, Shade::Black, Some(Shade::Red), true),
            Look::Hint => coloured(r, Shade::Gray, None, false),
            Look::Selected => coloured(r, Shade::White, Some(Shade::DarkGray), true),
            Look::Deleted => coloured(r, Shade::Red, None, false),
            Look::SelectedDeleted => coloured(r, Shade::Red, Some(Shade::DarkGray), true),
            Look::NoDevices => coloured(r, Shade::DarkGray, None, true),
            Look::AllConfirmed => coloured(r, Shade::Green, None, true),
            Look::NoneConfirmed => coloured(r, Shade::Red, None, true),
            Look::SomeConfirmed => coloured(r, Shade::Yellow, None, true),
            Look::Warning => coloured(r, Shade::Red, None, true),
            Look::Advice => coloured(r, Shade::Yellow, None, true),
        },
{
}

// ---------------------------------------------------------------------------
// The two bars
// ---------------------------------------------------------------------------

/// The bar names the four tabs in order, and one of them, the open one, stands
/// out.
pub proof fn law_the_open_tab_stands_out(app: App, r: Vec<Span>)
    requires
        call_ensures(render_tab_bar, (&app,), r),
    ensures
        r@.len() == 8,
        r@[1].text@ == " "@ + "Devices"@ + " "@,
        r@[3].text@ == " "@ + "Users"@ + " "@,
        r@[5].text@ == " "@ + "Export"@ + " "@,
        r@[7].text@ == " "@ + "Import"@ + " "@,
        r@[1].look == Look::OpenTab <==> app.tab == Tab::Devices,
        r@[3].look == Look::OpenTab <==> app.tab == Tab::Users,
        r@[5].look == Look::OpenTab <==> app.tab == Tab::Export,
        r@[7].look == Look::OpenTab <==> app.tab == Tab::Import,
        forall|i: int|
            #![trigger r@[i]]
            0 <= i < 8 && i % 2 == 1 ==> r@[i].look == Look::OpenTab || r@[i].look
                == Look::OtherTab,
        shows(r@, 0, " "@, Look::Plain),
        shows(r@, 2, "  "@, Look::Plain),
        shows(r@, 4, "  "@, Look::Plain),
        shows(r@, 6, "  "@, Look::Plain),
{
    lemma_spans(r@);
}

/// Whether a key and what it does stand at a place of the bar.
pub open spec fn hints(v: Seq<Span>, i: int, key: Seq<char>, does: Seq<char>) -> bool {
    shows(v, 2 * i, " "@ + key + " "@, Look::Key) && shows(
        v,
        2 * i + 1,
        " "@ + does + "   "@,
        Look::Hint,
    )
}

/// Where no question is open, the bar names the keys of the open tab and what
/// they do.
pub proof fn law_the_bar_names_the_keys(app: App, r: Vec<Span>)
    requires
        call_ensures(render_key_bar, (&app,), r),
        app.pending_delete is None,
        !app.pending_export,
    ensures
        match app.tab {
            Tab::Devices => {
                &&& r@.len() == 12
                &&& hints(r@, 0, "↑/↓"@, "select"@)
                &&& hints(r@, 1, "←/→"@, "page"@)
                &&& hints(r@, 2, "Space/Enter"@, "confirm/unconfirm"@)
                &&& hints(r@, 3, "d"@, "delete device"@)
                &&& hints(r@, 4, "Tab"@, "next tab"@)
                &&& hints(r@, 5, "q"@, "quit"@)
            },
            Tab::Users => {
                &&& r@.len() == 12
                &&& hints(r@, 0, "↑/↓"@, "select"@)
                &&& hints(r@, 1, "Space/Enter"@, "approve/revoke devices"@)
                &&& hints(r@, 2, "d"@, "soft-delete"@)
                &&& hints(r@, 3, "r"@, "restore"@)
                &&& hints(r@, 4, "Tab"@, "next tab"@)
                &&& hints(r@, 5, "q"@, "quit"@)
            },
            Tab::Export => {
                &&& r@.len() == 6
                &&& hints(r@, 0, "Enter"@, "export"@)
                &&& hints(r@, 1, "Tab"@, "next tab"@)
                &&& hints(r@, 2, "q"@, "quit"@)
            },
            Tab::Import => {
                &&& r@.len() == 6
                &&& hints(r@, 0, "Enter"@, "import"@)
                &&& hints(r@, 1, "Tab"@, "next tab"@)
                &&& hints(r@, 2, "q"@, "quit"@)
            },
        },
{
    lemma_spans(r@);
}

/// While a question is open, the bar says which one, and that `y` confirms and
/// any other key cancels.
pub proof fn law_the_bar_says_how_to_answer(app: App, r: Vec<Span>)
    requires
        call_ensures(render_key_bar, (&app,), r),
        app.pending_delete is Some || app.pending_export,
    ensures
        r@.len() == 4,
        shows(r@, 0, " y "@, Look::DangerKey),
        app.pending_export ==> shows(r@, 1, " "@ + "confirm overwrite"@ + "   "@, Look::Hint),
        !app.pending_export ==> shows(r@, 1, " "@ + "confirm delete"@ + "   "@, Look::Hint),
        hints(r@, 1, "any other key"@, "cancel"@),
{
    lemma_spans(r@);
}

// ---------------------------------------------------------------------------
// Tables
// ---------------------------------------------------------------------------

proof fn lemma_width(c: char)
    ensures
        vstd::utf8::encode_scalar(c as u32).len() == width(c),
{
}

proof fn lemma_fitting(s: Seq<char>, bytes: nat)
    ensures
        fitting(s, bytes) <= s.len(),
        encode_utf8(s.take(fitting(s, bytes) as int)).len() <= bytes,
        fitting(s, bytes) < s.len() ==> encode_utf8(s.take(fitting(s, bytes) as int + 1)).len()
            > bytes,
    decreases s.len(),
{
    reveal_with_fuel(encode_utf8, 2);
    if s.len() > 0 {
        lemma_width(s[0]);
        if width(s[0]) <= bytes {
            let rest = s.skip(1);
            let left = (bytes - width(s[0])) as nat;
            let n = fitting(rest, left) as int;
            lemma_fitting(rest, left);
            assert(s.take(n + 1).drop_first() =~= rest.take(n));
            if n < rest.len() {
                assert(s.take(n + 2).drop_first() =~= rest.take(n + 1));
            }
        } else {
            assert(s.take(0) =~= Seq::<char>::empty());
        }
    } else {
        assert(s.take(0) =~= Seq::<char>::empty());
    }
}

proof fn lemma_bytes_grow(s: Seq<char>, n: int)
    requires
        0 <= n <= s.len(),
    ensures
        encode_utf8(s.take(n)).len() <= encode_utf8(s).len(),
    decreases s.len(),
{
    if n > 0 {
        assert(s.take(n).drop_first() =~= s.drop_first().take(n - 1));
        lemma_bytes_grow(s.drop_first(), n - 1);
    }
}

/// A text that fits into some bytes is shown whole. Of any other one as many
/// characters are shown as fit, and dots behind them.
pub proof fn law_long_texts_are_cut(text: &str, bytes: usize, r: String, n: int)
    requires
        call_ensures(truncate, (text, bytes), r),
        0 <= n < text@.len(),
    ensures
        encode_utf8(text@).len() <= bytes ==> r@ == text@,
        encode_utf8(text@.take(n)).len() <= bytes < encode_utf8(text@.take(n + 1)).len() ==> r@
            == text@.take(n) + "..."@,
{
    let s = text@;
    let k = fitting(s, bytes as nat) as int;
    lemma_fitting(s, bytes as nat);
    if k < s.len() {
        lemma_bytes_grow(s, k + 1);
        if n + 1 <= k {
            assert(s.take(k).take(n + 1) =~= s.take(n + 1));
            lemma_bytes_grow(s.take(k), n + 1);
        }
        if k + 1 <= n {
            assert(s.take(n).take(k + 1) =~= s.take(k + 1));
            lemma_bytes_grow(s.take(n), k + 1);
        }
    } else {
        assert(s.take(k) =~= s);
        lemma_bytes_grow(s, n + 1);
    }
}

/// The devices of the page are shown, ten at most, each in a row of its own: a
/// mark if it is confirmed, its times, its token, cut to forty-five bytes, its
/// identifier, its address, and whether it is confirmed. The selected one stands
/// out.
pub proof fn law_the_page_shows_its_devices(
    app: App,
    r: Vec<TableRow>,
    i: int,
    token: &str,
    cut: String,
)
    requires
        app@.wf(),
        call_ensures(render_devices, (&app,), r),
        0 <= i < 10,
        10 * app.page + i < app.identities@.len(),
        token@ == app.identities@[10 * app.page + i].device_token@,
        call_ensures(truncate, (token, 45), cut),
    ensures
        r@.len() <= 10,
        10 * app.page + r@.len() <= app.identities@.len(),
        i < r@.len(),
        ({
            let e = app.identities@[10 * app.page + i];
            let cells = r@[i].cells@;
            &&& cells.len() == 7
            &&& shows(cells, 0, if e.confirmed { "✓"@ } else { "  "@ }, Look::Plain)
            &&& shows(cells, 1, e.created_at@, Look::Plain)
            &&& shows(cells, 2, e.updated_at@, Look::Plain)
            &&& shows(cells, 3, cut@, Look::Plain)
            &&& shows(cells, 4, e.uuid@, Look::Plain)
            &&& shows(cells, 5, e.ip_address@, Look::Plain)
            &&& shows(cells, 6, if e.confirmed { "Yes"@ } else { "No"@ }, Look::Plain)
            &&& app.selected is Some ==> (r@[i].look == Look::Selected <==> app.selected->0 == i)
            &&& app.selected is None ==> (r@[i].look == Look::Selected <==> i == 0)
            &&& r@[i].look == Look::Selected || r@[i].look == Look::Plain
        }),
{
    lemma_spans(r@[i].cells@);
}

/// Each account is shown in a row of its own: its name and identifier, how many
/// devices the server counts, whether all, some or none of those that are listed
/// are confirmed, whether it is deleted, and its times.
pub proof fn law_accounts_are_shown(
    app: App,
    r: Vec<TableRow>,
    i: int,
    uuid: &str,
    counts: (usize, usize),
)
    requires
        call_ensures(render_users, (&app,), r),
        0 <= i < app.users@.len(),
        uuid@ == app.users@[i].uuid@,
        call_ensures(App::user_conf, (&app, uuid), counts),
    ensures
        r@.len() == app.users@.len(),
        ({
            let u = app.users@[i];
            let cells = r@[i].cells@;
            &&& cells.len() == 7
            &&& shows(cells, 0, u.name@, Look::Plain)
            &&& shows(cells, 1, u.uuid@, Look::Plain)
            &&& shows(cells, 2, signed_text(u.identity_count as int), Look::Plain)
            &&& counts.1 == 0 ==> shows(cells, 3, "—"@, Look::NoDevices)
            &&& 0 < counts.1 && counts.0 == counts.1 ==> shows(
                cells,
                3,
                "Yes"@,
                Look::AllConfirmed,
            )
            &&& 0 < counts.1 && counts.0 == 0 ==> shows(cells, 3, "No"@, Look::NoneConfirmed)
            &&& 0 < counts.0 < counts.1 ==> shows(
                cells,
                3,
                decimal_text(counts.0 as nat) + "/"@ + decimal_text(counts.1 as nat),
                Look::SomeConfirmed,
            )
            &&& shows(cells, 4, if u.is_deleted { "Yes"@ } else { "No"@ }, Look::Plain)
            &&& shows(cells, 5, u.created_at@, Look::Plain)
            &&& shows(cells, 6, u.updated_at@, Look::Plain)
        }),
{
    lemma_spans(r@[i].cells@);
    assert(confirmed_of(app@.identities, uuid@) == (counts.0 as nat, counts.1 as nat));
}

/// A deleted account is shown in red, and the selected one on dark gray.
pub proof fn law_accounts_are_coloured(app: App, r: Vec<TableRow>, i: int, style: Style)
    requires
        call_ensures(render_users, (&app,), r),
        0 <= i < app.users@.len(),
        call_ensures(Look::style, (r@[i].look,), style),
    ensures
        style.fg == Some(Shade::Red) <==> app.users@[i].is_deleted,
        app.user_selected is Some ==> (style.bg == Some(Shade::DarkGray)
            <==> app.user_selected->0 == i),
        app.user_selected is None ==> (style.bg == Some(Shade::DarkGray) <==> i == 0),
{
    assert(r@[i] == r@[i]);
}

/// Whether columns have titles and widths.
pub open spec fn titled(v: Seq<Column>, i: int, title: Seq<char>, width: int) -> bool {
    0 <= i < v.len() && v[i].title@ == title && v[i].width == width
}

proof fn lemma_columns(v: Seq<Column>)
    ensures
        columns(v).len() == v.len(),
        forall|i: int|
            0 <= i < v.len() ==> ((#[trigger] v[i]).title@, v[i].width) == columns(v)[i],
{
}

/// Whether a table is that of the devices, by its columns.
pub open spec fn has_device_columns(t: Table) -> bool {
    &&& t.columns@.len() == 7
    &&& titled(t.columns@, 0, ""@, 4)
    &&& titled(t.columns@, 1, "Created"@, 16)
    &&& titled(t.columns@, 2, "Updated"@, 16)
    &&& titled(t.columns@, 3, "Device Token"@, 49)
    &&& titled(t.columns@, 4, "UUID"@, 19)
    &&& titled(t.columns@, 5, "IP"@, 19)
    &&& titled(t.columns@, 6, "Conf"@, 10)
}

/// Whether a table is that of the accounts, by its columns.
pub open spec fn has_account_columns(t: Table) -> bool {
    &&& t.columns@.len() == 7
    &&& titled(t.columns@, 0, "Name"@, 24)
    &&& titled(t.columns@, 1, "UUID"@, 38)
    &&& titled(t.columns@, 2, "Devices"@, 9)
    &&& titled(t.columns@, 3, "Conf"@, 8)
    &&& titled(t.columns@, 4, "Deleted"@, 9)
    &&& titled(t.columns@, 5, "Created"@, 21)
    &&& titled(t.columns@, 6, "Updated"@, 21)
}

/// The middle of the screen is what the open tab is for: the table of the
/// devices or of the accounts, under its titles and with its selection, a notice
/// where there is nothing to list, or the text on archives.
pub proof fn law_the_open_tab_is_shown(app: App, r: Screen)
    requires
        app@.wf(),
        call_ensures(render, (&app,), r),
    ensures
        r is BackendDown <==> app.backend_down,
        r matches Screen::Panel { tab_bar, key_bar, content, footer } ==> match app.tab {
            Tab::Devices => if app.identities@.len() == 0 {
                content matches Content::Notice(text) && text@ == " No identities found"@
            } else {
                content matches Content::Devices(t) && has_device_columns(t) && t.selected
                    == app.selected && t.rows@.len() > 0 && t.rows@.len() <= 10
            },
            Tab::Users => if app.users@.len() == 0 {
                content matches Content::Notice(text) && text@ == " No users found"@
            } else {
                content matches Content::Users(t) && has_account_columns(t) && t.selected
                    == app.user_selected && t.rows@.len() == app.users@.len()
            },
            _ => content is Lines,
        },
{
    if let Screen::Panel { tab_bar, key_bar, content, footer } = r {
        if let Content::Devices(t) = content {
            lemma_columns(t.columns@);
        }
        if let Content::Users(t) = content {
            lemma_columns(t.columns@);
        }
    }
}

/// The screen is put together from its parts.
pub proof fn law_the_screen_is_its_parts(
    app: App,
    r: Screen,
    tabs: Vec<Span>,
    keys: Vec<Span>,
    foot: String,
    export: Vec<String>,
    import: Vec<String>,
    down: Vec<Span>,
)
    requires
        app@.wf(),
        call_ensures(render, (&app,), r),
        call_ensures(render_tab_bar, (&app,), tabs),
        call_ensures(render_key_bar, (&app,), keys),
        call_ensures(render_footer, (&app,), foot),
        call_ensures(render_export, (&app,), export),
        call_ensures(render_import, (&app,), import),
        call_ensures(render_backend_down, (&app,), down),
    ensures
        r matches Screen::BackendDown(lines) ==> spans(lines@) == spans(down@),
        r matches Screen::Panel { tab_bar, key_bar, content, footer } ==> {
            &&& spans(tab_bar@) == spans(tabs@)
            &&& spans(key_bar@) == spans(keys@)
            &&& footer@ == foot@
            &&& app.tab == Tab::Export ==> texts(content->Lines_0@) == texts(export@)
            &&& app.tab == Tab::Import ==> texts(content->Lines_0@) == texts(import@)
        },
{
}

// ---------------------------------------------------------------------------
// Texts
// ---------------------------------------------------------------------------

proof fn lemma_texts(v: Seq<String>)
    ensures
        texts(v).len() == v.len(),
        forall|i: int| 0 <= i < v.len() ==> (#[trigger] v[i])@ == texts(v)[i],
{
}

/// The tab that exports says what is exported and where to, and ends in the
/// message, or in that the console is at work.
pub proof fn law_the_export_tab_says_where_to(app: App, r: Vec<String>)
    requires
        call_ensures(render_export, (&app,), r),
    ensures
        r@.len() == 11,
        r@[1]@ == " Export All Data"@,
        r@[3]@ == " Downloads the database, secrets (.env), and a README"@,
        r@[4]@ == " as a single pwd-export.tar.gz file."@,
        r@[6]@ == " Writes to: "@ + app.export_dir@ + "/pwd-export.tar.gz"@,
        r@[8]@ == " Press ENTER to export"@,
        r@[0]@ == ""@ && r@[2]@ == ""@ && r@[5]@ == ""@ && r@[7]@ == ""@ && r@[9]@ == ""@,
        app.busy ==> r@[10]@ == " Exporting..."@,
        !app.busy ==> r@[10]@ == app.message@,
{
    lemma_texts(r@);
}

/// The tab that imports says where from, and ends in the message, or in that the
/// console is at work.
pub proof fn law_the_import_tab_says_where_from(app: App, r: Vec<String>)
    requires
        call_ensures(render_import, (&app,), r),
    ensures
        r@.len() == 11,
        r@[1]@ == " Import Data"@,
        r@[3]@ == " Drop a .tar.gz export into the shared export dir on the"@,
        r@[4]@ == " host, then press ENTER to import from the path below."@,
        r@[6]@ == " Host dir mounts to: "@ + app.export_dir@,
        r@[8]@ == " Path: "@ + app.import_path@,
        r@[0]@ == ""@ && r@[2]@ == ""@ && r@[5]@ == ""@ && r@[7]@ == ""@ && r@[9]@ == ""@,
        app.busy ==> r@[10]@ == " Importing..."@,
        !app.busy ==> r@[10]@ == app.message@,
{
    lemma_texts(r@);
}

/// The notice that the server is down says which server, and how to quit.
pub proof fn law_the_notice_names_the_server(app: App, r: Vec<Span>)
    requires
        call_ensures(render_backend_down, (&app,), r),
    ensures
        r@.len() == 8,
        shows(r@, 1, "  ⚠  The backend server is not running."@, Look::Warning),
        shows(r@, 3, "  Could not reach "@ + app.base@, Look::Plain),
        shows(r@, 5, "  Start the backend server, then relaunch this admin CLI."@, Look::Plain),
        shows(r@, 7, "  Press Enter (or q / Ctrl+C) to quit now."@, Look::Advice),
        shows(r@, 0, ""@, Look::Plain) && shows(r@, 2, ""@, Look::Plain),
        shows(r@, 4, ""@, Look::Plain) && shows(r@, 6, ""@, Look::Plain),
{
    lemma_spans(r@);
}

/// The foot counts pages from one, and says how many devices or accounts there
/// are, with the message behind.
pub proof fn law_the_foot_counts(app: App, r: String)
    requires
        app@.wf(),
        call_ensures(render_footer, (&app,), r),
    ensures
        app.tab == Tab::Devices ==> r@ == "Page "@ + decimal_text((app.page + 1) as nat) + "/"@
            + decimal_text(app.total_pages as nat) + "  |  "@ + decimal_text(
            app.identities@.len(),
        ) + " identities  |  "@ + app.message@,
        app.tab == Tab::Users ==> r@ == decimal_text(app.users@.len()) + " users  |  "@
            + app.message@,
        app.tab == Tab::Export || app.tab == Tab::Import ==> r@ == ""@,
{
}

} // verus!

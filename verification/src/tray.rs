//! The system tray: what its menu offers and what a click on it asks for.

use crate::text::str_eq;
use vstd::prelude::*;

verus! {

/// Identifier of the menu item that looks for a newer release.
pub const CHECK_FOR_UPDATES_ID: &'static str = "checkforupdates";

/// Identifier of the menu item that opens the documentation.
pub const HELP_ID: &'static str = "help";

/// Identifier of the menu item that ends the program.
pub const QUIT_ID: &'static str = "quit";

/// Page that always shows the latest release.
pub const RELEASES_URL: &'static str = "https://github.com/semperai/amica/releases/latest";

/// Front page of the documentation.
pub const HELP_URL: &'static str = "https://docs.heyamica.com";

/// Caption of the menu item that looks for a newer release.
pub const CHECK_FOR_UPDATES_TITLE: &'static str = "Check for updates";

/// Caption of the menu item that opens the documentation.
pub const HELP_TITLE: &'static str = "Help";

/// Caption of the menu item that ends the program.
pub const QUIT_TITLE: &'static str = "Quit";

/// One row of the tray menu.
#[derive(Clone, Copy, Debug, PartialEq, Eq)]
pub enum TrayEntry {
    /// A row that can be clicked; a click is reported under `id`.
    Item { id: &'static str, title: &'static str },
    /// A line that sets two groups of rows apart.
    Separator,
}

/// A [`TrayEntry`] with its texts as sequences of characters.
pub enum TrayEntryView {
    Item { id: Seq<char>, title: Seq<char> },
    Separator,
}

impl View for TrayEntry {
    type V = TrayEntryView;

    open spec fn view(&self) -> TrayEntryView {
        match *self {
            TrayEntry::Item { id, title } => TrayEntryView::Item { id: id@, title: title@ },
            TrayEntry::Separator => TrayEntryView::Separator,
        }
    }
}

/// The tray menu from top to bottom: the update check, the help page and
/// quitting, each set apart from the next by a separator.
pub open spec fn tray_menu_spec() -> Seq<TrayEntryView> {
    seq![
        TrayEntryView::Item { id: CHECK_FOR_UPDATES_ID@, title: CHECK_FOR_UPDATES_TITLE@ },
        TrayEntryView::Separator,
        TrayEntryView::Item { id: HELP_ID@, title: HELP_TITLE@ },
        TrayEntryView::Separator,
        TrayEntryView::Item { id: QUIT_ID@, title: QUIT_TITLE@ },
    ]
}

/// Whether some row of `menu` is an item that reports clicks under `id`.
pub open spec fn has_item(menu: Seq<TrayEntryView>, id: Seq<char>) -> bool {
    exists|i: int|
        #![trigger menu[i]]
        0 <= i < menu.len() && (menu[i] matches TrayEntryView::Item { id: row, .. } && row == id)
}

/// Builds the tray menu.
pub fn tray_menu() -> (menu: Vec<TrayEntry>)
    ensures
        menu@.len() == tray_menu_spec().len(),
        forall|i: int| 0 <= i < menu@.len() ==> (#[trigger] menu@[i])@ == tray_menu_spec()[i],
{
    let mut menu: Vec<TrayEntry> = Vec::new();
    menu.push(TrayEntry::Item { id: CHECK_FOR_UPDATES_ID, title: CHECK_FOR_UPDATES_TITLE });
    menu.push(TrayEntry::Separator);
    menu.push(TrayEntry::Item { id: HELP_ID, title: HELP_TITLE });
    menu.push(TrayEntry::Separator);
    menu.push(TrayEntry::Item { id: QUIT_ID, title: QUIT_TITLE });
    menu
}

/// What the shell is asked to do in answer to a tray event.
#[derive(Clone, Copy, Debug, PartialEq, Eq)]
pub enum TrayAction {
    /// End the process with this exit code.
    Exit { code: i32 },
    /// Open this address in the user's default browser.
    OpenUrl { url: &'static str },
    /// Leave everything as it is.
    Nothing,
}

/// A [`TrayAction`] with its text as a sequence of characters.
pub enum TrayActionView {
    Exit { code: i32 },
    OpenUrl { url: Seq<char> },
    Nothing,
}

impl View for TrayAction {
    type V = TrayActionView;

    open spec fn view(&self) -> TrayActionView {
        match *self {
            TrayAction::Exit { code } => TrayActionView::Exit { code },
            TrayAction::OpenUrl { url } => TrayActionView::OpenUrl { url: url@ },
            TrayAction::Nothing => TrayActionView::Nothing,
        }
    }
}

/// The action bound to the menu item with identifier `id`; an identifier that
/// no item carries is bound to nothing.
pub open spec fn menu_action_spec(id: Seq<char>) -> TrayActionView {
    if id == QUIT_ID@ {
        TrayActionView::Exit { code: 0 }
    } else if id == CHECK_FOR_UPDATES_ID@ {
        TrayActionView::OpenUrl { url: RELEASES_URL@ }
    } else if id == HELP_ID@ {
        TrayActionView::OpenUrl { url: HELP_URL@ }
    } else {
        TrayActionView::Nothing
    }
}

/// Looks up the action of the menu item that was clicked.
pub fn menu_action(id: &str) -> (action: TrayAction)
    ensures
        action@ == menu_action_spec(id@),
{
    if str_eq(id, QUIT_ID) {
        TrayAction::Exit { code: 0 }
    } else if str_eq(id, CHECK_FOR_UPDATES_ID) {
        TrayAction::OpenUrl { url: RELEASES_URL }
    } else if str_eq(id, HELP_ID) {
        TrayAction::OpenUrl { url: HELP_URL }
    } else {
        TrayAction::Nothing
    }
}

/// Something that happened to the tray icon.
#[derive(Debug, PartialEq, Eq)]
pub enum TrayEvent {
    /// The menu item that reports under `id` was clicked.
    MenuItemClick { id: String },
    /// The icon was clicked with the primary button.
    LeftClick,
    /// The icon was clicked with the secondary button.
    RightClick,
    /// The icon was clicked twice in a row.
    DoubleClick,
    /// Anything else that the tray reports.
    Other,
}

/// A [`TrayEvent`] with its text as a sequence of characters.
pub enum TrayEventView {
    MenuItemClick { id: Seq<char> },
    LeftClick,
    RightClick,
    DoubleClick,
    Other,
}

impl View for TrayEvent {
    type V = TrayEventView;

    open spec fn view(&self) -> TrayEventView {
        match self {
            TrayEvent::MenuItemClick { id } => TrayEventView::MenuItemClick { id: id@ },
            TrayEvent::LeftClick => TrayEventView::LeftClick,
            TrayEvent::RightClick => TrayEventView::RightClick,
            TrayEvent::DoubleClick => TrayEventView::DoubleClick,
            TrayEvent::Other => TrayEventView::Other,
        }
    }
}

/// The action that an event asks for: that of the item for a click on the
/// menu, and nothing for a click on the icon itself or for any other event.
pub open spec fn tray_event_action(event: TrayEventView) -> TrayActionView {
    match event {
        TrayEventView::MenuItemClick { id } => menu_action_spec(id),
        TrayEventView::LeftClick => TrayActionView::Nothing,
        TrayEventView::RightClick => TrayActionView::Nothing,
        TrayEventView::DoubleClick => TrayActionView::Nothing,
        TrayEventView::Other => TrayActionView::Nothing,
    }
}

/// Decides what to do about a tray event.
pub fn on_system_tray_event(event: &TrayEvent) -> (action: TrayAction)
    ensures
        action@ == tray_event_action(event@),
{
    match event {
        TrayEvent::MenuItemClick { id } => menu_action(id.as_str()),
        TrayEvent::LeftClick => TrayAction::Nothing,
        TrayEvent::RightClick => TrayAction::Nothing,
        TrayEvent::DoubleClick => TrayAction::Nothing,
        TrayEvent::Other => TrayAction::Nothing,
    }
}

/// Only a click on the menu can ask for anything: an event that asks for an
/// action is a click on one of the items of the tray menu.
pub proof fn lemma_action_needs_menu_click(event: TrayEventView)
    requires
        !(tray_event_action(event) is Nothing),
    ensures
        event is MenuItemClick,
        has_item(tray_menu_spec(), event->MenuItemClick_id),
{
    lemma_bound_iff_on_menu(event->MenuItemClick_id);
}

/// The three identifiers of the menu are three different strings.
pub proof fn lemma_item_ids_differ()
    ensures
        QUIT_ID@ != HELP_ID@,
        QUIT_ID@ != CHECK_FOR_UPDATES_ID@,
        HELP_ID@ != CHECK_FOR_UPDATES_ID@,
{
    reveal_strlit("quit");
    reveal_strlit("help");
    reveal_strlit("checkforupdates");
    assert(QUIT_ID@[0] != HELP_ID@[0]);
    assert(QUIT_ID@.len() != CHECK_FOR_UPDATES_ID@.len());
    assert(HELP_ID@.len() != CHECK_FOR_UPDATES_ID@.len());
}

/// The menu and the dispatcher agree: an identifier is bound to an action
/// exactly when an item of the tray menu reports under it. No row is dead, and
/// no action is out of the user's reach.
pub proof fn lemma_bound_iff_on_menu(id: Seq<char>)
    ensures
        !(menu_action_spec(id) is Nothing) <==> has_item(tray_menu_spec(), id),
{
    let menu = tray_menu_spec();
    if id == QUIT_ID@ {
        assert(menu[4] is Item);
    } else if id == CHECK_FOR_UPDATES_ID@ {
        assert(menu[0] is Item);
    } else if id == HELP_ID@ {
        assert(menu[2] is Item);
    }
}

/// The two pages that the menu opens are two different addresses.
pub proof fn lemma_urls_differ()
    ensures
        RELEASES_URL@ != HELP_URL@,
{
    reveal_strlit("https://github.com/semperai/amica/releases/latest");
    reveal_strlit("https://docs.heyamica.com");
    assert(RELEASES_URL@.len() != HELP_URL@.len());
}

/// Each action of the menu belongs to one item and to no other identifier:
/// only quitting ends the process, and it does so with success; the release
/// page opens for the update check alone and the documentation for help alone.
pub proof fn lemma_action_names_its_item(id: Seq<char>)
    ensures
        menu_action_spec(id) is Exit <==> id == QUIT_ID@,
        menu_action_spec(id) is Exit ==> menu_action_spec(id) == (TrayActionView::Exit { code: 0 }),
        menu_action_spec(id) == (TrayActionView::OpenUrl { url: RELEASES_URL@ }) <==> id
            == CHECK_FOR_UPDATES_ID@,
        menu_action_spec(id) == (TrayActionView::OpenUrl { url: HELP_URL@ }) <==> id == HELP_ID@,
{
    lemma_item_ids_differ();
    lemma_urls_differ();
}

} // verus!

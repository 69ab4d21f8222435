//! The shortcut record and the fixed table of shortcuts.

use crate::callback::Callback;
use vstd::prelude::*;

verus! {

/// A named, triggerable unit of behaviour. A shortcut may be reachable by a
/// numeric identifier, from a menu, over a web route, by several of these or
/// by none; the three are independent of each other.
#[derive(Clone, Debug, PartialEq, Eq)]
pub struct Shortcut {
    /// Hotkey or menu index, where the shortcut has one.
    pub id: Option<usize>,
    /// What the shortcut does when it is invoked.
    pub func: Callback,
    /// Whether the shortcut answers the primary (left) button rather than the
    /// secondary one. The table does not interpret it; dispatch does.
    pub is_left_click: bool,
    /// Label under which a menu shows the shortcut; `None` keeps it out of
    /// menus.
    pub menu_name: Option<String>,
    /// Route under which a web request invokes the shortcut; `None` keeps it
    /// off the web.
    pub web_req_url: Option<String>,
}

/// Mathematical model of a [`Shortcut`].
pub ghost struct ShortcutView {
    pub id: Option<nat>,
    pub func: Callback,
    pub is_left_click: bool,
    pub menu_name: Option<Seq<char>>,
    pub web_req_url: Option<Seq<char>>,
}

impl View for Shortcut {
    type V = ShortcutView;

    open spec fn view(&self) -> ShortcutView {
        ShortcutView {
            id: match self.id {
                Some(id) => Some(id as nat),
                None => None,
            },
            func: self.func,
            is_left_click: self.is_left_click,
            menu_name: match self.menu_name {
                Some(name) => Some(name@),
                None => None,
            },
            web_req_url: match self.web_req_url {
                Some(url) => Some(url@),
                None => None,
            },
        }
    }
}

impl DeepView for Shortcut {
    type V = ShortcutView;

    open spec fn deep_view(&self) -> ShortcutView {
        self@
    }
}

/// The table of shortcuts, in the order in which it is published.
pub open spec fn catalogue() -> Seq<ShortcutView> {
    seq![
        ShortcutView {
            id: Some(8),
            func: Callback::ShowScreenDir,
            is_left_click: false,
            menu_name: Some("Test"@),
            web_req_url: Some("/test_connection"@),
        },
        ShortcutView {
            id: Some(19),
            func: Callback::CaptureScreen,
            is_left_click: false,
            menu_name: Some("Capture Windows Screen"@),
            web_req_url: Some("/capture_windows_screen"@),
        },
        ShortcutView {
            id: Some(10),
            func: Callback::SwitchToTv,
            is_left_click: false,
            menu_name: Some("Switch to TV"@),
            web_req_url: Some("/switch_to_tv"@),
        },
        ShortcutView {
            id: Some(11),
            func: Callback::SwitchToMonitor,
            is_left_click: false,
            menu_name: Some("Switch to Monitor"@),
            web_req_url: Some("/switch_to_monitor"@),
        },
        ShortcutView {
            id: None,
            func: Callback::ResetExplorer,
            is_left_click: true,
            menu_name: None,
            web_req_url: None,
        },
        ShortcutView {
            id: None,
            func: Callback::CloseTopWindow,
            is_left_click: false,
            menu_name: None,
            web_req_url: Some("/close_top_window"@),
        },
    ]
}

/// Builds the table of shortcuts. Building it reads no configuration and
/// cannot fail: each callback does its own fallible work when it is invoked.
pub fn build_shortcuts() -> (table: Vec<Shortcut>)
    ensures
        table.deep_view() == catalogue(),
{
    vec![
        Shortcut {
            id: Some(8),
            func: Callback::ShowScreenDir,
            is_left_click: false,
            menu_name: Some("Test".to_string()),
            web_req_url: Some("/test_connection".to_string()),
        },
        Shortcut {
            id: Some(19),
            func: Callback::CaptureScreen,
            is_left_click: false,
            menu_name: Some("Capture Windows Screen".to_string()),
            web_req_url: Some("/capture_windows_screen".to_string()),
        },
        Shortcut {
            id: Some(10),
            func: Callback::SwitchToTv,
            is_left_click: false,
            menu_name: Some("Switch to TV".to_string()),
            web_req_url: Some("/switch_to_tv".to_string()),
        },
        Shortcut {
            id: Some(11),
            func: Callback::SwitchToMonitor,
            is_left_click: false,
            menu_name: Some("Switch to Monitor".to_string()),
            web_req_url: Some("/switch_to_monitor".to_string()),
        },
        Shortcut {
            id: None,
            func: Callback::ResetExplorer,
            is_left_click: true,
            menu_name: None,
            web_req_url: None,
        },
        Shortcut {
            id: None,
            func: Callback::CloseTopWindow,
            is_left_click: false,
            menu_name: None,
            web_req_url: Some("/close_top_window".to_string()),
        },
    ]
}

/// Whether rows `a` and `b` can be told apart by every key they carry: an
/// identifier, a menu label or a route that one of them has is not also the
/// other's.
pub open spec fn keys_differ(a: ShortcutView, b: ShortcutView) -> bool {
    &&& a.id is Some ==> a.id != b.id
    &&& a.menu_name is Some ==> a.menu_name != b.menu_name
    &&& a.web_req_url is Some ==> a.web_req_url != b.web_req_url
}

/// The table has six rows, each with a callback of its own, and no two rows
/// share an identifier, a menu label or a route. A lookup by any of these
/// therefore finds at most one shortcut, whichever row it tries first.
pub proof fn catalogue_rows_are_distinct()
    ensures
        catalogue().len() == 6,
        forall|i: int, j: int|
            0 <= i < 6 && 0 <= j < 6 && i != j ==> {
                &&& (#[trigger] catalogue()[i]).func != (#[trigger] catalogue()[j]).func
                &&& keys_differ(catalogue()[i], catalogue()[j])
            },
{
    reveal_strlit("Test");
    reveal_strlit("Capture Windows Screen");
    reveal_strlit("Switch to TV");
    reveal_strlit("Switch to Monitor");
    reveal_strlit("/test_connection");
    reveal_strlit("/capture_windows_screen");
    reveal_strlit("/switch_to_tv");
    reveal_strlit("/switch_to_monitor");
    reveal_strlit("/close_top_window");
    // The labels differ in length from each other, and so do the routes.
    assert("Test"@.len() == 4);
    assert("Capture Windows Screen"@.len() == 22);
    assert("Switch to TV"@.len() == 12);
    assert("Switch to Monitor"@.len() == 17);
    assert("/test_connection"@.len() == 16);
    assert("/capture_windows_screen"@.len() == 23);
    assert("/switch_to_tv"@.len() == 13);
    assert("/switch_to_monitor"@.len() == 18);
    assert("/close_top_window"@.len() == 17);
}

} // verus!

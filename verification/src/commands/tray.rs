//! The tray icon: its colour and title follow the state of card generation, and its menu
//! entries lead to the main window, generation, a screenshot, or quitting.

use vstd::prelude::*;

use crate::text::str_eq;

verus! {

/// The id of the tray icon.
pub const TRAY_ICON_ID: &'static str = "nevermind-tray";

/// The side of the square tray icon, in pixels.
pub const TRAY_ICON_SIZE: u32 = 22;

/// Where card generation stands, as the tray shows it.
#[derive(Debug, Clone, Copy, PartialEq, Eq, Structural)]
pub enum TrayGenerationState {
    Idle,
    Running,
    Ready,
    Mixed,
}

/// The colour of the tray icon in each state.
pub open spec fn state_color(state: TrayGenerationState) -> (u8, u8, u8) {
    match state {
        TrayGenerationState::Idle => (110, 110, 118),
        TrayGenerationState::Running => (59, 130, 246),
        TrayGenerationState::Ready => (34, 197, 94),
        TrayGenerationState::Mixed => (245, 158, 11),
    }
}

/// The colour of the tray icon in a state.
pub fn color_for_state(state: TrayGenerationState) -> (r: (u8, u8, u8))
    ensures
        r == state_color(state),
{
    match state {
        TrayGenerationState::Idle => (110, 110, 118),
        TrayGenerationState::Running => (59, 130, 246),
        TrayGenerationState::Ready => (34, 197, 94),
        TrayGenerationState::Mixed => (245, 158, 11),
    }
}

/// Byte `j` of the RGBA pixels of an opaque colour.
pub open spec fn rgba_byte(r: u8, g: u8, b: u8, j: int) -> u8 {
    if j % 4 == 0 {
        r
    } else if j % 4 == 1 {
        g
    } else if j % 4 == 2 {
        b
    } else {
        255
    }
}

/// The RGBA pixels of a square icon of one opaque colour, row by row.
pub fn solid_rgba_pixels(r: u8, g: u8, b: u8) -> (px: Vec<u8>)
    ensures
        px@.len() == 4 * TRAY_ICON_SIZE * TRAY_ICON_SIZE,
        forall|j: int| 0 <= j < px@.len() ==> #[trigger] px@[j] == rgba_byte(r, g, b, j),
{
    let n: usize = 1936;
    let mut px: Vec<u8> = Vec::new();
    let mut k: usize = 0;
    while k < n
        invariant
            n == 4 * TRAY_ICON_SIZE * TRAY_ICON_SIZE,
            k <= n,
            k % 4 == 0,
            px@.len() == k,
            forall|j: int| 0 <= j < k ==> #[trigger] px@[j] == rgba_byte(r, g, b, j),
        decreases n - k,
    {
        px.push(r);
        px.push(g);
        px.push(b);
        px.push(255);
        k += 4;
    }
    px
}

/// The title shown beside the tray icon in each state; empty for none.
pub open spec fn state_title(state: TrayGenerationState) -> Seq<char> {
    match state {
        TrayGenerationState::Idle => ""@,
        TrayGenerationState::Running => "生成中"@,
        TrayGenerationState::Ready => "有待预览批次"@,
        TrayGenerationState::Mixed => "生成中·有待预览"@,
    }
}

/// The title shown beside the tray icon; `None` when there is none.
pub fn title_for_state(state: TrayGenerationState) -> (r: Option<&'static str>)
    ensures
        state is Idle ==> r is None,
        !(state is Idle) ==> (r matches Some(t) && t@ == state_title(state)),
{
    match state {
        TrayGenerationState::Idle => None,
        TrayGenerationState::Running => Some("生成中"),
        TrayGenerationState::Ready => Some("有待预览批次"),
        TrayGenerationState::Mixed => Some("生成中·有待预览"),
    }
}

/// What a tray menu entry does.
#[derive(Debug, Clone, Copy, PartialEq, Eq, Structural)]
pub enum TrayAction {
    ShowMain,
    Generate,
    Screenshot,
    Quit,
}

/// The action of each tray menu entry, by the entry's id.
pub open spec fn menu_action_of(id: Seq<char>) -> Option<TrayAction> {
    if id == "nevermind-tray-show"@ {
        Some(TrayAction::ShowMain)
    } else if id == "nevermind-tray-generate"@ {
        Some(TrayAction::Generate)
    } else if id == "nevermind-tray-screenshot"@ {
        Some(TrayAction::Screenshot)
    } else if id == "nevermind-tray-quit"@ {
        Some(TrayAction::Quit)
    } else {
        None
    }
}

/// The action of a tray menu entry, by the entry's id; `None` for an unknown id.
pub fn tray_menu_action(id: &str) -> (r: Option<TrayAction>)
    ensures
        r == menu_action_of(id@),
{
    if str_eq(id, "nevermind-tray-show") {
        Some(TrayAction::ShowMain)
    } else if str_eq(id, "nevermind-tray-generate") {
        Some(TrayAction::Generate)
    } else if str_eq(id, "nevermind-tray-screenshot") {
        Some(TrayAction::Screenshot)
    } else if str_eq(id, "nevermind-tray-quit") {
        Some(TrayAction::Quit)
    } else {
        None
    }
}

/// The entries of the tray menu, in order, each as its id and the label shown for it.
pub open spec fn tray_menu_entries() -> Seq<(Seq<char>, Seq<char>)> {
    seq![
        ("nevermind-tray-show"@, "显示主窗口"@),
        ("nevermind-tray-generate"@, "生成卡片"@),
        ("nevermind-tray-screenshot"@, "区域截图"@),
        ("nevermind-tray-quit"@, "退出 NeverMind"@),
    ]
}

/// What each action does, as a menu label says it.
pub open spec fn action_label(a: TrayAction) -> Seq<char> {
    match a {
        TrayAction::ShowMain => "显示主窗口"@,
        TrayAction::Generate => "生成卡片"@,
        TrayAction::Screenshot => "区域截图"@,
        TrayAction::Quit => "退出 NeverMind"@,
    }
}

/// Every entry of the tray menu leads to the action its label names: showing the main
/// window, generating cards, taking a screenshot, or quitting.
pub proof fn law_menu_entries_do_what_they_say(i: int)
    requires
        0 <= i < tray_menu_entries().len(),
    ensures
        menu_action_of(tray_menu_entries()[i].0) matches Some(a) && action_label(a) == tray_menu_entries()[i].1,
{
    reveal_strlit("nevermind-tray-show");
    reveal_strlit("nevermind-tray-generate");
    reveal_strlit("nevermind-tray-screenshot");
    reveal_strlit("nevermind-tray-quit");
    assert("nevermind-tray-show"@[15] != "nevermind-tray-generate"@[15]);
    assert("nevermind-tray-show"@[15] != "nevermind-tray-screenshot"@[16]);
    assert("nevermind-tray-generate"@[15] != "nevermind-tray-screenshot"@[15]);
    assert("nevermind-tray-show"@.len() != "nevermind-tray-quit"@.len() || "nevermind-tray-show"@[15]
        != "nevermind-tray-quit"@[15]);
    assert("nevermind-tray-generate"@.len() != "nevermind-tray-quit"@.len());
    assert("nevermind-tray-screenshot"@.len() != "nevermind-tray-quit"@.len());
    assert("nevermind-tray-show"@.len() != "nevermind-tray-generate"@.len());
    assert("nevermind-tray-show"@.len() != "nevermind-tray-screenshot"@.len());
    assert("nevermind-tray-generate"@.len() != "nevermind-tray-screenshot"@.len());
}

/// Distinct actions come from distinct menu ids: an id leads to an action only if it is
/// the id of the menu entry labelled with that action.
pub proof fn law_menu_action_needs_its_entry(id: Seq<char>)
    ensures
        menu_action_of(id) matches Some(a) ==> exists|i: int|
            0 <= i < tray_menu_entries().len() && (#[trigger] tray_menu_entries()[i]).0 == id
                && tray_menu_entries()[i].1 == action_label(a),
{
    if menu_action_of(id) is Some {
        let e = tray_menu_entries();
        if id == "nevermind-tray-show"@ {
            assert(e[0].0 == id);
        } else if id == "nevermind-tray-generate"@ {
            assert(e[1].0 == id);
        } else if id == "nevermind-tray-screenshot"@ {
            assert(e[2].0 == id);
        } else {
            assert(e[3].0 == id);
        }
    }
}

} // verus!

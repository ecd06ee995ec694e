//! The in-game settings menu: its pages and items, the keyboard state
//! machine, how each item reads and changes the shared state, and what an
//! item persists to the ini. Drawing the panel and running the window
//! actions is left to the caller.

use vstd::prelude::*;
use vstd::string::StringExecFns;
use crate::config::{is_yes, utf8};
use crate::fps_limiter::Limiter;
use crate::text::{decimal_chars, decimal_text, lower, trim_end_spec, trim_spec, trim_start_spec, trim_str};
use crate::state::{
    CompatConfig, DDrawState, GraphicsConfig, InputConfig, LimiterConfig, ModeConfig, ScalingConfig, WindowConfig, RENDERER_D3D9, RENDERER_GDI, RENDERER_OPENGL, RENDERER_OPENGL_CORE};

verus! {

/// Arrow up.
pub const VK_UP: i32 = 0x26;

/// Arrow down.
pub const VK_DOWN: i32 = 0x28;

/// Arrow left.
pub const VK_LEFT: i32 = 0x25;

/// Arrow right.
pub const VK_RIGHT: i32 = 0x27;

/// Enter.
pub const VK_RETURN: i32 = 0x0D;

/// Escape.
pub const VK_ESCAPE: i32 = 0x1B;

/// Space bar.
pub const VK_SPACE: i32 = 0x20;

/// The W key.
pub const VK_W: i32 = 0x57;

/// The S key.
pub const VK_S: i32 = 0x53;

/// The A key.
pub const VK_A: i32 = 0x41;

/// The D key.
pub const VK_D: i32 = 0x44;

/// Number of menu pages.
pub const PAGE_COUNT: usize = 6;

/// What an item is: a switch, a number in `[min, max]` moved by `step`, one
/// of the choices `0..=last`, a one-shot action, or read-only text.
#[derive(Clone, Copy, PartialEq, Eq, Debug)]
pub enum Kind {
    Bool,
    Int(i32, i32, i32),
    Choice(i32),
    Action,
    Text,
}

/// Number of items on a page.
pub open spec fn page_len(page: int) -> int {
    if page == 0 {
        8
    } else if page == 1 {
        9
    } else if page == 2 {
        8
    } else if page == 3 {
        4
    } else if page == 4 {
        11
    } else if page == 5 {
        7
    } else {
        0
    }
}

/// The number of items on `page`.
pub fn items_on_page(page: usize) -> (n: usize)
    ensures
        n == page_len(page as int),
{
    if page == 0 {
        8
    } else if page == 1 {
        9
    } else if page == 2 {
        8
    } else if page == 3 {
        4
    } else if page == 4 {
        11
    } else if page == 5 {
        7
    } else {
        0
    }
}

/// The kind of item `item` of `page`.
pub open spec fn kind_spec(page: int, item: int) -> Kind {
    if page == 0 {
        if item == 0 {
            Kind::Choice(4)
        } else if item == 1 {
            Kind::Choice(4)
        } else if item == 2 {
            Kind::Choice(5)
        } else if item == 3 {
            Kind::Bool
        } else if item == 4 {
            Kind::Int(0, 1000, 5)
        } else if item == 5 {
            Kind::Int(0, 200, 5)
        } else if item == 6 {
            Kind::Int(-2i32, 120, 1)
        } else {
            Kind::Choice(4)
        }
    } else if page == 1 {
        if item == 0 {
            Kind::Choice(2)
        } else if item == 1 || item == 2 {
            Kind::Bool
        } else if item == 3 || item == 4 {
            Kind::Action
        } else if item == 5 {
            Kind::Int(0, 10240, 16)
        } else if item == 6 {
            Kind::Int(0, 7680, 16)
        } else {
            Kind::Int(-32000i32, 32767, 8)
        }
    } else if page == 2 {
        if item <= 2 {
            Kind::Bool
        } else if item == 3 {
            Kind::Int(0, 240, 1)
        } else if item == 4 {
            Kind::Choice(2)
        } else if item == 5 {
            Kind::Int(0, 200, 4)
        } else {
            Kind::Text
        }
    } else if page == 3 {
        if item == 1 {
            Kind::Action
        } else {
            Kind::Bool
        }
    } else if page == 4 {
        if item == 7 {
            Kind::Int(0, 4, 1)
        } else if item == 10 {
            Kind::Choice(3)
        } else {
            Kind::Bool
        }
    } else {
        if item == 0 {
            Kind::Int(0, 2, 1)
        } else if item == 4 {
            Kind::Action
        } else if item >= 5 {
            Kind::Text
        } else {
            Kind::Bool
        }
    }
}

/// The kind of item `item` of `page`.
pub fn item_kind(page: usize, item: usize) -> (k: Kind)
    requires
        page < PAGE_COUNT,
        item < page_len(page as int),
    ensures
        k == kind_spec(page as int, item as int),
{
    if page == 0 {
        if item == 0 {
            Kind::Choice(4)
        } else if item == 1 {
            Kind::Choice(4)
        } else if item == 2 {
            Kind::Choice(5)
        } else if item == 3 {
            Kind::Bool
        } else if item == 4 {
            Kind::Int(0, 1000, 5)
        } else if item == 5 {
            Kind::Int(0, 200, 5)
        } else if item == 6 {
            Kind::Int(-2, 120, 1)
        } else {
            Kind::Choice(4)
        }
    } else if page == 1 {
        if item == 0 {
            Kind::Choice(2)
        } else if item == 1 || item == 2 {
            Kind::Bool
        } else if item == 3 || item == 4 {
            Kind::Action
        } else if item == 5 {
            Kind::Int(0, 10240, 16)
        } else if item == 6 {
            Kind::Int(0, 7680, 16)
        } else {
            Kind::Int(-32000, 32767, 8)
        }
    } else if page == 2 {
        if item <= 2 {
            Kind::Bool
        } else if item == 3 {
            Kind::Int(0, 240, 1)
        } else if item == 4 {
            Kind::Choice(2)
        } else if item == 5 {
            Kind::Int(0, 200, 4)
        } else {
            Kind::Text
        }
    } else if page == 3 {
        if item == 1 {
            Kind::Action
        } else {
            Kind::Bool
        }
    } else if page == 4 {
        if item == 7 {
            Kind::Int(0, 4, 1)
        } else if item == 10 {
            Kind::Choice(3)
        } else {
            Kind::Bool
        }
    } else {
        if item == 0 {
            Kind::Int(0, 2, 1)
        } else if item == 4 {
            Kind::Action
        } else if item >= 5 {
            Kind::Text
        } else {
            Kind::Bool
        }
    }
}

/// Which column has the selection.
#[derive(Clone, Copy, PartialEq, Eq, Debug)]
pub enum Mode {
    Pages,
    Items,
}

/// The menu cursor.
#[derive(Clone, Copy, PartialEq, Eq, Debug)]
pub struct Menu {
    /// The overlay window exists.
    pub open: bool,
    pub page: usize,
    pub item: usize,
    /// First item row shown.
    pub scroll: usize,
    pub mode: Mode,
}

impl Menu {
    /// The page exists, and in the item column the item exists.
    pub open spec fn wf(self) -> bool {
        &&& self.page < PAGE_COUNT
        &&& self.mode == Mode::Items ==> self.item < page_len(self.page as int)
    }

    /// A closed menu on the first page.
    pub open spec fn closed() -> Menu {
        Menu { open: false, page: 0, item: 0, scroll: 0, mode: Mode::Pages }
    }

    /// The menu as a fresh overlay shows it.
    pub fn opened() -> (m: Menu)
        ensures
            m == (Menu { open: true, page: 0, item: 0, scroll: 0, mode: Mode::Pages }),
            m.wf(),
    {
        Menu { open: true, page: 0, item: 0, scroll: 0, mode: Mode::Pages }
    }
}

/// What showing the overlay comes to.
#[derive(Clone, Copy, PartialEq, Eq, Debug)]
pub enum ShowStep {
    /// There is no game window to cover: nothing happens.
    NoGame,
    /// The overlay is already shown: nothing happens.
    AlreadyOpen,
    /// Create the overlay window; once it exists the menu starts as
    /// `Menu::opened()`, the cursor is released and the overlay is placed
    /// over the game and painted.
    Create,
}

/// Decides whether showing the overlay creates it: only over a game window,
/// and only once while it is open.
pub fn show_step(m: &Menu, game_valid: bool) -> (r: ShowStep)
    ensures
        !game_valid ==> r == ShowStep::NoGame,
        game_valid && m.open ==> r == ShowStep::AlreadyOpen,
        game_valid && !m.open ==> r == ShowStep::Create,
{
    if !game_valid {
        ShowStep::NoGame
    } else if m.open {
        ShowStep::AlreadyOpen
    } else {
        ShowStep::Create
    }
}

/// What a key press asks of the caller.
#[derive(Clone, Copy, PartialEq, Eq, Debug)]
pub enum KeyAction {
    /// The key is not the menu's; the game receives it.
    Ignored,
    /// Close the overlay.
    Close,
    /// The cursor moved; repaint.
    Redraw,
    /// Change item `.1` of page `.0` by `.2` (-1 or +1), then repaint.
    Adjust(usize, usize, i32),
    /// Run the action of item `.1` of page `.0`, then repaint.
    Run(usize, usize),
}

/// The previous page, wrapping around.
pub open spec fn prev_page(p: int) -> int {
    (p + PAGE_COUNT - 1) % (PAGE_COUNT as int)
}

/// The next page, wrapping around.
pub open spec fn next_page(p: int) -> int {
    (p + 1) % (PAGE_COUNT as int)
}

/// The menu cursor and request after key `key`, with Ctrl / Alt held as
/// given and `keyconfig` the configured overlay hotkey.
pub open spec fn key_spec(m: Menu, key: i32, keyconfig: i32, ctrl: bool, alt: bool) -> (Menu, KeyAction) {
    let up = key == VK_UP || key == VK_W;
    let down = key == VK_DOWN || key == VK_S;
    if key == VK_ESCAPE || (keyconfig != 0 && key == keyconfig && ctrl && alt) {
        (Menu::closed(), KeyAction::Close)
    } else if !m.open {
        (m, KeyAction::Ignored)
    } else if m.mode == Mode::Pages {
        if up {
            (Menu { page: prev_page(m.page as int) as usize, ..m }, KeyAction::Redraw)
        } else if down {
            (Menu { page: next_page(m.page as int) as usize, ..m }, KeyAction::Redraw)
        } else if key == VK_RETURN || key == VK_RIGHT || key == VK_SPACE || key == VK_D {
            (Menu { mode: Mode::Items, item: 0, scroll: 0, ..m }, KeyAction::Redraw)
        } else {
            (m, KeyAction::Ignored)
        }
    } else if ctrl && key == VK_UP {
        (Menu { page: prev_page(m.page as int) as usize, mode: Mode::Pages, ..m }, KeyAction::Redraw)
    } else if ctrl && key == VK_DOWN {
        (Menu { page: next_page(m.page as int) as usize, mode: Mode::Pages, ..m }, KeyAction::Redraw)
    } else if up {
        if m.item > 0 {
            let item = (m.item - 1) as usize;
            (Menu { item, scroll: if item < m.scroll { item } else { m.scroll }, ..m }, KeyAction::Redraw)
        } else {
            (m, KeyAction::Redraw)
        }
    } else if down {
        if m.item + 1 < page_len(m.page as int) {
            (Menu { item: (m.item + 1) as usize, ..m }, KeyAction::Redraw)
        } else {
            (m, KeyAction::Redraw)
        }
    } else if key == VK_LEFT || key == VK_A {
        (m, KeyAction::Adjust(m.page, m.item, -1i32))
    } else if key == VK_RIGHT || key == VK_D {
        (m, KeyAction::Adjust(m.page, m.item, 1))
    } else if key == VK_RETURN || key == VK_SPACE {
        (m, match kind_spec(m.page as int, m.item as int) {
            Kind::Action => KeyAction::Run(m.page, m.item),
            Kind::Text => KeyAction::Redraw,
            _ => KeyAction::Adjust(m.page, m.item, 1),
        })
    } else {
        (m, KeyAction::Ignored)
    }
}

/// Handles a key pressed while the overlay is open: moves the cursor and
/// says what the caller must do. `Ignored` means the game gets the key.
pub fn on_key(m: &mut Menu, key: i32, keyconfig: i32, ctrl: bool, alt: bool) -> (a: KeyAction)
    requires
        old(m).wf(),
    ensures
        (*final(m), a) == key_spec(*old(m), key, keyconfig, ctrl, alt),
        final(m).wf(),
{
    if key == VK_ESCAPE || (keyconfig != 0 && key == keyconfig && ctrl && alt) {
        *m = Menu { open: false, page: 0, item: 0, scroll: 0, mode: Mode::Pages };
        return KeyAction::Close;
    }
    if !m.open {
        return KeyAction::Ignored;
    }
    let up = key == VK_UP || key == VK_W;
    let down = key == VK_DOWN || key == VK_S;
    match m.mode {
        Mode::Pages => {
            if up {
                m.page = (m.page + PAGE_COUNT - 1) % PAGE_COUNT;
                KeyAction::Redraw
            } else if down {
                m.page = (m.page + 1) % PAGE_COUNT;
                KeyAction::Redraw
            } else if key == VK_RETURN || key == VK_RIGHT || key == VK_SPACE || key == VK_D {
                m.mode = Mode::Items;
                m.item = 0;
                m.scroll = 0;
                KeyAction::Redraw
            } else {
                KeyAction::Ignored
            }
        },
        Mode::Items => {
            if ctrl && key == VK_UP {
                m.page = (m.page + PAGE_COUNT - 1) % PAGE_COUNT;
                m.mode = Mode::Pages;
                KeyAction::Redraw
            } else if ctrl && key == VK_DOWN {
                m.page = (m.page + 1) % PAGE_COUNT;
                m.mode = Mode::Pages;
                KeyAction::Redraw
            } else if up {
                if m.item > 0 {
                    m.item = m.item - 1;
                    if m.item < m.scroll {
                        m.scroll = m.item;
                    }
                }
                KeyAction::Redraw
            } else if down {
                if m.item + 1 < items_on_page(m.page) {
                    m.item = m.item + 1;
                }
                KeyAction::Redraw
            } else if key == VK_LEFT || key == VK_A {
                KeyAction::Adjust(m.page, m.item, -1)
            } else if key == VK_RIGHT || key == VK_D {
                KeyAction::Adjust(m.page, m.item, 1)
            } else if key == VK_RETURN || key == VK_SPACE {
                match item_kind(m.page, m.item) {
                    Kind::Action => KeyAction::Run(m.page, m.item),
                    Kind::Text => KeyAction::Redraw,
                    _ => KeyAction::Adjust(m.page, m.item, 1),
                }
            } else {
                KeyAction::Ignored
            }
        },
    }
}

/// Paging with up and down in the page column is cyclic: `PAGE_COUNT`
/// presses of the same key bring the cursor back to its page, and down
/// undoes up.
pub proof fn lemma_pages_cycle(p: int)
    requires
        0 <= p < PAGE_COUNT,
    ensures
        next_page(prev_page(p)) == p,
        prev_page(next_page(p)) == p,
        0 <= next_page(p) < PAGE_COUNT,
        0 <= prev_page(p) < PAGE_COUNT,
{
}

/// The new value and whether it changed, for a switch flipped by `int_switch`.
pub open spec fn switched(v: i32) -> (i32, bool) {
    let n: i32 = if v > 0 { 0 } else { 1 };
    (if n == v { v } else { n }, n != v)
}

/// `n` limited to `[lo, hi]`.
pub open spec fn clamp_int(n: int, lo: int, hi: int) -> int {
    if n < lo { lo } else if n > hi { hi } else { n }
}

/// A number moved by `step` in direction `dir` and kept in `[min, max]`, and whether it
/// changed.
pub open spec fn stepped(v: i32, min: i32, max: i32, step: i32, dir: i32) -> (i32, bool) {
    let n = clamp_int(if dir < 0 { v - step } else { v + step }, min as int, max as int) as i32;
    (n, n != v)
}

/// A choice moved by `dir` among `min..=max`, wrapping around; a value out of
/// range first counts as the nearest end. Unchanged when the move lands on
/// the same choice.
pub open spec fn cycled(v: i32, min: i32, max: i32, dir: i32) -> (i32, bool) {
    let cur = clamp_int(v as int, min as int, max as int);
    let m = cur + dir;
    let n = if m < min { max as int } else if m > max { min as int } else { m };
    if n == cur { (v, false) } else { (n as i32, true) }
}

/// Flips a switch; it always changes.
pub fn bool_toggle(v: &mut bool) -> (changed: bool)
    ensures
        *final(v) == !*old(v),
        changed,
{
    *v = !*v;
    true
}

/// Turns a number switch (0 off, positive on) over: on becomes 0, off 1.
pub fn int_switch(v: &mut i32) -> (changed: bool)
    ensures
        (*final(v), changed) == switched(*old(v)),
{
    let n = if *v > 0 { 0 } else { 1 };
    if n == *v {
        false
    } else {
        *v = n;
        true
    }
}

/// Moves a number by `dir * step`, kept in `[min, max]`.
pub fn int_adj(v: &mut i32, min: i32, max: i32, step: i32, dir: i32) -> (changed: bool)
    requires
        min <= max,
        0 < step <= 1024,
        dir == -1 || dir == 1,
        i32::MIN <= *old(v) - step,
        *old(v) + step <= i32::MAX,
    ensures
        (*final(v), changed) == stepped(*old(v), min, max, step, dir),
{
    let d = if dir < 0 { 0 - step } else { step };
    let m = *v + d;
    let n = if m < min {
        min
    } else if m > max {
        max
    } else {
        m
    };
    if n == *v {
        false
    } else {
        *v = n;
        true
    }
}

/// Moves a choice by `dir` among `min..=max`, wrapping around.
pub fn choice_adj(v: &mut i32, min: i32, max: i32, dir: i32) -> (changed: bool)
    requires
        min <= max,
        -1000 <= min,
        max <= 1000,
        dir == -1 || dir == 1,
    ensures
        (*final(v), changed) == cycled(*old(v), min, max, dir),
{
    let cur = if *v < min {
        min
    } else if *v > max {
        max
    } else {
        *v
    };
    let mut n = cur + dir;
    if n < min {
        n = max;
    } else if n > max {
        n = min;
    }
    if n == cur {
        false
    } else {
        *v = n;
        true
    }
}

/// A choice stepped forward and back again is where it started, and a
/// changed choice stays in range.
pub proof fn lemma_choice_round_trip(v: i32, min: i32, max: i32)
    requires
        min < max,
        min <= v <= max,
    ensures
        cycled(cycled(v, min, max, 1i32).0, min, max, -1i32).0 == v,
        cycled(cycled(v, min, max, -1i32).0, min, max, 1i32).0 == v,
        min <= cycled(v, min, max, 1i32).0 <= max,
        min <= cycled(v, min, max, -1i32).0 <= max,
{
}

/// A number moved by the menu never leaves `[min, max]` once it is in it.
pub proof fn lemma_step_in_range(v: i32, min: i32, max: i32, step: i32, dir: i32)
    requires
        min <= v <= max,
        0 < step,
        dir == -1 || dir == 1,
    ensures
        min <= stepped(v, min, max, step, dir).0 <= max,
{
}

/// The row of the renderer choice the state shows: 0 automatic, then
/// Direct3D 9, OpenGL, OpenGL core, GDI (an unknown renderer shows as
/// Direct3D 9).
pub open spec fn renderer_index_spec(g: GraphicsConfig) -> int {
    if g.auto_renderer {
        0
    } else if g.renderer == RENDERER_D3D9 {
        1
    } else if g.renderer == RENDERER_OPENGL {
        2
    } else if g.renderer == RENDERER_OPENGL_CORE {
        3
    } else if g.renderer == RENDERER_GDI {
        4
    } else {
        1
    }
}

/// The renderer choice row shown for the state.
pub fn renderer_index(st: &DDrawState) -> (r: i32)
    ensures
        r == renderer_index_spec(st.gfx),
        0 <= r <= 4,
{
    if st.gfx.auto_renderer {
        0
    } else if st.gfx.renderer == RENDERER_D3D9 {
        1
    } else if st.gfx.renderer == RENDERER_OPENGL {
        2
    } else if st.gfx.renderer == RENDERER_OPENGL_CORE {
        3
    } else if st.gfx.renderer == RENDERER_GDI {
        4
    } else {
        1
    }
}

/// `i + dir` wrapped into `0..=last`.
pub open spec fn wrap(i: int, dir: int, last: int) -> int {
    let n = i + dir;
    if n < 0 { last } else if n > last { 0 } else { n }
}

/// The renderer setting for choice row `n`: automatic (Direct3D 9 as the
/// start), or a fixed renderer.
pub open spec fn renderer_for_index(n: int) -> (i32, bool) {
    if n == 0 {
        (RENDERER_D3D9, true)
    } else if n == 1 {
        (RENDERER_D3D9, false)
    } else if n == 2 {
        (RENDERER_OPENGL, false)
    } else if n == 3 {
        (RENDERER_OPENGL_CORE, false)
    } else {
        (RENDERER_GDI, false)
    }
}

/// The renderer settings after moving the renderer choice by `dir`.
pub open spec fn renderer_moved(g: GraphicsConfig, dir: int) -> GraphicsConfig {
    let n = wrap(renderer_index_spec(g), dir, 4);
    GraphicsConfig { renderer: renderer_for_index(n).0, auto_renderer: renderer_for_index(n).1, ..g }
}

fn move_renderer(g: &mut GraphicsConfig, dir: i32) -> (changed: bool)
    requires
        dir == -1 || dir == 1,
    ensures
        changed == (wrap(renderer_index_spec(*old(g)), dir as int, 4) != renderer_index_spec(*old(g))),
        changed ==> *final(g) == renderer_moved(*old(g), dir as int),
        !changed ==> *final(g) == *old(g),
{
    let cur: i32 = if g.auto_renderer {
        0
    } else if g.renderer == RENDERER_D3D9 {
        1
    } else if g.renderer == RENDERER_OPENGL {
        2
    } else if g.renderer == RENDERER_OPENGL_CORE {
        3
    } else if g.renderer == RENDERER_GDI {
        4
    } else {
        1
    };
    let mut n = cur + dir;
    if n < 0 {
        n = 4;
    } else if n > 4 {
        n = 0;
    }
    if n == cur {
        return false;
    }
    if n == 0 {
        g.auto_renderer = true;
        g.renderer = RENDERER_D3D9;
    } else if n == 1 {
        g.renderer = RENDERER_D3D9;
        g.auto_renderer = false;
    } else if n == 2 {
        g.renderer = RENDERER_OPENGL;
        g.auto_renderer = false;
    } else if n == 3 {
        g.renderer = RENDERER_OPENGL_CORE;
        g.auto_renderer = false;
    } else {
        g.renderer = RENDERER_GDI;
        g.auto_renderer = false;
    }
    true
}

/// Moves the renderer choice by `dir`, wrapping around.
pub fn write_renderer(st: &mut DDrawState, dir: i32) -> (changed: bool)
    requires
        dir == -1 || dir == 1,
    ensures
        changed == (wrap(renderer_index_spec(old(st).gfx), dir as int, 4) != renderer_index_spec(old(st).gfx)),
        changed ==> final(st).gfx == renderer_moved(old(st).gfx, dir as int),
        !changed ==> final(st).gfx == old(st).gfx,
        *final(st) == (DDrawState { gfx: final(st).gfx, ..*old(st) }),
{
    move_renderer(&mut st.gfx, dir)
}

/// The row of the reported-version choice: 3 Windows 7 (6.1), 2 Vista
/// (6.0), 1 XP (5.1), 0 the real version.
pub open spec fn fakever_index_spec(v: (u32, u32)) -> int {
    if v == (6u32, 1u32) {
        3
    } else if v == (6u32, 0u32) {
        2
    } else if v == (5u32, 1u32) {
        1
    } else {
        0
    }
}

/// The version a reported-version row stands for.
pub open spec fn version_for_index(n: int) -> (u32, u32) {
    if n == 1 {
        (5, 1)
    } else if n == 2 {
        (6, 0)
    } else if n == 3 {
        (6, 1)
    } else {
        (0, 0)
    }
}

/// The reported-version row shown for the state.
pub fn fakever_index(st: &DDrawState) -> (r: i32)
    ensures
        r == fakever_index_spec(st.window.fake_version),
{
    let v = st.window.fake_version;
    if v.0 == 6 && v.1 == 1 {
        3
    } else if v.0 == 6 && v.1 == 0 {
        2
    } else if v.0 == 5 && v.1 == 1 {
        1
    } else {
        0
    }
}

/// Moves the reported-version choice by `dir`, wrapping around.
pub fn write_fakever(st: &mut DDrawState, dir: i32) -> (changed: bool)
    requires
        dir == -1 || dir == 1,
    ensures
        changed == (wrap(fakever_index_spec(old(st).window.fake_version), dir as int, 3)
            != fakever_index_spec(old(st).window.fake_version)),
        changed ==> *final(st) == (DDrawState {
            window: WindowConfig {
                fake_version: version_for_index(wrap(fakever_index_spec(old(st).window.fake_version), dir as int, 3)),
                ..old(st).window
            },
            ..*old(st)
        }),
        !changed ==> *final(st) == *old(st),
{
    let cur = fakever_index(st);
    let mut n = cur + dir;
    if n < 0 {
        n = 3;
    } else if n > 3 {
        n = 0;
    }
    if n == cur {
        return false;
    }
    st.window.fake_version = if n == 1 {
        (5, 1)
    } else if n == 2 {
        (6, 0)
    } else if n == 3 {
        (6, 1)
    } else {
        (0, 0)
    };
    true
}

/// The bytes with ASCII letters lowered.
pub open spec fn lowered(b: Seq<u8>) -> Seq<u8> {
    Seq::new(b.len(), |i: int| lower(b[i]))
}

/// `b` lowered starts with `w`.
pub open spec fn has_prefix_lower(b: Seq<u8>, w: Seq<u8>) -> bool {
    b.len() >= w.len() && forall|k: int| 0 <= k < w.len() ==> lower(#[trigger] b[k]) == w[k]
}

/// `b` lowered holds `w` at offset `i`.
pub open spec fn match_at(b: Seq<u8>, w: Seq<u8>, i: int) -> bool {
    0 <= i && i + w.len() <= b.len() && forall|k: int| 0 <= k < w.len() ==> lower(#[trigger] b[i + k]) == w[k]
}

/// `b` lowered contains `w`.
pub open spec fn contains_lower(b: Seq<u8>, w: Seq<u8>) -> bool {
    exists|i: int| match_at(b, w, i)
}

fn prefix_ignore(b: &[u8], w: &[u8]) -> (r: bool)
    ensures
        r == has_prefix_lower(b@, w@),
{
    if b.len() < w.len() {
        return false;
    }
    let mut k: usize = 0;
    while k < w.len()
        invariant
            w@.len() <= b@.len(),
            k <= w@.len(),
            forall|j: int| 0 <= j < k ==> lower(#[trigger] b@[j]) == w@[j],
        decreases w@.len() - k,
    {
        let x = b[k];
        let lx: u8 = if 65 <= x && x <= 90 { x + 32 } else { x };
        if lx != w[k] {
            return false;
        }
        k = k + 1;
    }
    true
}

fn contains_ignore(b: &[u8], w: &[u8]) -> (r: bool)
    ensures
        r == contains_lower(b@, w@),
{
    if b.len() < w.len() {
        assert(forall|i: int| !match_at(b@, w@, i));
        return false;
    }
    if w.len() == 0 {
        assert(match_at(b@, w@, 0));
        return true;
    }
    let last = b.len() - w.len();
    let mut i: usize = 0;
    while i <= last
        invariant
            last + w@.len() == b@.len(),
            b@.len() == b.len(),
            w@.len() > 0,
            i <= last + 1,
            forall|j: int| 0 <= j < i ==> !match_at(b@, w@, j),
        decreases last + 1 - i,
    {
        let mut k: usize = 0;
        let mut ok = true;
        while k < w.len()
            invariant
                i <= last,
                last + w@.len() == b@.len(),
                b@.len() == b.len(),
                w@.len() > 0,
                k <= w@.len(),
                ok ==> forall|j: int| 0 <= j < k ==> lower(#[trigger] b@[i + j]) == w@[j],
                !ok ==> !match_at(b@, w@, i as int),
            decreases w@.len() - k,
        {
            let x = b[i + k];
            let lx: u8 = if 65 <= x && x <= 90 { x + 32 } else { x };
            if lx != w[k] {
                ok = false;
                assert(lower(b@[i + k]) != w@[k as int]);
            }
            k = k + 1;
        }
        if ok {
            assert(match_at(b@, w@, i as int));
            return true;
        }
        i = i + 1;
    }
    assert forall|j: int| !match_at(b@, w@, j) by {
        if 0 <= j && j + w@.len() <= b@.len() {
            assert(j <= last);
        }
    }
    false
}

/// The shader choice row a shader name shows as: 0 default (empty), 1
/// names starting with `nearest`, 2 with `bilinear`, 3 containing
/// `catmull`, 4 `lanczos`, 5 `xbr` (ignoring case and surrounding space);
/// any other name shows as the default.
pub open spec fn shader_index_spec(name: Seq<char>) -> int {
    let b = utf8(trim_spec(name));
    if b.len() == 0 {
        0
    } else if has_prefix_lower(b, utf8("nearest"@)) {
        1
    } else if has_prefix_lower(b, utf8("bilinear"@)) {
        2
    } else if contains_lower(b, utf8("catmull"@)) {
        3
    } else if contains_lower(b, utf8("lanczos"@)) {
        4
    } else if contains_lower(b, utf8("xbr"@)) {
        5
    } else {
        0
    }
}

/// The shader choice row shown for the state.
pub fn shader_index(st: &DDrawState) -> (r: i32)
    ensures
        r == shader_index_spec(st.shaders.shader@),
        0 <= r <= 5,
{
    let t = trim_str(st.shaders.shader.as_str());
    let b = t.as_bytes();
    if b.len() == 0 {
        0
    } else if prefix_ignore(b, "nearest".as_bytes()) {
        1
    } else if prefix_ignore(b, "bilinear".as_bytes()) {
        2
    } else if contains_ignore(b, "catmull".as_bytes()) {
        3
    } else if contains_ignore(b, "lanczos".as_bytes()) {
        4
    } else if contains_ignore(b, "xbr".as_bytes()) {
        5
    } else {
        0
    }
}

/// The shader file name a shader choice row stands for.
pub open spec fn shader_name(n: int) -> Seq<char> {
    if n == 0 {
        ""@
    } else if n == 1 {
        "nearest"@
    } else if n == 2 {
        "bilinear"@
    } else if n == 3 {
        "catmull-rom"@
    } else if n == 4 {
        "lanczos"@
    } else {
        "xbr"@
    }
}

/// Moves the shader choice by `dir`, wrapping around.
pub fn write_shader(st: &mut DDrawState, dir: i32) -> (changed: bool)
    requires
        dir == -1 || dir == 1,
    ensures
        changed == (wrap(shader_index_spec(old(st).shaders.shader@), dir as int, 5)
            != shader_index_spec(old(st).shaders.shader@)),
        changed ==> final(st).shaders.shader@ == shader_name(
            wrap(shader_index_spec(old(st).shaders.shader@), dir as int, 5),
        ),
        !changed ==> final(st).shaders.shader@ == old(st).shaders.shader@,
        final(st).shaders.shaderpath@ == old(st).shaders.shaderpath@,
        final(st).shaders.shaderpath_pass1@ == old(st).shaders.shaderpath_pass1@,
        *final(st) == (DDrawState { shaders: final(st).shaders, ..*old(st) }),
{
    let cur = shader_index(st);
    let mut n = cur + dir;
    if n < 0 {
        n = 5;
    } else if n > 5 {
        n = 0;
    }
    if n == cur {
        return false;
    }
    let name = if n == 0 {
        ""
    } else if n == 1 {
        "nearest"
    } else if n == 2 {
        "bilinear"
    } else if n == 3 {
        "catmull-rom"
    } else if n == 4 {
        "lanczos"
    } else {
        "xbr"
    };
    st.shaders.shader = String::from_str(name);
    true
}

/// Whether an item's number can be stepped without leaving `i32` (the
/// menu steps by at most 16).
pub open spec fn step_fits(st: DDrawState, page: int, code: int) -> bool {
    &&& (0 == page && 4 == code ==> -2147483648 + 16 <= st.limiter.maxfps <= 2147483647 - 16)
    &&& (0 == page && 5 == code ==> -2147483648 + 16 <= st.limiter.minfps <= 2147483647 - 16)
    &&& (0 == page && 6 == code ==> -2147483648 + 16 <= st.limiter.maxgameticks <= 2147483647 - 16)
    &&& (1 == page && 5 == code ==> -2147483648 + 16 <= st.modes.res_width <= 2147483647 - 16)
    &&& (1 == page && 6 == code ==> -2147483648 + 16 <= st.modes.res_height <= 2147483647 - 16)
    &&& (1 == page && 7 == code ==> -2147483648 + 16 <= st.compat.pos_x <= 2147483647 - 16)
    &&& (1 == page && 8 == code ==> -2147483648 + 16 <= st.compat.pos_y <= 2147483647 - 16)
    &&& (2 == page && 3 == code ==> -2147483648 + 16 <= st.modes.refresh_rate <= 2147483647 - 16)
    &&& (2 == page && 5 == code ==> -2147483648 + 16 <= st.modes.max_resolutions <= 2147483647 - 16)
    &&& (4 == page && 7 == code ==> -2147483648 + 16 <= st.compat.fixchilds <= 2147483647 - 16)
    &&& (5 == page && 0 == code ==> -2147483648 + 16 <= st.compat.savesettings <= 2147483647 - 16)
}

/// The items that live in the gfx settings.
pub open spec fn in_gfx(page: int, code: int) -> bool {
    (page == 0 && code == 1) || (page == 0 && code == 3)
}

/// An item of the gfx settings moved by `dir`: its field and whether it
/// changed; the other fields keep their values.
pub open spec fn gfx_post(pre: GraphicsConfig, post: GraphicsConfig, page: int, code: int, dir: i32, changed: bool) -> bool {
    if page == 0 && code == 1 {
        &&& (post.filter, changed) == cycled(pre.filter, 0i32, 4i32, dir)
        &&& post == (GraphicsConfig { filter: post.filter, ..pre })
    } else if page == 0 && code == 3 {
        &&& (post.swap_interval, changed) == switched(pre.swap_interval)
        &&& post == (GraphicsConfig { swap_interval: post.swap_interval, ..pre })
    } else {
        !changed && post == pre
    }
}

fn adjust_gfx(c: &mut GraphicsConfig, page: usize, code: usize, dir: i32) -> (changed: bool)
    requires
        dir == -1 || dir == 1,
        in_gfx(page as int, code as int),
    ensures
        gfx_post(*old(c), *final(c), page as int, code as int, dir, changed),
{
    if page == 0 && code == 1 {
        choice_adj(&mut c.filter, 0, 4, dir)
    } else {
        int_switch(&mut c.swap_interval)
    }
}

/// The items that live in the limiter settings.
pub open spec fn in_limiter(page: int, code: int) -> bool {
    (page == 0 && code == 4) || (page == 0 && code == 5) || (page == 0 && code == 6) || (page == 0 && code == 7)
}

/// An item of the limiter settings moved by `dir`: its field and whether it
/// changed; the other fields keep their values.
pub open spec fn limiter_post(pre: LimiterConfig, post: LimiterConfig, page: int, code: int, dir: i32, changed: bool) -> bool {
    if page == 0 && code == 4 {
        &&& (post.maxfps, changed) == stepped(pre.maxfps, 0i32, 1000i32, 5i32, dir)
        &&& post == (LimiterConfig { maxfps: post.maxfps, ..pre })
    } else if page == 0 && code == 5 {
        &&& (post.minfps, changed) == stepped(pre.minfps, 0i32, 200i32, 5i32, dir)
        &&& post == (LimiterConfig { minfps: post.minfps, ..pre })
    } else if page == 0 && code == 6 {
        &&& (post.maxgameticks, changed) == stepped(pre.maxgameticks, -2i32, 120i32, 1i32, dir)
        &&& post == (LimiterConfig { maxgameticks: post.maxgameticks, ..pre })
    } else if page == 0 && code == 7 {
        &&& (post.limiter_type, changed) == cycled(pre.limiter_type, 0i32, 4i32, dir)
        &&& post == (LimiterConfig { limiter_type: post.limiter_type, ..pre })
    } else {
        !changed && post == pre
    }
}

fn adjust_limiter(c: &mut LimiterConfig, page: usize, code: usize, dir: i32) -> (changed: bool)
    requires
        dir == -1 || dir == 1,
        in_limiter(page as int, code as int),
        page == 0 && code == 4 ==> -2147483648 + 16 <= old(c).maxfps <= 2147483647 - 16,
        page == 0 && code == 5 ==> -2147483648 + 16 <= old(c).minfps <= 2147483647 - 16,
        page == 0 && code == 6 ==> -2147483648 + 16 <= old(c).maxgameticks <= 2147483647 - 16,
    ensures
        limiter_post(*old(c), *final(c), page as int, code as int, dir, changed),
{
    if page == 0 && code == 4 {
        int_adj(&mut c.maxfps, 0, 1000, 5, dir)
    } else if page == 0 && code == 5 {
        int_adj(&mut c.minfps, 0, 200, 5, dir)
    } else if page == 0 && code == 6 {
        int_adj(&mut c.maxgameticks, -2, 120, 1, dir)
    } else {
        choice_adj(&mut c.limiter_type, 0, 4, dir)
    }
}

/// The items that live in the window settings.
pub open spec fn in_window(page: int, code: int) -> bool {
    (page == 1 && code == 0) || (page == 1 && code == 1) || (page == 1 && code == 2)
}

/// An item of the window settings moved by `dir`: its field and whether it
/// changed; the other fields keep their values.
pub open spec fn window_post(pre: WindowConfig, post: WindowConfig, page: int, code: int, dir: i32, changed: bool) -> bool {
    if page == 1 && code == 0 {
        &&& (post.center_window, changed) == cycled(pre.center_window, 0i32, 2i32, dir)
        &&& post == (WindowConfig { center_window: post.center_window, ..pre })
    } else if page == 1 && code == 1 {
        &&& (post.border, changed) == (!pre.border, true)
        &&& post == (WindowConfig { border: post.border, ..pre })
    } else if page == 1 && code == 2 {
        &&& (post.resizable, changed) == (!pre.resizable, true)
        &&& post == (WindowConfig { resizable: post.resizable, ..pre })
    } else {
        !changed && post == pre
    }
}

fn adjust_window(c: &mut WindowConfig, page: usize, code: usize, dir: i32) -> (changed: bool)
    requires
        dir == -1 || dir == 1,
        in_window(page as int, code as int),
    ensures
        window_post(*old(c), *final(c), page as int, code as int, dir, changed),
{
    if page == 1 && code == 0 {
        choice_adj(&mut c.center_window, 0, 2, dir)
    } else if page == 1 && code == 1 {
        bool_toggle(&mut c.border)
    } else {
        bool_toggle(&mut c.resizable)
    }
}

/// The items that live in the modes settings.
pub open spec fn in_modes(page: int, code: int) -> bool {
    (page == 1 && code == 5) || (page == 1 && code == 6) || (page == 2 && code == 3) || (page == 2 && code == 4) || (page == 2 && code == 5)
}

/// An item of the modes settings moved by `dir`: its field and whether it
/// changed; the other fields keep their values.
pub open spec fn modes_post(pre: ModeConfig, post: ModeConfig, page: int, code: int, dir: i32, changed: bool) -> bool {
    if page == 1 && code == 5 {
        &&& (post.res_width, changed) == stepped(pre.res_width, 0i32, 10240i32, 16i32, dir)
        &&& post == (ModeConfig { res_width: post.res_width, ..pre })
    } else if page == 1 && code == 6 {
        &&& (post.res_height, changed) == stepped(pre.res_height, 0i32, 7680i32, 16i32, dir)
        &&& post == (ModeConfig { res_height: post.res_height, ..pre })
    } else if page == 2 && code == 3 {
        &&& (post.refresh_rate, changed) == stepped(pre.refresh_rate, 0i32, 240i32, 1i32, dir)
        &&& post == (ModeConfig { refresh_rate: post.refresh_rate, ..pre })
    } else if page == 2 && code == 4 {
        &&& (post.resolutions, changed) == cycled(pre.resolutions, 0i32, 2i32, dir)
        &&& post == (ModeConfig { resolutions: post.resolutions, ..pre })
    } else if page == 2 && code == 5 {
        &&& (post.max_resolutions, changed) == stepped(pre.max_resolutions, 0i32, 200i32, 4i32, dir)
        &&& post == (ModeConfig { max_resolutions: post.max_resolutions, ..pre })
    } else {
        !changed && post == pre
    }
}

fn adjust_modes(c: &mut ModeConfig, page: usize, code: usize, dir: i32) -> (changed: bool)
    requires
        dir == -1 || dir == 1,
        in_modes(page as int, code as int),
        page == 1 && code == 5 ==> -2147483648 + 16 <= old(c).res_width <= 2147483647 - 16,
        page == 1 && code == 6 ==> -2147483648 + 16 <= old(c).res_height <= 2147483647 - 16,
        page == 2 && code == 3 ==> -2147483648 + 16 <= old(c).refresh_rate <= 2147483647 - 16,
        page == 2 && code == 5 ==> -2147483648 + 16 <= old(c).max_resolutions <= 2147483647 - 16,
    ensures
        modes_post(*old(c), *final(c), page as int, code as int, dir, changed),
{
    if page == 1 && code == 5 {
        int_adj(&mut c.res_width, 0, 10240, 16, dir)
    } else if page == 1 && code == 6 {
        int_adj(&mut c.res_height, 0, 7680, 16, dir)
    } else if page == 2 && code == 3 {
        int_adj(&mut c.refresh_rate, 0, 240, 1, dir)
    } else if page == 2 && code == 4 {
        choice_adj(&mut c.resolutions, 0, 2, dir)
    } else {
        int_adj(&mut c.max_resolutions, 0, 200, 4, dir)
    }
}

/// The items that live in the compat settings.
pub open spec fn in_compat(page: int, code: int) -> bool {
    (page == 1 && code == 7) || (page == 1 && code == 8) || (page == 4 && code == 0) || (page == 4 && code == 1) || (page == 4 && code == 2) || (page == 4 && code == 3) || (page == 4 && code == 4) || (page == 4 && code == 5) || (page == 4 && code == 6) || (page == 4 && code == 7) || (page == 4 && code == 8) || (page == 4 && code == 9) || (page == 5 && code == 0)
}

/// An item of the compat settings moved by `dir`: its field and whether it
/// changed; the other fields keep their values.
pub open spec fn compat_post(pre: CompatConfig, post: CompatConfig, page: int, code: int, dir: i32, changed: bool) -> bool {
    if page == 1 && code == 7 {
        &&& (post.pos_x, changed) == stepped(pre.pos_x, -32000i32, 32767i32, 8i32, dir)
        &&& post == (CompatConfig { pos_x: post.pos_x, ..pre })
    } else if page == 1 && code == 8 {
        &&& (post.pos_y, changed) == stepped(pre.pos_y, -32000i32, 32767i32, 8i32, dir)
        &&& post == (CompatConfig { pos_y: post.pos_y, ..pre })
    } else if page == 4 && code == 0 {
        &&& (post.nonexclusive, changed) == (!pre.nonexclusive, true)
        &&& post == (CompatConfig { nonexclusive: post.nonexclusive, ..pre })
    } else if page == 4 && code == 1 {
        &&& (post.tshack, changed) == (!pre.tshack, true)
        &&& post == (CompatConfig { tshack: post.tshack, ..pre })
    } else if page == 4 && code == 2 {
        &&& (post.flipclear, changed) == (!pre.flipclear, true)
        &&& post == (CompatConfig { flipclear: post.flipclear, ..pre })
    } else if page == 4 && code == 3 {
        &&& (post.lock_surfaces, changed) == (!pre.lock_surfaces, true)
        &&& post == (CompatConfig { lock_surfaces: post.lock_surfaces, ..pre })
    } else if page == 4 && code == 4 {
        &&& (post.noactivateapp, changed) == (!pre.noactivateapp, true)
        &&& post == (CompatConfig { noactivateapp: post.noactivateapp, ..pre })
    } else if page == 4 && code == 5 {
        &&& (post.fix_not_responding, changed) == (!pre.fix_not_responding, true)
        &&& post == (CompatConfig { fix_not_responding: post.fix_not_responding, ..pre })
    } else if page == 4 && code == 6 {
        &&& (post.fix_alt_key_stuck, changed) == (!pre.fix_alt_key_stuck, true)
        &&& post == (CompatConfig { fix_alt_key_stuck: post.fix_alt_key_stuck, ..pre })
    } else if page == 4 && code == 7 {
        &&& (post.fixchilds, changed) == stepped(pre.fixchilds, 0i32, 4i32, 1i32, dir)
        &&& post == (CompatConfig { fixchilds: post.fixchilds, ..pre })
    } else if page == 4 && code == 8 {
        &&& (post.remove_menu, changed) == (!pre.remove_menu, true)
        &&& post == (CompatConfig { remove_menu: post.remove_menu, ..pre })
    } else if page == 4 && code == 9 {
        &&& (post.terminate_process, changed) == (!pre.terminate_process, true)
        &&& post == (CompatConfig { terminate_process: post.terminate_process, ..pre })
    } else if page == 5 && code == 0 {
        &&& (post.savesettings, changed) == stepped(pre.savesettings, 0i32, 2i32, 1i32, dir)
        &&& post == (CompatConfig { savesettings: post.savesettings, ..pre })
    } else {
        !changed && post == pre
    }
}

fn adjust_compat(c: &mut CompatConfig, page: usize, code: usize, dir: i32) -> (changed: bool)
    requires
        dir == -1 || dir == 1,
        in_compat(page as int, code as int),
        page == 1 && code == 7 ==> -2147483648 + 16 <= old(c).pos_x <= 2147483647 - 16,
        page == 1 && code == 8 ==> -2147483648 + 16 <= old(c).pos_y <= 2147483647 - 16,
        page == 4 && code == 7 ==> -2147483648 + 16 <= old(c).fixchilds <= 2147483647 - 16,
        page == 5 && code == 0 ==> -2147483648 + 16 <= old(c).savesettings <= 2147483647 - 16,
    ensures
        compat_post(*old(c), *final(c), page as int, code as int, dir, changed),
{
    if page == 4 && code != 7 {
        adjust_compat_switch(c, code)
    } else if page == 1 && code == 7 {
        int_adj(&mut c.pos_x, -32000, 32767, 8, dir)
    } else if page == 1 && code == 8 {
        int_adj(&mut c.pos_y, -32000, 32767, 8, dir)
    } else if page == 4 && code == 7 {
        int_adj(&mut c.fixchilds, 0, 4, 1, dir)
    } else {
        int_adj(&mut c.savesettings, 0, 2, 1, dir)
    }
}

#[verifier::rlimit(50)]
fn adjust_compat_switch(c: &mut CompatConfig, code: usize) -> (changed: bool)
    requires
        code <= 9 && code != 7,
    ensures
        compat_post(*old(c), *final(c), 4, code as int, 1, changed),
{
    if code == 0 {
        bool_toggle(&mut c.nonexclusive)
    } else if code == 1 {
        bool_toggle(&mut c.tshack)
    } else if code == 2 {
        bool_toggle(&mut c.flipclear)
    } else if code == 3 {
        bool_toggle(&mut c.lock_surfaces)
    } else if code == 4 {
        bool_toggle(&mut c.noactivateapp)
    } else if code == 5 {
        bool_toggle(&mut c.fix_not_responding)
    } else if code == 6 {
        bool_toggle(&mut c.fix_alt_key_stuck)
    } else if code == 8 {
        bool_toggle(&mut c.remove_menu)
    } else {
        bool_toggle(&mut c.terminate_process)
    }
}

/// The items that live in the scaling settings.
pub open spec fn in_scaling(page: int, code: int) -> bool {
    (page == 2 && code == 0) || (page == 2 && code == 1) || (page == 2 && code == 2) || (page == 5 && code == 1)
}

/// An item of the scaling settings moved by `dir`: its field and whether it
/// changed; the other fields keep their values.
pub open spec fn scaling_post(pre: ScalingConfig, post: ScalingConfig, page: int, code: int, dir: i32, changed: bool) -> bool {
    if page == 2 && code == 0 {
        &&& (post.maintain_aspect_ratio, changed) == (!pre.maintain_aspect_ratio, true)
        &&& post == (ScalingConfig { maintain_aspect_ratio: post.maintain_aspect_ratio, ..pre })
    } else if page == 2 && code == 1 {
        &&& (post.windowboxing, changed) == (!pre.windowboxing, true)
        &&& post == (ScalingConfig { windowboxing: post.windowboxing, ..pre })
    } else if page == 2 && code == 2 {
        &&& (post.stretch_to_fullscreen, changed) == (!pre.stretch_to_fullscreen, true)
        &&& post == (ScalingConfig { stretch_to_fullscreen: post.stretch_to_fullscreen, ..pre })
    } else if page == 5 && code == 1 {
        &&& (post.draw_fps, changed) == (!pre.draw_fps, true)
        &&& post == (ScalingConfig { draw_fps: post.draw_fps, ..pre })
    } else {
        !changed && post == pre
    }
}

fn adjust_scaling(c: &mut ScalingConfig, page: usize, code: usize, dir: i32) -> (changed: bool)
    requires
        dir == -1 || dir == 1,
        in_scaling(page as int, code as int),
    ensures
        scaling_post(*old(c), *final(c), page as int, code as int, dir, changed),
{
    if page == 2 && code == 0 {
        bool_toggle(&mut c.maintain_aspect_ratio)
    } else if page == 2 && code == 1 {
        bool_toggle(&mut c.windowboxing)
    } else if page == 2 && code == 2 {
        bool_toggle(&mut c.stretch_to_fullscreen)
    } else {
        bool_toggle(&mut c.draw_fps)
    }
}

/// The items that live in the input settings.
pub open spec fn in_input(page: int, code: int) -> bool {
    (page == 3 && code == 0) || (page == 3 && code == 2) || (page == 3 && code == 3) || (page == 5 && code == 2) || (page == 5 && code == 3)
}

/// An item of the input settings moved by `dir`: its field and whether it
/// changed; the other fields keep their values.
pub open spec fn input_post(pre: InputConfig, post: InputConfig, page: int, code: int, dir: i32, changed: bool) -> bool {
    if page == 3 && code == 0 {
        &&& (post.adjmouse, changed) == (!pre.adjmouse, true)
        &&& post == (InputConfig { adjmouse: post.adjmouse, ..pre })
    } else if page == 3 && code == 2 {
        &&& (post.lock_mouse_top_left, changed) == (!pre.lock_mouse_top_left, true)
        &&& post == (InputConfig { lock_mouse_top_left: post.lock_mouse_top_left, ..pre })
    } else if page == 3 && code == 3 {
        &&& (post.center_cursor_fix, changed) == (!pre.center_cursor_fix, true)
        &&& post == (InputConfig { center_cursor_fix: post.center_cursor_fix, ..pre })
    } else if page == 5 && code == 2 {
        &&& (post.hook_peekmessage, changed) == (!pre.hook_peekmessage, true)
        &&& post == (InputConfig { hook_peekmessage: post.hook_peekmessage, ..pre })
    } else if page == 5 && code == 3 {
        &&& (post.no_dinput_hook, changed) == (!pre.no_dinput_hook, true)
        &&& post == (InputConfig { no_dinput_hook: post.no_dinput_hook, ..pre })
    } else {
        !changed && post == pre
    }
}

fn adjust_input(c: &mut InputConfig, page: usize, code: usize, dir: i32) -> (changed: bool)
    requires
        dir == -1 || dir == 1,
        in_input(page as int, code as int),
    ensures
        input_post(*old(c), *final(c), page as int, code as int, dir, changed),
{
    if page == 3 && code == 0 {
        bool_toggle(&mut c.adjmouse)
    } else if page == 3 && code == 2 {
        bool_toggle(&mut c.lock_mouse_top_left)
    } else if page == 3 && code == 3 {
        bool_toggle(&mut c.center_cursor_fix)
    } else if page == 5 && code == 2 {
        bool_toggle(&mut c.hook_peekmessage)
    } else {
        bool_toggle(&mut c.no_dinput_hook)
    }
}

/// The state after `write` changes item `code` of `page` by `dir`, and
/// whether anything changed: each item moves its own field (switches flip,
/// numbers step within their range, choices cycle) and nothing else;
/// actions, text rows and unknown items change nothing.
pub open spec fn write_post(pre: DDrawState, post: DDrawState, page: int, code: int, dir: i32, changed: bool) -> bool {
    if in_gfx(page, code) {
        &&& gfx_post(pre.gfx, post.gfx, page, code, dir, changed)
        &&& post == (DDrawState { gfx: post.gfx, ..pre })
    } else if in_limiter(page, code) {
        &&& limiter_post(pre.limiter, post.limiter, page, code, dir, changed)
        &&& post == (DDrawState { limiter: post.limiter, ..pre })
    } else if in_window(page, code) {
        &&& window_post(pre.window, post.window, page, code, dir, changed)
        &&& post == (DDrawState { window: post.window, ..pre })
    } else if in_modes(page, code) {
        &&& modes_post(pre.modes, post.modes, page, code, dir, changed)
        &&& post == (DDrawState { modes: post.modes, ..pre })
    } else if in_compat(page, code) {
        &&& compat_post(pre.compat, post.compat, page, code, dir, changed)
        &&& post == (DDrawState { compat: post.compat, ..pre })
    } else if in_scaling(page, code) {
        &&& scaling_post(pre.scaling, post.scaling, page, code, dir, changed)
        &&& post == (DDrawState { scaling: post.scaling, ..pre })
    } else if in_input(page, code) {
        &&& input_post(pre.input, post.input, page, code, dir, changed)
        &&& post == (DDrawState { input: post.input, ..pre })
    } else if page == 0 && code == 0 {
        &&& changed == (wrap(renderer_index_spec(pre.gfx), dir as int, 4) != renderer_index_spec(pre.gfx))
        &&& changed ==> post.gfx == renderer_moved(pre.gfx, dir as int)
        &&& !changed ==> post.gfx == pre.gfx
        &&& post == (DDrawState { gfx: post.gfx, ..pre })
    } else if page == 0 && code == 2 {
        &&& changed == (wrap(shader_index_spec(pre.shaders.shader@), dir as int, 5) != shader_index_spec(pre.shaders.shader@))
        &&& changed ==> post.shaders.shader@ == shader_name(wrap(shader_index_spec(pre.shaders.shader@), dir as int, 5))
        &&& !changed ==> post.shaders.shader@ == pre.shaders.shader@
        &&& post.shaders.shaderpath@ == pre.shaders.shaderpath@
        &&& post.shaders.shaderpath_pass1@ == pre.shaders.shaderpath_pass1@
        &&& post == (DDrawState { shaders: post.shaders, ..pre })
    } else if page == 4 && code == 10 {
        &&& changed == (wrap(fakever_index_spec(pre.window.fake_version), dir as int, 3) != fakever_index_spec(pre.window.fake_version))
        &&& changed ==> post == (DDrawState {
            window: WindowConfig {
                fake_version: version_for_index(wrap(fakever_index_spec(pre.window.fake_version), dir as int, 3)),
                ..pre.window
            },
            ..pre
        })
        &&& !changed ==> post == pre
    } else {
        !changed && post == pre
    }
}

/// Applies a left (-1) or right (+1) press to item `code` of `page`;
/// returns whether the state changed.
pub fn write_item(st: &mut DDrawState, page: usize, code: usize, dir: i32) -> (changed: bool)
    requires
        dir == -1 || dir == 1,
        step_fits(*old(st), page as int, code as int),
    ensures
        write_post(*old(st), *final(st), page as int, code as int, dir, changed),
{
    if (page == 0 && code == 1) || (page == 0 && code == 3) {
        adjust_gfx(&mut st.gfx, page, code, dir)
    } else if (page == 0 && code == 4) || (page == 0 && code == 5) || (page == 0 && code == 6) || (page == 0 && code == 7) {
        adjust_limiter(&mut st.limiter, page, code, dir)
    } else if (page == 1 && code == 0) || (page == 1 && code == 1) || (page == 1 && code == 2) {
        adjust_window(&mut st.window, page, code, dir)
    } else if (page == 1 && code == 5) || (page == 1 && code == 6) || (page == 2 && code == 3) || (page == 2 && code == 4) || (page == 2 && code == 5) {
        adjust_modes(&mut st.modes, page, code, dir)
    } else if (page == 1 && code == 7) || (page == 1 && code == 8) || (page == 4 && code == 0) || (page == 4 && code == 1) || (page == 4 && code == 2) || (page == 4 && code == 3) || (page == 4 && code == 4) || (page == 4 && code == 5) || (page == 4 && code == 6) || (page == 4 && code == 7) || (page == 4 && code == 8) || (page == 4 && code == 9) || (page == 5 && code == 0) {
        adjust_compat(&mut st.compat, page, code, dir)
    } else if (page == 2 && code == 0) || (page == 2 && code == 1) || (page == 2 && code == 2) || (page == 5 && code == 1) {
        adjust_scaling(&mut st.scaling, page, code, dir)
    } else if (page == 3 && code == 0) || (page == 3 && code == 2) || (page == 3 && code == 3) || (page == 5 && code == 2) || (page == 5 && code == 3) {
        adjust_input(&mut st.input, page, code, dir)
    } else if page == 0 && code == 0 {
        write_renderer(st, dir)
    } else if page == 0 && code == 2 {
        write_shader(st, dir)
    } else if page == 4 && code == 10 {
        write_fakever(st, dir)
    } else {
        false
    }
}

/// The choice lists the menu shows.
#[derive(Clone, Copy, PartialEq, Eq, Debug)]
pub enum Choices {
    Renderer,
    Filter,
    Shader,
    Limiter,
    Center,
    Resolutions,
    FakeVer,
}

/// The last row of a choice list.
pub open spec fn last_row(list: Choices) -> int {
    match list {
        Choices::Renderer => 4,
        Choices::Filter => 4,
        Choices::Shader => 5,
        Choices::Limiter => 4,
        Choices::Center => 2,
        Choices::Resolutions => 2,
        Choices::FakeVer => 3,
    }
}

/// The label of row `i` of a choice list (the last row past the end).
pub open spec fn label(list: Choices, i: int) -> Seq<char> {
    match list {
        Choices::Renderer => if i == 0 {
            "自动"@
        } else if i == 1 {
            "D3D9"@
        } else if i == 2 {
            "OpenGL"@
        } else if i == 3 {
            "OpenGL核心"@
        } else {
            "GDI"@
        },
        Choices::Filter => if i == 0 {
            "最近邻"@
        } else if i == 1 {
            "双线性"@
        } else if i == 2 {
            "Catmull-Rom"@
        } else if i == 3 {
            "Lanczos"@
        } else {
            "xBR"@
        },
        Choices::Shader => if i == 0 {
            "默认"@
        } else if i == 1 {
            "nearest"@
        } else if i == 2 {
            "bilinear"@
        } else if i == 3 {
            "catmull-rom"@
        } else if i == 4 {
            "lanczos"@
        } else {
            "xbr"@
        },
        Choices::Limiter => if i == 0 {
            "自动"@
        } else if i == 1 {
            "TestCooperativeLevel"@
        } else if i == 2 {
            "BltFast"@
        } else if i == 3 {
            "Unlock"@
        } else {
            "PeekMessage"@
        },
        Choices::Center => if i == 0 {
            "从不"@
        } else if i == 1 {
            "自动居中"@
        } else {
            "总是居中"@
        },
        Choices::Resolutions => if i == 0 {
            "小"@
        } else if i == 1 {
            "中"@
        } else {
            "完整"@
        },
        Choices::FakeVer => if i == 0 {
            "真实版本"@
        } else if i == 1 {
            "Windows XP"@
        } else if i == 2 {
            "Windows Vista"@
        } else {
            "Windows 7"@
        },
    }
}

/// The label of row `i` of a choice list, `i` limited to the list.
pub fn pick(list: Choices, i: i32) -> (r: String)
    ensures
        r@ == label(list, clamp_int(i as int, 0, last_row(list))),
{
    let last: i32 = match list {
        Choices::Renderer => 4,
        Choices::Filter => 4,
        Choices::Shader => 5,
        Choices::Limiter => 4,
        Choices::Center => 2,
        Choices::Resolutions => 2,
        Choices::FakeVer => 3,
    };
    let j = if i < 0 {
        0
    } else if i > last {
        last
    } else {
        i
    };
    String::from_str(label_str(list, j))
}

fn label_str(list: Choices, i: i32) -> (r: &'static str)
    ensures
        r@ == label(list, i as int),
{
    match list {
        Choices::Renderer => if i == 0 {
            "自动"
        } else if i == 1 {
            "D3D9"
        } else if i == 2 {
            "OpenGL"
        } else if i == 3 {
            "OpenGL核心"
        } else {
            "GDI"
        },
        Choices::Filter => if i == 0 {
            "最近邻"
        } else if i == 1 {
            "双线性"
        } else if i == 2 {
            "Catmull-Rom"
        } else if i == 3 {
            "Lanczos"
        } else {
            "xBR"
        },
        Choices::Shader => if i == 0 {
            "默认"
        } else if i == 1 {
            "nearest"
        } else if i == 2 {
            "bilinear"
        } else if i == 3 {
            "catmull-rom"
        } else if i == 4 {
            "lanczos"
        } else {
            "xbr"
        },
        Choices::Limiter => if i == 0 {
            "自动"
        } else if i == 1 {
            "TestCooperativeLevel"
        } else if i == 2 {
            "BltFast"
        } else if i == 3 {
            "Unlock"
        } else {
            "PeekMessage"
        },
        Choices::Center => if i == 0 {
            "从不"
        } else if i == 1 {
            "自动居中"
        } else {
            "总是居中"
        },
        Choices::Resolutions => if i == 0 {
            "小"
        } else if i == 1 {
            "中"
        } else {
            "完整"
        },
        Choices::FakeVer => if i == 0 {
            "真实版本"
        } else if i == 1 {
            "Windows XP"
        } else if i == 2 {
            "Windows Vista"
        } else {
            "Windows 7"
        },
    }
}

/// The on / off label.
pub open spec fn on_off(b: bool) -> Seq<char> {
    if b { "开启"@ } else { "关闭"@ }
}

fn yn(b: bool) -> (r: String)
    ensures
        r@ == on_off(b),
{
    if b { String::from_str("开启") } else { String::from_str("关闭") }
}

/// The value text the menu shows for item `code` of `page`: on / off for
/// switches, the number for numbers, the row label for choices, the text for
/// text rows, nothing for actions and unknown items.
pub open spec fn read_spec(st: DDrawState, page: int, code: int) -> Seq<char> {
    if page == 0 && code == 0 {
        label(Choices::Renderer, renderer_index_spec(st.gfx))
    } else if page == 0 && code == 1 {
        label(Choices::Filter, clamp_int(st.gfx.filter as int, 0, 4))
    } else if page == 0 && code == 2 {
        label(Choices::Shader, shader_index_spec(st.shaders.shader@))
    } else if page == 0 && code == 3 {
        on_off(st.gfx.swap_interval > 0)
    } else if page == 0 && code == 4 {
        decimal_chars(st.limiter.maxfps as int)
    } else if page == 0 && code == 5 {
        decimal_chars(st.limiter.minfps as int)
    } else if page == 0 && code == 6 {
        decimal_chars(st.limiter.maxgameticks as int)
    } else if page == 0 && code == 7 {
        label(Choices::Limiter, clamp_int(st.limiter.limiter_type as int, 0, 4))
    } else if page == 1 && code == 0 {
        label(Choices::Center, clamp_int(st.window.center_window as int, 0, 2))
    } else if page == 1 && code == 1 {
        on_off(st.window.border)
    } else if page == 1 && code == 2 {
        on_off(st.window.resizable)
    } else if page == 1 && code == 5 {
        decimal_chars(st.modes.res_width as int)
    } else if page == 1 && code == 6 {
        decimal_chars(st.modes.res_height as int)
    } else if page == 1 && code == 7 {
        decimal_chars(st.compat.pos_x as int)
    } else if page == 1 && code == 8 {
        decimal_chars(st.compat.pos_y as int)
    } else if page == 2 && code == 0 {
        on_off(st.scaling.maintain_aspect_ratio)
    } else if page == 2 && code == 1 {
        on_off(st.scaling.windowboxing)
    } else if page == 2 && code == 2 {
        on_off(st.scaling.stretch_to_fullscreen)
    } else if page == 2 && code == 3 {
        decimal_chars(st.modes.refresh_rate as int)
    } else if page == 2 && code == 4 {
        label(Choices::Resolutions, clamp_int(st.modes.resolutions as int, 0, 2))
    } else if page == 2 && code == 5 {
        decimal_chars(st.modes.max_resolutions as int)
    } else if page == 2 && code == 6 {
        st.modes.inject_resolution@
    } else if page == 2 && code == 7 {
        st.modes.fake_mode@
    } else if page == 3 && code == 0 {
        on_off(st.input.adjmouse)
    } else if page == 3 && code == 2 {
        on_off(st.input.lock_mouse_top_left)
    } else if page == 3 && code == 3 {
        on_off(st.input.center_cursor_fix)
    } else if page == 4 && code == 0 {
        on_off(st.compat.nonexclusive)
    } else if page == 4 && code == 1 {
        on_off(st.compat.tshack)
    } else if page == 4 && code == 2 {
        on_off(st.compat.flipclear)
    } else if page == 4 && code == 3 {
        on_off(st.compat.lock_surfaces)
    } else if page == 4 && code == 4 {
        on_off(st.compat.noactivateapp)
    } else if page == 4 && code == 5 {
        on_off(st.compat.fix_not_responding)
    } else if page == 4 && code == 6 {
        on_off(st.compat.fix_alt_key_stuck)
    } else if page == 4 && code == 7 {
        decimal_chars(st.compat.fixchilds as int)
    } else if page == 4 && code == 8 {
        on_off(st.compat.remove_menu)
    } else if page == 4 && code == 9 {
        on_off(st.compat.terminate_process)
    } else if page == 4 && code == 10 {
        label(Choices::FakeVer, fakever_index_spec(st.window.fake_version))
    } else if page == 5 && code == 0 {
        decimal_chars(st.compat.savesettings as int)
    } else if page == 5 && code == 1 {
        on_off(st.scaling.draw_fps)
    } else if page == 5 && code == 2 {
        on_off(st.input.hook_peekmessage)
    } else if page == 5 && code == 3 {
        on_off(st.input.no_dinput_hook)
    } else if page == 5 && code == 5 {
        st.shaders.shaderpath@
    } else if page == 5 && code == 6 {
        st.shaders.shaderpath_pass1@
    } else {
        Seq::empty()
    }
}

fn read_page0(st: &DDrawState, code: usize) -> (r: String)
    ensures
        r@ == read_spec(*st, 0, code as int),
{
    if code == 0 {
        pick(Choices::Renderer, renderer_index(st))
    } else if code == 1 {
        pick(Choices::Filter, st.gfx.filter)
    } else if code == 2 {
        pick(Choices::Shader, shader_index(st))
    } else if code == 3 {
        yn(st.gfx.swap_interval > 0)
    } else if code == 4 {
        decimal_text(st.limiter.maxfps)
    } else if code == 5 {
        decimal_text(st.limiter.minfps)
    } else if code == 6 {
        decimal_text(st.limiter.maxgameticks)
    } else if code == 7 {
        pick(Choices::Limiter, st.limiter.limiter_type)
    } else {
        String::new()
    }
}

fn read_page1(st: &DDrawState, code: usize) -> (r: String)
    ensures
        r@ == read_spec(*st, 1, code as int),
{
    if code == 0 {
        pick(Choices::Center, st.window.center_window)
    } else if code == 1 {
        yn(st.window.border)
    } else if code == 2 {
        yn(st.window.resizable)
    } else if code == 5 {
        decimal_text(st.modes.res_width)
    } else if code == 6 {
        decimal_text(st.modes.res_height)
    } else if code == 7 {
        decimal_text(st.compat.pos_x)
    } else if code == 8 {
        decimal_text(st.compat.pos_y)
    } else {
        String::new()
    }
}

fn read_page2(st: &DDrawState, code: usize) -> (r: String)
    ensures
        r@ == read_spec(*st, 2, code as int),
{
    if code == 0 {
        yn(st.scaling.maintain_aspect_ratio)
    } else if code == 1 {
        yn(st.scaling.windowboxing)
    } else if code == 2 {
        yn(st.scaling.stretch_to_fullscreen)
    } else if code == 3 {
        decimal_text(st.modes.refresh_rate)
    } else if code == 4 {
        pick(Choices::Resolutions, st.modes.resolutions)
    } else if code == 5 {
        decimal_text(st.modes.max_resolutions)
    } else if code == 6 {
        st.modes.inject_resolution.clone()
    } else if code == 7 {
        st.modes.fake_mode.clone()
    } else {
        String::new()
    }
}

fn read_page3(st: &DDrawState, code: usize) -> (r: String)
    ensures
        r@ == read_spec(*st, 3, code as int),
{
    if code == 0 {
        yn(st.input.adjmouse)
    } else if code == 2 {
        yn(st.input.lock_mouse_top_left)
    } else if code == 3 {
        yn(st.input.center_cursor_fix)
    } else {
        String::new()
    }
}

fn read_page4(st: &DDrawState, code: usize) -> (r: String)
    ensures
        r@ == read_spec(*st, 4, code as int),
{
    if code == 0 {
        yn(st.compat.nonexclusive)
    } else if code == 1 {
        yn(st.compat.tshack)
    } else if code == 2 {
        yn(st.compat.flipclear)
    } else if code == 3 {
        yn(st.compat.lock_surfaces)
    } else if code == 4 {
        yn(st.compat.noactivateapp)
    } else if code == 5 {
        yn(st.compat.fix_not_responding)
    } else if code == 6 {
        yn(st.compat.fix_alt_key_stuck)
    } else if code == 7 {
        decimal_text(st.compat.fixchilds)
    } else if code == 8 {
        yn(st.compat.remove_menu)
    } else if code == 9 {
        yn(st.compat.terminate_process)
    } else if code == 10 {
        pick(Choices::FakeVer, fakever_index(st))
    } else {
        String::new()
    }
}

fn read_page5(st: &DDrawState, code: usize) -> (r: String)
    ensures
        r@ == read_spec(*st, 5, code as int),
{
    if code == 0 {
        decimal_text(st.compat.savesettings)
    } else if code == 1 {
        yn(st.scaling.draw_fps)
    } else if code == 2 {
        yn(st.input.hook_peekmessage)
    } else if code == 3 {
        yn(st.input.no_dinput_hook)
    } else if code == 5 {
        st.shaders.shaderpath.clone()
    } else if code == 6 {
        st.shaders.shaderpath_pass1.clone()
    } else {
        String::new()
    }
}

/// The value text of item `code` of `page`.
pub fn read(st: &DDrawState, page: usize, code: usize) -> (r: String)
    ensures
        r@ == read_spec(*st, page as int, code as int),
{
    if page == 0 {
        read_page0(st, code)
    } else if page == 1 {
        read_page1(st, code)
    } else if page == 2 {
        read_page2(st, code)
    } else if page == 3 {
        read_page3(st, code)
    } else if page == 4 {
        read_page4(st, code)
    } else if page == 5 {
        read_page5(st, code)
    } else {
        String::new()
    }
}

/// The ini key item `code` of `page` is saved under, if any.
pub open spec fn persist_key_spec(page: int, code: int) -> Option<Seq<char>> {
    if page == 0 && code == 0 {
        Some("Renderer"@)
    } else if page == 0 && code == 1 {
        Some("Filter"@)
    } else if page == 0 && code == 2 {
        Some("shader"@)
    } else if page == 0 && code == 3 {
        Some("VSync"@)
    } else if page == 0 && code == 4 {
        Some("maxfps"@)
    } else if page == 0 && code == 5 {
        Some("minfps"@)
    } else if page == 0 && code == 6 {
        Some("maxgameticks"@)
    } else if page == 0 && code == 7 {
        Some("limiter_type"@)
    } else if page == 1 && code == 0 {
        Some("center_window"@)
    } else if page == 1 && code == 1 {
        Some("Border"@)
    } else if page == 1 && code == 2 {
        Some("Resizable"@)
    } else if page == 1 && code == 5 {
        Some("width"@)
    } else if page == 1 && code == 6 {
        Some("height"@)
    } else if page == 1 && code == 7 {
        Some("posx"@)
    } else if page == 1 && code == 8 {
        Some("posy"@)
    } else if page == 2 && code == 0 {
        Some("MaintainAspectRatio"@)
    } else if page == 2 && code == 1 {
        Some("Windowboxing"@)
    } else if page == 2 && code == 2 {
        Some("StretchToFullscreen"@)
    } else if page == 2 && code == 3 {
        Some("refresh_rate"@)
    } else if page == 2 && code == 4 {
        Some("resolutions"@)
    } else if page == 2 && code == 5 {
        Some("max_resolutions"@)
    } else if page == 3 && code == 0 {
        Some("adjmouse"@)
    } else if page == 3 && code == 2 {
        Some("lock_mouse_top_left"@)
    } else if page == 3 && code == 3 {
        Some("center_cursor_fix"@)
    } else if page == 4 && code == 0 {
        Some("nonexclusive"@)
    } else if page == 4 && code == 1 {
        Some("tshack"@)
    } else if page == 4 && code == 2 {
        Some("flipclear"@)
    } else if page == 4 && code == 3 {
        Some("lock_surfaces"@)
    } else if page == 4 && code == 4 {
        Some("noactivateapp"@)
    } else if page == 4 && code == 5 {
        Some("fix_not_responding"@)
    } else if page == 4 && code == 6 {
        Some("fix_alt_key_stuck"@)
    } else if page == 4 && code == 7 {
        Some("fixchilds"@)
    } else if page == 4 && code == 8 {
        Some("remove_menu"@)
    } else if page == 4 && code == 9 {
        Some("terminate_process"@)
    } else if page == 4 && code == 10 {
        Some("WinVersion"@)
    } else if page == 5 && code == 0 {
        Some("savesettings"@)
    } else if page == 5 && code == 1 {
        Some("draw_fps"@)
    } else if page == 5 && code == 2 {
        Some("hook_peekmessage"@)
    } else if page == 5 && code == 3 {
        Some("no_dinput_hook"@)
    } else {
        None
    }
}

/// The ini key item `code` of `page` is saved under, if any.
pub fn persist_key(page: usize, code: usize) -> (r: Option<&'static str>)
    ensures
        match r {
            Some(k) => persist_key_spec(page as int, code as int) == Some(k@),
            None => persist_key_spec(page as int, code as int) is None,
        },
{
    if page == 0 && code == 0 {
        Some("Renderer")
    } else if page == 0 && code == 1 {
        Some("Filter")
    } else if page == 0 && code == 2 {
        Some("shader")
    } else if page == 0 && code == 3 {
        Some("VSync")
    } else if page == 0 && code == 4 {
        Some("maxfps")
    } else if page == 0 && code == 5 {
        Some("minfps")
    } else if page == 0 && code == 6 {
        Some("maxgameticks")
    } else if page == 0 && code == 7 {
        Some("limiter_type")
    } else if page == 1 && code == 0 {
        Some("center_window")
    } else if page == 1 && code == 1 {
        Some("Border")
    } else if page == 1 && code == 2 {
        Some("Resizable")
    } else if page == 1 && code == 5 {
        Some("width")
    } else if page == 1 && code == 6 {
        Some("height")
    } else if page == 1 && code == 7 {
        Some("posx")
    } else if page == 1 && code == 8 {
        Some("posy")
    } else if page == 2 && code == 0 {
        Some("MaintainAspectRatio")
    } else if page == 2 && code == 1 {
        Some("Windowboxing")
    } else if page == 2 && code == 2 {
        Some("StretchToFullscreen")
    } else if page == 2 && code == 3 {
        Some("refresh_rate")
    } else if page == 2 && code == 4 {
        Some("resolutions")
    } else if page == 2 && code == 5 {
        Some("max_resolutions")
    } else if page == 3 && code == 0 {
        Some("adjmouse")
    } else if page == 3 && code == 2 {
        Some("lock_mouse_top_left")
    } else if page == 3 && code == 3 {
        Some("center_cursor_fix")
    } else if page == 4 && code == 0 {
        Some("nonexclusive")
    } else if page == 4 && code == 1 {
        Some("tshack")
    } else if page == 4 && code == 2 {
        Some("flipclear")
    } else if page == 4 && code == 3 {
        Some("lock_surfaces")
    } else if page == 4 && code == 4 {
        Some("noactivateapp")
    } else if page == 4 && code == 5 {
        Some("fix_not_responding")
    } else if page == 4 && code == 6 {
        Some("fix_alt_key_stuck")
    } else if page == 4 && code == 7 {
        Some("fixchilds")
    } else if page == 4 && code == 8 {
        Some("remove_menu")
    } else if page == 4 && code == 9 {
        Some("terminate_process")
    } else if page == 4 && code == 10 {
        Some("WinVersion")
    } else if page == 5 && code == 0 {
        Some("savesettings")
    } else if page == 5 && code == 1 {
        Some("draw_fps")
    } else if page == 5 && code == 2 {
        Some("hook_peekmessage")
    } else if page == 5 && code == 3 {
        Some("no_dinput_hook")
    } else {
        None
    }
}

/// The switch value of item `code` of `page`, for the items saved as
/// `1` / `0`.
pub open spec fn bool_item_spec(st: DDrawState, page: int, code: int) -> Option<bool> {
    if page == 0 && code == 3 {
        Some(st.gfx.swap_interval > 0)
    } else if page == 1 && code == 1 {
        Some(st.window.border)
    } else if page == 1 && code == 2 {
        Some(st.window.resizable)
    } else if page == 2 && code == 0 {
        Some(st.scaling.maintain_aspect_ratio)
    } else if page == 2 && code == 1 {
        Some(st.scaling.windowboxing)
    } else if page == 2 && code == 2 {
        Some(st.scaling.stretch_to_fullscreen)
    } else if page == 3 && code == 0 {
        Some(st.input.adjmouse)
    } else if page == 3 && code == 2 {
        Some(st.input.lock_mouse_top_left)
    } else if page == 3 && code == 3 {
        Some(st.input.center_cursor_fix)
    } else if page == 4 && code == 0 {
        Some(st.compat.nonexclusive)
    } else if page == 4 && code == 1 {
        Some(st.compat.tshack)
    } else if page == 4 && code == 2 {
        Some(st.compat.flipclear)
    } else if page == 4 && code == 3 {
        Some(st.compat.lock_surfaces)
    } else if page == 4 && code == 4 {
        Some(st.compat.noactivateapp)
    } else if page == 4 && code == 5 {
        Some(st.compat.fix_not_responding)
    } else if page == 4 && code == 6 {
        Some(st.compat.fix_alt_key_stuck)
    } else if page == 4 && code == 8 {
        Some(st.compat.remove_menu)
    } else if page == 4 && code == 9 {
        Some(st.compat.terminate_process)
    } else if page == 5 && code == 1 {
        Some(st.scaling.draw_fps)
    } else if page == 5 && code == 2 {
        Some(st.input.hook_peekmessage)
    } else if page == 5 && code == 3 {
        Some(st.input.no_dinput_hook)
    } else {
        None
    }
}

/// The ini text of a switch.
pub open spec fn flag_text(b: bool) -> Seq<char> {
    if b { "1"@ } else { "0"@ }
}

/// The ini value of a switch item, `1` or `0`; `None` for other items.
pub fn bool_ini_value(st: &DDrawState, page: usize, code: usize) -> (r: Option<String>)
    ensures
        match r {
            Some(t) => bool_item_spec(*st, page as int, code as int) matches Some(b) && t@ == flag_text(b),
            None => bool_item_spec(*st, page as int, code as int) is None,
        },
{
    let b = if page == 0 && code == 3 {
        st.gfx.swap_interval > 0
    } else if page == 1 && code == 1 {
        st.window.border
    } else if page == 1 && code == 2 {
        st.window.resizable
    } else if page == 2 && code == 0 {
        st.scaling.maintain_aspect_ratio
    } else if page == 2 && code == 1 {
        st.scaling.windowboxing
    } else if page == 2 && code == 2 {
        st.scaling.stretch_to_fullscreen
    } else if page == 3 && code == 0 {
        st.input.adjmouse
    } else if page == 3 && code == 2 {
        st.input.lock_mouse_top_left
    } else if page == 3 && code == 3 {
        st.input.center_cursor_fix
    } else if page == 4 && code == 0 {
        st.compat.nonexclusive
    } else if page == 4 && code == 1 {
        st.compat.tshack
    } else if page == 4 && code == 2 {
        st.compat.flipclear
    } else if page == 4 && code == 3 {
        st.compat.lock_surfaces
    } else if page == 4 && code == 4 {
        st.compat.noactivateapp
    } else if page == 4 && code == 5 {
        st.compat.fix_not_responding
    } else if page == 4 && code == 6 {
        st.compat.fix_alt_key_stuck
    } else if page == 4 && code == 8 {
        st.compat.remove_menu
    } else if page == 4 && code == 9 {
        st.compat.terminate_process
    } else if page == 5 && code == 1 {
        st.scaling.draw_fps
    } else if page == 5 && code == 2 {
        st.input.hook_peekmessage
    } else if page == 5 && code == 3 {
        st.input.no_dinput_hook
    } else {
        return None;
    };
    Some(if b { String::from_str("1") } else { String::from_str("0") })
}

/// The renderer word the ini takes for the state's renderer setting.
pub open spec fn renderer_word(g: GraphicsConfig) -> Seq<char> {
    if g.auto_renderer {
        "auto"@
    } else if g.renderer == RENDERER_OPENGL {
        "opengl"@
    } else if g.renderer == RENDERER_OPENGL_CORE {
        "openglcore"@
    } else if g.renderer == RENDERER_GDI {
        "gdi"@
    } else {
        "d3d9"@
    }
}

/// The filter word for a filter index (limited to 0..=4).
pub open spec fn filter_word(f: i32) -> Seq<char> {
    let i = clamp_int(f as int, 0, 4);
    if i == 0 {
        "nearest"@
    } else if i == 1 {
        "bilinear"@
    } else if i == 2 {
        "catmull"@
    } else if i == 3 {
        "lanczos"@
    } else {
        "xbr"@
    }
}

/// The limiter word for a limiter type (limited to 0..=4).
pub open spec fn limiter_word(t: i32) -> Seq<char> {
    let i = clamp_int(t as int, 0, 4);
    if i == 0 {
        "auto"@
    } else if i == 1 {
        "testcooperativelevel"@
    } else if i == 2 {
        "bltfast"@
    } else if i == 3 {
        "unlock"@
    } else {
        "peekmessage"@
    }
}

/// The version text of a reported version: `5.1`, `6.0`, `6.1`, or empty.
pub open spec fn version_text(v: (u32, u32)) -> Seq<char> {
    if v == (5u32, 1u32) {
        "5.1"@
    } else if v == (6u32, 0u32) {
        "6.0"@
    } else if v == (6u32, 1u32) {
        "6.1"@
    } else {
        Seq::empty()
    }
}

/// The text item `code` of `page` is saved as: `1` / `0` for switches, the
/// ini word for the renderer, filter and limiter, the shader name, the
/// version number, and the shown value for everything else.
pub open spec fn persist_value_spec(st: DDrawState, page: int, code: int) -> Seq<char> {
    match bool_item_spec(st, page, code) {
        Some(b) => flag_text(b),
        None => if page == 0 && code == 0 {
            renderer_word(st.gfx)
        } else if page == 0 && code == 1 {
            filter_word(st.gfx.filter)
        } else if page == 0 && code == 2 {
            st.shaders.shader@
        } else if page == 0 && code == 7 {
            limiter_word(st.limiter.limiter_type)
        } else if page == 4 && code == 10 {
            version_text(st.window.fake_version)
        } else {
            read_spec(st, page, code)
        },
    }
}

/// The ini text item `code` of `page` is saved as.
pub fn persist_value(st: &DDrawState, page: usize, code: usize) -> (r: String)
    ensures
        r@ == persist_value_spec(*st, page as int, code as int),
{
    if let Some(b) = bool_ini_value(st, page, code) {
        return b;
    }
    if page == 0 && code == 0 {
        if st.gfx.auto_renderer {
            String::from_str("auto")
        } else if st.gfx.renderer == RENDERER_OPENGL {
            String::from_str("opengl")
        } else if st.gfx.renderer == RENDERER_OPENGL_CORE {
            String::from_str("openglcore")
        } else if st.gfx.renderer == RENDERER_GDI {
            String::from_str("gdi")
        } else {
            String::from_str("d3d9")
        }
    } else if page == 0 && code == 1 {
        let f = st.gfx.filter;
        if f <= 0 {
            String::from_str("nearest")
        } else if f == 1 {
            String::from_str("bilinear")
        } else if f == 2 {
            String::from_str("catmull")
        } else if f == 3 {
            String::from_str("lanczos")
        } else {
            String::from_str("xbr")
        }
    } else if page == 0 && code == 2 {
        st.shaders.shader.clone()
    } else if page == 0 && code == 7 {
        let t = st.limiter.limiter_type;
        if t <= 0 {
            String::from_str("auto")
        } else if t == 1 {
            String::from_str("testcooperativelevel")
        } else if t == 2 {
            String::from_str("bltfast")
        } else if t == 3 {
            String::from_str("unlock")
        } else {
            String::from_str("peekmessage")
        }
    } else if page == 4 && code == 10 {
        let v = st.window.fake_version;
        if v.0 == 5 && v.1 == 1 {
            String::from_str("5.1")
        } else if v.0 == 6 && v.1 == 0 {
            String::from_str("6.0")
        } else if v.0 == 6 && v.1 == 1 {
            String::from_str("6.1")
        } else {
            String::new()
        }
    } else {
        read(st, page, code)
    }
}

/// The key and text to save for item `code` of `page`, when settings are
/// saved (`savesettings` positive) and the item has a key.
pub fn persist_setting(st: &DDrawState, page: usize, code: usize) -> (r: Option<(&'static str, String)>)
    ensures
        match r {
            Some((k, v)) => st.compat.savesettings > 0 && persist_key_spec(page as int, code as int) == Some(k@)
                && v@ == persist_value_spec(*st, page as int, code as int),
            None => st.compat.savesettings <= 0 || persist_key_spec(page as int, code as int) is None,
        },
{
    if st.compat.savesettings <= 0 {
        return None;
    }
    match persist_key(page, code) {
        Some(k) => Some((k, persist_value(st, page, code))),
        None => None,
    }
}

/// Applies a left (-1) or right (+1) press to item `code` of `page`, as
/// `write` does; a changed frame-rate cap that is positive also becomes the
/// frame-rate target. Returns whether the setting changed.
#[verifier::spinoff_prover]
#[verifier::rlimit(40)]
pub fn adjust(st: &mut DDrawState, page: usize, code: usize, dir: i32) -> (changed: bool)
    requires
        dir == -1 || dir == 1,
        step_fits(*old(st), page as int, code as int),
    ensures
        !(page == 0 && code == 4) ==> write_post(*old(st), *final(st), page as int, code as int, dir, changed),
        page == 0 && code == 4 ==> {
            &&& (final(st).limiter.maxfps, changed) == stepped(old(st).limiter.maxfps, 0, 1000, 5, dir)
            &&& final(st).limiter == (LimiterConfig { maxfps: final(st).limiter.maxfps, ..old(st).limiter })
            &&& final(st).gfx == (GraphicsConfig {
                target_fps: if changed && final(st).limiter.maxfps > 0 {
                    final(st).limiter.maxfps
                } else {
                    old(st).gfx.target_fps
                },
                ..old(st).gfx
            })
            &&& *final(st) == (DDrawState { limiter: final(st).limiter, gfx: final(st).gfx, ..*old(st) })
        },
{
    if page == 0 && code == 4 {
        let changed = int_adj(&mut st.limiter.maxfps, 0, 1000, 5, dir);
        if changed && st.limiter.maxfps > 0 {
            st.gfx.target_fps = st.limiter.maxfps;
        }
        changed
    } else {
        write_item(st, page, code, dir)
    }
}

/// What the caller must do after a setting changed.
#[derive(Clone, Copy, PartialEq, Eq, Debug)]
pub enum Effect {
    /// Nothing beyond saving it.
    Nothing,
    /// Restart the game-speed limiter with this configuration.
    Limiter(Limiter),
    /// Reapply the window style and position.
    WindowStyle,
    /// Resize the window to this client size.
    WindowSize(i32, i32),
    /// Recompute the mouse scale.
    MouseScale,
}

/// The follow-up of a changed item: renderer items ask the renderer to
/// rebuild its output (`render.invalidate`); limiter items restart the
/// limiter; window items restyle or resize the window (resize when both a
/// width and a height are set); mouse items rescale the mouse.
pub fn apply_setting(st: &mut DDrawState, page: usize, code: usize) -> (e: Effect)
    ensures
        page == 0 && code <= 3 ==> e == Effect::Nothing && *final(st) == (DDrawState {
            render: crate::state::RenderInfo { invalidate: true, ..old(st).render },
            ..*old(st)
        }),
        !(page == 0 && code <= 3) ==> *final(st) == *old(st),
        page == 0 && (code == 6 || code == 7) ==> e == Effect::Limiter(
            crate::fps_limiter::limiter_for(
                old(st).limiter.maxgameticks,
                old(st).limiter.limiter_type,
                old(st).limiter.minfps,
                old(st).modes.refresh_rate,
            ),
        ),
        page == 1 && (code == 0 || code == 1 || code == 2 || code == 7 || code == 8) ==> e == Effect::WindowStyle,
        page == 1 && (code == 5 || code == 6) ==> e == (if old(st).modes.res_width > 0 && old(st).modes.res_height > 0 {
            Effect::WindowSize(old(st).modes.res_width, old(st).modes.res_height)
        } else {
            Effect::WindowStyle
        }),
        page == 3 && (code == 0 || code == 2 || code == 3) ==> e == Effect::MouseScale,
        !(page == 0 && code <= 7 && code >= 6) && !(page == 1 && (code <= 2 || (5 <= code <= 8))) && !(page == 3
            && (code == 0 || code == 2 || code == 3)) ==> e == Effect::Nothing,
{
    if page == 0 && code <= 3 {
        st.render.invalidate = true;
        Effect::Nothing
    } else if page == 0 && (code == 6 || code == 7) {
        Effect::Limiter(
            crate::fps_limiter::init(st.limiter.maxgameticks, st.limiter.limiter_type, st.limiter.minfps, st.modes.refresh_rate),
        )
    } else if page == 1 && (code == 0 || code == 1 || code == 2 || code == 7 || code == 8) {
        Effect::WindowStyle
    } else if page == 1 && (code == 5 || code == 6) {
        if st.modes.res_width > 0 && st.modes.res_height > 0 {
            Effect::WindowSize(st.modes.res_width, st.modes.res_height)
        } else {
            Effect::WindowStyle
        }
    } else if page == 3 && (code == 0 || code == 2 || code == 3) {
        Effect::MouseScale
    } else {
        Effect::Nothing
    }
}

/// A switch saved by the menu reads back as the same switch when the ini is
/// loaded again.
pub proof fn lemma_saved_switch_reads_back(b: bool)
    ensures
        is_yes(trim_spec(flag_text(b))) == b,
{
    reveal_strlit("1");
    reveal_strlit("0");
    reveal_strlit("yes");
    reveal_strlit("true");
    let t = flag_text(b);
    assert(trim_start_spec(t) == t);
    assert(trim_end_spec(t) == t);
    vstd::utf8::is_ascii_chars_encode_utf8(t);
    vstd::utf8::is_ascii_chars_encode_utf8("1"@);
    vstd::utf8::is_ascii_chars_encode_utf8("yes"@);
    vstd::utf8::is_ascii_chars_encode_utf8("true"@);
    if !b {
        assert(utf8(t)[0] != utf8("1"@)[0]);
    }
}

/// The one-shot actions of the menu.
#[derive(Clone, Copy, PartialEq, Eq, Debug)]
pub enum MenuAction {
    ToggleMaximize,
    ToggleFullscreen,
    LockCursor,
    UnlockCursor,
    Screenshot,
    Nothing,
}

/// The action item `code` of `page` runs; the cursor item releases a locked
/// cursor and locks a free one.
pub fn run_action(page: usize, code: usize, cursor_locked: bool) -> (a: MenuAction)
    ensures
        a == (if page == 1 && code == 3 {
            MenuAction::ToggleMaximize
        } else if page == 1 && code == 4 {
            MenuAction::ToggleFullscreen
        } else if page == 3 && code == 1 {
            if cursor_locked { MenuAction::UnlockCursor } else { MenuAction::LockCursor }
        } else if page == 5 && code == 4 {
            MenuAction::Screenshot
        } else {
            MenuAction::Nothing
        }),
{
    if page == 1 && code == 3 {
        MenuAction::ToggleMaximize
    } else if page == 1 && code == 4 {
        MenuAction::ToggleFullscreen
    } else if page == 3 && code == 1 {
        if cursor_locked { MenuAction::UnlockCursor } else { MenuAction::LockCursor }
    } else if page == 5 && code == 4 {
        MenuAction::Screenshot
    } else {
        MenuAction::Nothing
    }
}

/// Closes the menu: back to a closed menu on the first page.
pub fn close_menu(m: &mut Menu)
    ensures
        *final(m) == Menu::closed(),
{
    *m = Menu { open: false, page: 0, item: 0, scroll: 0, mode: Mode::Pages };
}

/// Top of the first row.
pub const TITLE_H: i32 = 52;

/// Row height.
pub const LINE_H: i32 = 30;

/// Left edge of the item column.
pub const ITEM_X: i32 = 242;

/// Number of item rows that fit a panel `h` pixels high (at least one).
pub open spec fn visible_rows_spec(h: int) -> int {
    let n = (h - TITLE_H - 40) as int;
    let q = if n >= 0 { n / (LINE_H as int) } else { -((-n) / (LINE_H as int)) };
    if q < 1 { 1 } else { q }
}

/// Number of item rows that fit a panel `h` pixels high.
pub fn visible_rows(h: i32) -> (r: usize)
    requires
        h >= i32::MIN + 100,
    ensures
        r == visible_rows_spec(h as int),
{
    let q = (h - TITLE_H - 40) / LINE_H;
    if q < 1 { 1 } else { q as usize }
}

/// Right edge of the value column in a panel `w` pixels wide.
pub fn value_right(w: i32) -> (r: i32)
    requires
        w >= i32::MIN + 16,
    ensures
        r == (if w - 16 > ITEM_X + 8 { w - 16 } else { ITEM_X + 8 }),
{
    if w - 16 > ITEM_X + 8 { w - 16 } else { ITEM_X + 8 }
}

/// An item row the panel draws: the item, the row's top, and whether the
/// selection bar sits on it.
#[derive(Clone, Copy, PartialEq, Eq, Debug)]
pub struct ItemRow {
    pub index: usize,
    pub y: i32,
    pub selected: bool,
}

/// The item rows drawn for the current page: from the scroll position, as
/// many as fit, each a row below the previous one.
pub fn item_rows(m: &Menu, h: i32) -> (rows: Vec<ItemRow>)
    requires
        m.page < PAGE_COUNT,
        h >= i32::MIN + 100,
    ensures
        ({
            let n = page_len(m.page as int);
            let first = if m.scroll < n { m.scroll as int } else { n };
            let count = if n - first < visible_rows_spec(h as int) { n - first } else { visible_rows_spec(h as int) };
            &&& rows@.len() == count
            &&& forall|k: int| 0 <= k < count ==> #[trigger] rows@[k] == (ItemRow {
                index: (first + k) as usize,
                y: (TITLE_H + k * LINE_H) as i32,
                selected: m.mode == Mode::Items && first + k == m.item,
            })
        }),
{
    let n = items_on_page(m.page);
    let first = if m.scroll < n { m.scroll } else { n };
    let vis = visible_rows(h);
    let count = if n - first < vis { n - first } else { vis };
    let mut rows: Vec<ItemRow> = Vec::new();
    let mut k: usize = 0;
    while k < count
        invariant
            n == page_len(m.page as int),
            n <= 11,
            first <= n,
            count <= n - first,
            k <= count,
            rows@.len() == k,
            forall|j: int| 0 <= j < k ==> #[trigger] rows@[j] == (ItemRow {
                index: (first + j) as usize,
                y: (TITLE_H + j * LINE_H) as i32,
                selected: m.mode == Mode::Items && first + j == m.item,
            }),
        decreases count - k,
    {
        let idx = first + k;
        rows.push(ItemRow { index: idx, y: TITLE_H + (k as i32) * LINE_H, selected: matches!(m.mode, Mode::Items) && idx == m.item });
        k = k + 1;
    }
    rows
}

/// The limiter word the menu saves reads back as the same limiter type
/// (limited to 0..=4) when the ini is loaded again.
pub proof fn lemma_saved_limiter_reads_back(t: i32, default: i32)
    ensures
        crate::config::limiter_type_spec(limiter_word(t), default) == clamp_int(t as int, 0, 4),
{
    reveal_strlit("auto");
    reveal_strlit("testcooperativelevel");
    reveal_strlit("bltfast");
    reveal_strlit("unlock");
    reveal_strlit("peekmessage");
    reveal_strlit("1");
    reveal_strlit("2");
    reveal_strlit("3");
    reveal_strlit("4");
    reveal_strlit("0");
    let w = limiter_word(t);
    assert(trim_start_spec(w) == w);
    assert(trim_end_spec(w) == w);
    vstd::utf8::is_ascii_chars_encode_utf8(w);
    vstd::utf8::is_ascii_chars_encode_utf8("auto"@);
    vstd::utf8::is_ascii_chars_encode_utf8("testcooperativelevel"@);
    vstd::utf8::is_ascii_chars_encode_utf8("bltfast"@);
    vstd::utf8::is_ascii_chars_encode_utf8("unlock"@);
    vstd::utf8::is_ascii_chars_encode_utf8("peekmessage"@);
    vstd::utf8::is_ascii_chars_encode_utf8("1"@);
    vstd::utf8::is_ascii_chars_encode_utf8("2"@);
    vstd::utf8::is_ascii_chars_encode_utf8("3"@);
    vstd::utf8::is_ascii_chars_encode_utf8("4"@);
    vstd::utf8::is_ascii_chars_encode_utf8("0"@);
}

/// The filter word the menu saves reads back as the same filter (limited
/// to 0..=4) when the ini is loaded again.
pub proof fn lemma_saved_filter_reads_back(f: i32)
    ensures
        crate::config::filter_spec(filter_word(f)) == clamp_int(f as int, 0, 4),
{
    reveal_strlit("nearest");
    reveal_strlit("bilinear");
    reveal_strlit("catmull");
    reveal_strlit("catmull-rom");
    reveal_strlit("lanczos");
    reveal_strlit("xbr");
    let w = filter_word(f);
    assert(trim_start_spec(w) == w);
    assert(trim_end_spec(w) == w);
    vstd::utf8::is_ascii_chars_encode_utf8(w);
    vstd::utf8::is_ascii_chars_encode_utf8("nearest"@);
    vstd::utf8::is_ascii_chars_encode_utf8("bilinear"@);
    vstd::utf8::is_ascii_chars_encode_utf8("catmull"@);
    vstd::utf8::is_ascii_chars_encode_utf8("catmull-rom"@);
    vstd::utf8::is_ascii_chars_encode_utf8("lanczos"@);
    vstd::utf8::is_ascii_chars_encode_utf8("xbr"@);
    let b = utf8(w);
    assert(!crate::text::is_digit(b[0]));
    assert(crate::text::parse_i32_spec(b) is None);
    assert(b[0] == utf8("nearest"@)[0] || !crate::config::word_is(b, "nearest"@));
    assert(b[0] == utf8("catmull"@)[0] || !crate::config::word_is(b, "catmull"@));
}

/// The renderer word the menu saves reads back as the same fixed renderer;
/// the automatic choice reads back as automatic with Direct3D 9 to start.
pub proof fn lemma_saved_renderer_reads_back(g: GraphicsConfig)
    ensures
        !g.auto_renderer && (g.renderer == RENDERER_D3D9 || g.renderer == RENDERER_OPENGL || g.renderer
            == RENDERER_OPENGL_CORE || g.renderer == RENDERER_GDI) ==> crate::config::renderer_spec(
            renderer_word(g),
            "auto"@,
        ) == (g.renderer, false),
        g.auto_renderer ==> crate::config::renderer_spec(renderer_word(g), "auto"@) == (RENDERER_D3D9, true),
{
    reveal_strlit("auto");
    reveal_strlit("opengl");
    reveal_strlit("openglcore");
    reveal_strlit("opengl3");
    reveal_strlit("gdi");
    reveal_strlit("d3d9");
    let w = renderer_word(g);
    assert(trim_start_spec(w) == w);
    assert(trim_end_spec(w) == w);
    vstd::utf8::is_ascii_chars_encode_utf8(w);
    vstd::utf8::is_ascii_chars_encode_utf8("auto"@);
    vstd::utf8::is_ascii_chars_encode_utf8("opengl"@);
    vstd::utf8::is_ascii_chars_encode_utf8("openglcore"@);
    vstd::utf8::is_ascii_chars_encode_utf8("opengl3"@);
    vstd::utf8::is_ascii_chars_encode_utf8("gdi"@);
    vstd::utf8::is_ascii_chars_encode_utf8("d3d9"@);
    let b = utf8(w);
    assert(b[0] == utf8("auto"@)[0] || !crate::config::word_is(b, "auto"@));
    assert(b[0] == utf8("d3d9"@)[0] || !crate::config::word_is(b, "d3d9"@));
    assert(b[3] == utf8("d3d9"@)[3] || !crate::config::word_is(b, "d3d9"@) || b.len() != 4);
}

} // verus!

//! Shared DirectDraw state: the configuration and runtime flags the COM
//! objects, the window procedure and the renderer thread agree on, the
//! per-surface reentrant lock, and the frame-presentation flags.

use vstd::prelude::*;
use vstd::string::StringSliceAdditionalSpecFns;
use crate::blit::Rect;

verus! {

/// GDI renderer.
pub const RENDERER_GDI: i32 = 0;

/// OpenGL renderer.
pub const RENDERER_OPENGL: i32 = 1;

/// Direct3D 9 renderer.
pub const RENDERER_D3D9: i32 = 2;

/// OpenGL 3.2 core-profile renderer.
pub const RENDERER_OPENGL_CORE: i32 = 3;

/// Fixed display output: driver default.
pub const DMDFO_DEFAULT: u32 = 0;

/// Fixed display output: stretch.
pub const DMDFO_STRETCH: u32 = 1;

/// Fixed display output: centre.
pub const DMDFO_CENTER: u32 = 2;

/// No edge reached.
pub const EDGE_NULL: i32 = 1;

/// Horizontal edge wrap.
pub const EDGE_X: i32 = 2;

/// Vertical edge wrap.
pub const EDGE_Y: i32 = 3;

/// What an `acquire` did.
#[derive(Clone, Copy, PartialEq, Eq, Debug)]
pub enum LockStep {
    /// The lock was free and now belongs to the caller.
    Acquired,
    /// The caller already held the lock; one more level was added.
    Reentered,
    /// Another thread holds the lock; the caller must wait and retry.
    MustWait,
}

/// A per-thread reentrant lock: the owning thread id (0 when free) and the
/// recursion depth. Waiting for another thread is left to the caller. Its
/// view is the pair (owner, depth).
pub struct ReentrantLock {
    owner: u64,
    count: u32,
}

/// Proof of a held lock level, released by `ReentrantLock::unlock`.
pub struct ReentrantGuard {
    pub tid: u64,
}

impl View for ReentrantLock {
    type V = (u64, nat);

    closed spec fn view(&self) -> (u64, nat) {
        (self.owner, self.count as nat)
    }
}

/// A lock state that can occur: free exactly when its depth is 0.
pub open spec fn lock_inv(v: (u64, nat)) -> bool {
    (v.0 == 0) == (v.1 == 0)
}

/// The lock after thread `tid` takes one more level of it (it was free or
/// already held by `tid`).
pub open spec fn taken_by(v: (u64, nat), tid: u64) -> (u64, nat) {
    (tid, v.1 + 1)
}

/// The lock after its holder gives back one level: free again when that
/// was the last level.
pub open spec fn given_back(v: (u64, nat)) -> (u64, nat) {
    if v.1 <= 1 {
        (0, 0)
    } else {
        (v.0, (v.1 - 1) as nat)
    }
}

impl ReentrantLock {
    #[verifier::type_invariant]
    spec fn inv(&self) -> bool {
        (self.owner == 0) == (self.count == 0)
    }

    /// A free lock.
    pub fn new() -> (l: Self)
        ensures
            l@ == (0u64, 0nat),
    {
        ReentrantLock { owner: 0, count: 0 }
    }

    /// The owning thread id, 0 when free.
    pub fn owner(&self) -> (o: u64)
        ensures
            o == self@.0,
            lock_inv(self@),
    {
        proof {
            use_type_invariant(self);
        }
        self.owner
    }

    /// How many levels the owner holds.
    pub fn depth(&self) -> (d: u32)
        ensures
            d == self@.1,
    {
        self.count
    }

    /// Tries to take the lock for thread `tid`: recursively when `tid` holds
    /// it, outright when it is free; otherwise nothing changes and the caller
    /// must wait.
    pub fn acquire(&mut self, tid: u64) -> (step: LockStep)
        requires
            tid != 0,
            old(self)@.1 < u32::MAX,
        ensures
            old(self)@.0 == tid ==> step == LockStep::Reentered && final(self)@ == taken_by(old(self)@, tid),
            old(self)@.0 == 0 ==> step == LockStep::Acquired && final(self)@ == taken_by(old(self)@, tid),
            old(self)@.0 != 0 && old(self)@.0 != tid ==> step == LockStep::MustWait && final(self)@ == old(self)@,
            final(self)@ == lock_step(old(self)@, LockOp::Acquire(tid)),
    {
        proof {
            use_type_invariant(&*self);
        }
        if self.owner == tid {
            self.count = self.count + 1;
            return LockStep::Reentered;
        }
        if self.owner == 0 {
            *self = ReentrantLock { owner: tid, count: 1 };
            return LockStep::Acquired;
        }
        LockStep::MustWait
    }

    /// Releases one level held by `tid`; returns true when that was the last
    /// level, so the lock is free and a waiter may be woken.
    pub fn release(&mut self, tid: u64) -> (freed: bool)
        requires
            old(self)@.0 == tid,
            tid != 0,
        ensures
            freed == (old(self)@.1 == 1),
            final(self)@ == given_back(old(self)@),
            final(self)@ == lock_step(old(self)@, LockOp::Release(tid)),
    {
        proof {
            use_type_invariant(&*self);
        }
        let c = self.count;
        if c == 1 {
            *self = ReentrantLock { owner: 0, count: 0 };
            true
        } else {
            self.count = c - 1;
            false
        }
    }

    /// Takes a level of the lock for `tid` when it can, handing back a guard;
    /// `None` means another thread holds it.
    pub fn lock(&mut self, tid: u64) -> (g: Option<ReentrantGuard>)
        requires
            tid != 0,
            old(self)@.1 < u32::MAX,
        ensures
            (old(self)@.0 == 0 || old(self)@.0 == tid) ==> g == Some(ReentrantGuard { tid }) && final(self)@
                == taken_by(old(self)@, tid),
            old(self)@.0 != 0 && old(self)@.0 != tid ==> g is None && final(self)@ == old(self)@,
    {
        match self.acquire(tid) {
            LockStep::MustWait => None,
            _ => Some(ReentrantGuard { tid }),
        }
    }

    /// Gives back the level a guard holds.
    pub fn unlock(&mut self, g: ReentrantGuard) -> (freed: bool)
        requires
            old(self)@.0 == g.tid,
            g.tid != 0,
        ensures
            freed == (old(self)@.1 == 1),
            final(self)@ == given_back(old(self)@),
    {
        self.release(g.tid)
    }
}

/// Taking a level of the lock and giving it back leaves the lock as it was,
/// whether it was free or already held by the same thread; and while one
/// thread holds it, no other thread can take it.
pub proof fn lemma_lock_release_restores(v: (u64, nat), tid: u64, other: u64)
    requires
        lock_inv(v),
        tid != 0,
        v.0 == 0 || v.0 == tid,
        other != tid,
    ensures
        lock_inv(taken_by(v, tid)),
        given_back(taken_by(v, tid)) == v,
        taken_by(v, tid).0 != 0 && taken_by(v, tid).0 != other,
{
}

/// One call on a reentrant lock by thread `tid`.
#[derive(Clone, Copy, PartialEq, Eq, Debug)]
pub enum LockOp {
    Acquire(u64),
    Release(u64),
}

/// The lock after one call, as `acquire` and `release` leave it: an
/// acquire takes a level when the lock is free or already the caller's and
/// otherwise waits (no change); a release gives a level back when the
/// caller holds one.
pub open spec fn lock_step(v: (u64, nat), op: LockOp) -> (u64, nat) {
    match op {
        LockOp::Acquire(t) => if v.0 == 0 || v.0 == t { taken_by(v, t) } else { v },
        LockOp::Release(t) => if v.0 == t && v.1 > 0 { given_back(v) } else { v },
    }
}

/// The lock after a sequence of calls.
pub open spec fn lock_run(v: (u64, nat), ops: Seq<LockOp>) -> (u64, nat)
    decreases ops.len(),
{
    if ops.len() == 0 {
        v
    } else {
        lock_run(lock_step(v, ops[0]), ops.drop_first())
    }
}

/// How many levels thread `t` holds in lock state `v`.
pub open spec fn held(v: (u64, nat), t: u64) -> int {
    if v.0 == t && t != 0 { v.1 as int } else { 0 }
}

/// Thread `t`'s successful acquires minus its releases over `ops`, from `v`.
pub open spec fn balance(v: (u64, nat), ops: Seq<LockOp>, t: u64) -> int
    decreases ops.len(),
{
    if ops.len() == 0 {
        0
    } else {
        let d: int = match ops[0] {
            LockOp::Acquire(u) => if u == t && (v.0 == 0 || v.0 == t) { 1 } else { 0 },
            LockOp::Release(u) => if u == t && v.0 == t && v.1 > 0 { -1 } else { 0 },
        };
        d + balance(lock_step(v, ops[0]), ops.drop_first(), t)
    }
}

/// Every call names a real thread.
pub open spec fn valid_ops(ops: Seq<LockOp>) -> bool {
    forall|i: int|
        0 <= i < ops.len() ==> match #[trigger] ops[i] {
            LockOp::Acquire(t) => t != 0,
            LockOp::Release(t) => t != 0,
        }
}

/// Mutual exclusion and level accounting: over any sequence of calls from a
/// free lock, every thread holds exactly the levels it took and has not
/// given back; the lock stays consistent; and at no point do two threads
/// both hold levels: only the owner does.
pub proof fn lemma_lock_exclusive(ops: Seq<LockOp>, t: u64, u: u64)
    requires
        valid_ops(ops),
        t != 0,
        u != 0,
        t != u,
    ensures
        lock_inv(lock_run((0, 0), ops)),
        balance((0, 0), ops, t) == held(lock_run((0, 0), ops), t),
        !(balance((0, 0), ops, t) > 0 && balance((0, 0), ops, u) > 0),
        balance((0, 0), ops, t) > 0 ==> lock_run((0, 0), ops).0 == t,
{
    lemma_lock_accounting((0, 0), ops, t);
    lemma_lock_accounting((0, 0), ops, u);
}

proof fn lemma_lock_accounting(v: (u64, nat), ops: Seq<LockOp>, t: u64)
    requires
        lock_inv(v),
        valid_ops(ops),
        t != 0,
    ensures
        lock_inv(lock_run(v, ops)),
        balance(v, ops, t) == held(lock_run(v, ops), t) - held(v, t),
    decreases ops.len(),
{
    if ops.len() > 0 {
        let op = ops[0];
        assert(match op {
            LockOp::Acquire(x) => x != 0,
            LockOp::Release(x) => x != 0,
        });
        let rest = ops.drop_first();
        assert forall|i: int| 0 <= i < rest.len() implies match #[trigger] rest[i] {
            LockOp::Acquire(x) => x != 0,
            LockOp::Release(x) => x != 0,
        } by {
            assert(rest[i] == ops[i + 1]);
        }
        lemma_lock_accounting(lock_step(v, op), rest, t);
    }
}

/// `n` acquires by thread `t`.
pub open spec fn acquires(t: u64, n: nat) -> Seq<LockOp> {
    Seq::new(n, |i: int| LockOp::Acquire(t))
}

/// `n` releases by thread `t`.
pub open spec fn releases(t: u64, n: nat) -> Seq<LockOp> {
    Seq::new(n, |i: int| LockOp::Release(t))
}

proof fn lemma_run_acquires(t: u64, d: nat, n: nat)
    requires
        t != 0,
    ensures
        lock_run((t, d), acquires(t, n)) == (t, d + n),
    decreases n,
{
    if n > 0 {
        assert(acquires(t, n).drop_first() =~= acquires(t, (n - 1) as nat));
        lemma_run_acquires(t, d + 1, (n - 1) as nat);
    }
}

proof fn lemma_run_releases(t: u64, d: nat, n: nat)
    requires
        t != 0,
        1 <= d,
        n <= d,
    ensures
        lock_run((t, d), releases(t, n)) == (if n < d { (t, (d - n) as nat) } else { (0u64, 0nat) }),
    decreases n,
{
    if n > 0 {
        assert(releases(t, n).drop_first() =~= releases(t, (n - 1) as nat));
        if d == 1 {
            assert(n == 1);
            assert(lock_run((0u64, 0nat), releases(t, 0)) == (0u64, 0nat));
        } else {
            lemma_run_releases(t, (d - 1) as nat, (n - 1) as nat);
        }
    }
}

proof fn lemma_run_append(v: (u64, nat), a: Seq<LockOp>, b: Seq<LockOp>)
    ensures
        lock_run(v, a + b) == lock_run(lock_run(v, a), b),
    decreases a.len(),
{
    if a.len() > 0 {
        assert((a + b).drop_first() =~= a.drop_first() + b);
        lemma_run_append(lock_step(v, a[0]), a.drop_first(), b);
    }
}

/// A thread that takes a free lock `k` times and gives it back `j <= k`
/// times owns it at depth `k - j` while `j < k`, and leaves it free after
/// the `k`-th release.
pub proof fn lemma_owner_after(t: u64, k: nat, j: nat)
    requires
        t != 0,
        1 <= k,
        j <= k,
    ensures
        lock_run((0, 0), acquires(t, k) + releases(t, j)) == (if j < k { (t, (k - j) as nat) } else { (0u64, 0nat) }),
{
    lemma_run_append((0, 0), acquires(t, k), releases(t, j));
    assert(acquires(t, k).drop_first() =~= acquires(t, (k - 1) as nat));
    lemma_run_acquires(t, 1, (k - 1) as nat);
    assert(lock_run((0, 0), acquires(t, k)) == (t, k));
    lemma_run_releases(t, k, j);
}

/// The render viewport inside the window.
#[derive(Clone, Copy, PartialEq, Eq, Debug)]
pub struct Viewport {
    pub left: i32,
    pub top: i32,
    pub right: i32,
    pub bottom: i32,
}

impl Viewport {
    /// `right - left`.
    pub fn width(&self) -> (w: i32)
        requires
            i32::MIN <= self.right - self.left <= i32::MAX,
        ensures
            w == self.right - self.left,
    {
        self.right - self.left
    }

    /// `bottom - top`.
    pub fn height(&self) -> (h: i32)
        requires
            i32::MIN <= self.bottom - self.top <= i32::MAX,
        ensures
            h == self.bottom - self.top,
    {
        self.bottom - self.top
    }
}

/// Render size and viewport.
#[derive(Clone, Copy, PartialEq, Eq, Debug)]
pub struct RenderInfo {
    pub invalidate: bool,
    pub stretched: bool,
    pub width: i32,
    pub height: i32,
    pub viewport: Viewport,
}

/// Flags shared between the game's surface calls and the renderer thread.
#[derive(Clone, Copy, PartialEq, Eq, Debug)]
pub struct FrameFlags {
    /// The renderer thread keeps running.
    pub running: bool,
    /// The primary changed since the renderer last presented it.
    pub present_dirty: bool,
    /// The game finished a frame.
    pub frame_ready: bool,
    /// The game waits for vertical blank.
    pub uses_vblank: bool,
}

impl FrameFlags {
    /// The flags with the primary marked as changed.
    pub open spec fn marked(self) -> FrameFlags {
        FrameFlags { present_dirty: true, ..self }
    }

    /// The flags with the change consumed.
    pub open spec fn cleared(self) -> FrameFlags {
        FrameFlags { present_dirty: false, ..self }
    }
}

/// How the picture is scaled into the window.
#[derive(Clone, Copy, PartialEq, Eq, Debug)]
pub struct ScalingConfig {
    pub maintain_aspect_ratio: bool,
    pub windowboxing: bool,
    pub stretch_to_fullscreen: bool,
    pub stretch_to_width: i32,
    pub stretch_to_height: i32,
    pub draw_fps: bool,
}

/// Renderer choice and presentation settings.
pub struct GraphicsConfig {
    pub renderer: i32,
    pub auto_renderer: bool,
    pub primary_surface2tex: bool,
    pub gl_finish: bool,
    pub convert_on_gpu: bool,
    /// Target frames per second (0: no target).
    pub target_fps: i32,
    pub swap_interval: i32,
    /// Pin the process to one CPU.
    pub single_proc_affinity: bool,
    pub edge_timeout_ms: i32,
    /// 16-bit surfaces use RGB555 rather than RGB565.
    pub rgb555: bool,
    pub gl_fence_sync: bool,
    pub fixed_output: u32,
    pub filter: i32,
    pub screenshot_dir: Option<String>,
}

/// Window decoration and the version reported to the game.
#[derive(Clone, Copy, PartialEq, Eq, Debug)]
pub struct WindowConfig {
    pub border: bool,
    pub resizable: bool,
    /// 0 never, 1 automatically, 2 always.
    pub center_window: i32,
    pub fake_size: (i32, i32),
    pub fake_version: (u32, u32),
}

/// Window and game compatibility switches.
#[derive(Clone, Copy, PartialEq, Eq, Debug)]
pub struct CompatConfig {
    pub noactivateapp: bool,
    pub fix_not_responding: bool,
    pub no_compat_warning: bool,
    pub game_handles_close: bool,
    pub terminate_process: bool,
    pub remove_menu: bool,
    pub fix_alt_key_stuck: bool,
    pub fixchilds: i32,
    pub lock_surfaces: bool,
    pub flipclear: bool,
    pub tshack: bool,
    pub vhack: bool,
    pub devmode: bool,
    pub limit_gdi_handles: bool,
    pub guard_lines: i32,
    pub min_font_size: i32,
    pub anti_aliased_fonts_min_size: i32,
    pub pos_x: i32,
    pub pos_y: i32,
    pub savesettings: i32,
    pub nonexclusive: bool,
}

/// The display modes offered to the game.
pub struct ModeConfig {
    pub res_width: i32,
    pub res_height: i32,
    pub refresh_rate: i32,
    pub resolutions: i32,
    pub max_resolutions: i32,
    pub inject_resolution: String,
    pub fake_mode: String,
}

/// Mouse and input hooks.
#[derive(Clone, Copy, PartialEq, Eq, Debug)]
pub struct InputConfig {
    pub adjmouse: bool,
    pub lock_mouse_top_left: bool,
    pub center_cursor_fix: bool,
    pub hook_peekmessage: bool,
    pub no_dinput_hook: bool,
}

/// The game-speed limiter.
#[derive(Clone, Copy, PartialEq, Eq, Debug)]
pub struct LimiterConfig {
    pub limiter_type: i32,
    pub maxgameticks: i32,
    pub minfps: i32,
    pub maxfps: i32,
}

/// Hotkeys (virtual-key codes, 0 for none).
#[derive(Clone, Copy, PartialEq, Eq, Debug)]
pub struct HotkeyConfig {
    pub keytogglefullscreen: i32,
    pub keytogglefullscreen2: i32,
    pub keytogglemaximize: i32,
    pub keytogglemaximize2: i32,
    pub keyunlockcursor1: i32,
    pub keyunlockcursor2: i32,
    pub keyscreenshot: i32,
    pub keyconfig: i32,
    pub toggle_borderless: bool,
    pub toggle_upscaled: bool,
}

/// Shader files of the OpenGL renderer.
pub struct ShaderConfig {
    pub shader: String,
    pub shaderpath: String,
    pub shaderpath_pass1: String,
}

/// The configuration and runtime state shared by the wrapper.
pub struct DDrawState {
    pub hwnd_valid: bool,
    pub screen_width: i32,
    pub screen_height: i32,
    pub win_rect: Rect,
    pub width: i32,
    pub height: i32,
    pub bpp: i32,
    pub dw_flags: u32,
    pub pixel_format_set: bool,
    pub render: RenderInfo,
    pub focus_gained: i32,
    pub mouse_is_locked: i32,
    pub edge_dimension: i32,
    pub edge_value: i32,
    pub has_primary: bool,
    /// The presentation flags the renderer thread polls.
    pub frame: FrameFlags,
    pub gamma_ramp: Option<[u16; 768]>,
    pub scaling: ScalingConfig,
    pub gfx: GraphicsConfig,
    pub window: WindowConfig,
    pub compat: CompatConfig,
    pub modes: ModeConfig,
    pub input: InputConfig,
    pub limiter: LimiterConfig,
    pub keys: HotkeyConfig,
    pub shaders: ShaderConfig,
}

impl DDrawState {
    /// The state before any configuration is read.
    pub fn new() -> (s: Self)
        ensures
            !s.hwnd_valid,
            s.screen_width == 0 && s.screen_height == 0,
            s.win_rect == (Rect { left: 0, top: 0, right: 0, bottom: 0 }),
            s.width == 640 && s.height == 480 && s.bpp == 16,
            s.dw_flags == 0 && !s.pixel_format_set,
            s.render == (RenderInfo {
                invalidate: false,
                stretched: false,
                width: 0,
                height: 0,
                viewport: Viewport { left: 0, top: 0, right: 0, bottom: 0 },
            }),
            s.focus_gained == 0 && s.mouse_is_locked == 0,
            s.edge_dimension == EDGE_NULL && s.edge_value == 0,
            !s.has_primary,
            s.frame == (FrameFlags {
                running: true,
                present_dirty: false,
                frame_ready: false,
                uses_vblank: false,
            }),
            s.gamma_ramp is None,
            s.scaling == (ScalingConfig {
                maintain_aspect_ratio: false,
                windowboxing: false,
                stretch_to_fullscreen: false,
                stretch_to_width: 0,
                stretch_to_height: 0,
                draw_fps: false,
            }),
            s.gfx.renderer == RENDERER_OPENGL && s.gfx.auto_renderer,
            s.gfx.primary_surface2tex && !s.gfx.gl_finish && s.gfx.convert_on_gpu,
            s.gfx.target_fps == 60 && s.gfx.swap_interval == 0,
            !s.gfx.single_proc_affinity && s.gfx.edge_timeout_ms == 0 && !s.gfx.rgb555,
            !s.gfx.gl_fence_sync && s.gfx.fixed_output == DMDFO_STRETCH && s.gfx.filter == 0,
            s.gfx.screenshot_dir is None,
            s.window == (WindowConfig {
                border: false,
                resizable: false,
                center_window: 1,
                fake_size: (0, 0),
                fake_version: (0, 0),
            }),
            s.compat == (CompatConfig {
                noactivateapp: false,
                fix_not_responding: false,
                no_compat_warning: false,
                game_handles_close: false,
                terminate_process: false,
                remove_menu: false,
                fix_alt_key_stuck: false,
                fixchilds: 2,
                lock_surfaces: false,
                flipclear: false,
                tshack: false,
                vhack: false,
                devmode: false,
                limit_gdi_handles: false,
                guard_lines: 200,
                min_font_size: 0,
                anti_aliased_fonts_min_size: 13,
                pos_x: -32000i32,
                pos_y: -32000i32,
                savesettings: 1,
                nonexclusive: true,
            }),
            s.modes.res_width == 0 && s.modes.res_height == 0 && s.modes.refresh_rate == 0,
            s.modes.resolutions == 0 && s.modes.max_resolutions == 0,
            s.modes.inject_resolution@.len() == 0 && s.modes.fake_mode@.len() == 0,
            s.input == (InputConfig {
                adjmouse: true,
                lock_mouse_top_left: false,
                center_cursor_fix: false,
                hook_peekmessage: false,
                no_dinput_hook: false,
            }),
            s.limiter == (LimiterConfig { limiter_type: 0, maxgameticks: 0, minfps: 0, maxfps: 0 }),
            s.keys == (HotkeyConfig {
                keytogglefullscreen: 0x0D,
                keytogglefullscreen2: 0,
                keytogglemaximize: 0x22,
                keytogglemaximize2: 0,
                keyunlockcursor1: 0x09,
                keyunlockcursor2: 0xA3,
                keyscreenshot: 0x7B,
                keyconfig: 0x7A,
                toggle_borderless: false,
                toggle_upscaled: false,
            }),
            s.shaders.shader@ == "catmull-rom-bilinear.glsl"@,
            s.shaders.shaderpath@.len() == 0 && s.shaders.shaderpath_pass1@.len() == 0,
    {
        DDrawState {
            hwnd_valid: false,
            screen_width: 0,
            screen_height: 0,
            win_rect: Rect { left: 0, top: 0, right: 0, bottom: 0 },
            width: 640,
            height: 480,
            bpp: 16,
            dw_flags: 0,
            pixel_format_set: false,
            render: RenderInfo {
                invalidate: false,
                stretched: false,
                width: 0,
                height: 0,
                viewport: Viewport { left: 0, top: 0, right: 0, bottom: 0 },
            },
            focus_gained: 0,
            mouse_is_locked: 0,
            edge_dimension: EDGE_NULL,
            edge_value: 0,
            has_primary: false,
            frame: FrameFlags {
                running: true,
                present_dirty: false,
                frame_ready: false,
                uses_vblank: false,
            },
            gamma_ramp: None,
            scaling: ScalingConfig {
                maintain_aspect_ratio: false,
                windowboxing: false,
                stretch_to_fullscreen: false,
                stretch_to_width: 0,
                stretch_to_height: 0,
                draw_fps: false,
            },
            gfx: GraphicsConfig {
                renderer: RENDERER_OPENGL,
                auto_renderer: true,
                primary_surface2tex: true,
                gl_finish: false,
                convert_on_gpu: true,
                target_fps: 60,
                swap_interval: 0,
                single_proc_affinity: false,
                edge_timeout_ms: 0,
                rgb555: false,
                gl_fence_sync: false,
                fixed_output: DMDFO_STRETCH,
                filter: 0,
                screenshot_dir: None,
            },
            window: WindowConfig {
                border: false,
                resizable: false,
                center_window: 1,
                fake_size: (0, 0),
                fake_version: (0, 0),
            },
            compat: CompatConfig {
                noactivateapp: false,
                fix_not_responding: false,
                no_compat_warning: false,
                game_handles_close: false,
                terminate_process: false,
                remove_menu: false,
                fix_alt_key_stuck: false,
                fixchilds: 2,
                lock_surfaces: false,
                flipclear: false,
                tshack: false,
                vhack: false,
                devmode: false,
                limit_gdi_handles: false,
                guard_lines: 200,
                min_font_size: 0,
                anti_aliased_fonts_min_size: 13,
                pos_x: -32000,
                pos_y: -32000,
                savesettings: 1,
                nonexclusive: true,
            },
            modes: ModeConfig {
                res_width: 0,
                res_height: 0,
                refresh_rate: 0,
                resolutions: 0,
                max_resolutions: 0,
                inject_resolution: String::new(),
                fake_mode: String::new(),
            },
            input: InputConfig {
                adjmouse: true,
                lock_mouse_top_left: false,
                center_cursor_fix: false,
                hook_peekmessage: false,
                no_dinput_hook: false,
            },
            limiter: LimiterConfig { limiter_type: 0, maxgameticks: 0, minfps: 0, maxfps: 0 },
            keys: HotkeyConfig {
                keytogglefullscreen: 0x0D,
                keytogglefullscreen2: 0,
                keytogglemaximize: 0x22,
                keytogglemaximize2: 0,
                keyunlockcursor1: 0x09,
                keyunlockcursor2: 0xA3,
                keyscreenshot: 0x7B,
                keyconfig: 0x7A,
                toggle_borderless: false,
                toggle_upscaled: false,
            },
            shaders: ShaderConfig {
                shader: String::from_str("catmull-rom-bilinear.glsl"),
                shaderpath: String::new(),
                shaderpath_pass1: String::new(),
            },
        }
    }
}

/// The current renderer.
pub fn renderer(st: &DDrawState) -> (r: i32)
    ensures
        r == st.gfx.renderer,
{
    st.gfx.renderer
}

/// Whether the game window holds focus, as far as the wrapper knows.
pub fn focused(st: &DDrawState) -> (f: bool)
    ensures
        f == (st.focus_gained != 0),
{
    st.focus_gained != 0
}

/// Marks the primary surface as changed so the renderer presents it.
pub fn mark_dirty(st: &mut DDrawState)
    ensures
        *final(st) == (DDrawState { frame: old(st).frame.marked(), ..*old(st) }),
{
    st.frame.present_dirty = true;
}

/// Consumes the dirty flag: true once after each change of the primary.
pub fn take_dirty(st: &mut DDrawState) -> (was: bool)
    ensures
        was == old(st).frame.present_dirty,
        *final(st) == (DDrawState { frame: old(st).frame.cleared(), ..*old(st) }),
{
    let was = st.frame.present_dirty;
    st.frame.present_dirty = false;
    was
}

/// Records that the game finished a frame (vertical-blank wait): the game
/// uses vertical blank, and a frame is ready.
pub fn mark_frame_ready(st: &mut DDrawState)
    ensures
        *final(st) == (DDrawState {
            frame: FrameFlags { uses_vblank: true, frame_ready: true, ..old(st).frame },
            ..*old(st)
        }),
{
    st.frame.uses_vblank = true;
    st.frame.frame_ready = true;
}

/// Switches the renderer.
pub fn set_renderer(st: &mut DDrawState, r: i32)
    ensures
        *final(st) == (DDrawState { gfx: GraphicsConfig { renderer: r, ..old(st).gfx }, ..*old(st) }),
{
    st.gfx.renderer = r;
}

/// After a change of the primary the renderer sees exactly one pending
/// frame: the first take reports it, a second one does not, and the
/// other flags are as they were.
pub proof fn lemma_dirty_taken_once(f: FrameFlags)
    ensures
        f.marked().present_dirty,
        !f.marked().cleared().present_dirty,
        f.marked().cleared() == f.cleared(),
{
}

} // verus!

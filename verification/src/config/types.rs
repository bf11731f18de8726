//! The configuration document.
use crate::ieee::{F32, F64};
use vstd::prelude::*;

verus! {

/// Which backend family is running.  All wayland variants (udev, x11, winit)
/// map to `Wayland`; only the native X11 backend maps to `X11`.
#[derive(Debug, Clone, Copy, PartialEq, Eq, Structural)]
pub enum BackendFamily {
    X11,
    Wayland,
}

#[derive(Debug, Clone)]
pub struct TomlConfig {
    pub appearance: AppearanceConfig,
    pub behavior: BehaviorConfig,
    pub status_bar: StatusBarConfig,
    pub colors: ColorsConfig,
    pub keybindings: KeyBindingsConfig,
    pub mouse_bindings: MouseBindingsConfig,
    pub rules: Vec<RuleConfig>,
    pub layout: LayoutConfig,
    pub animation: AnimationConfig,
}

#[derive(Debug, Clone)]
pub struct AppearanceConfig {
    pub border_px: u32,
    pub gap_px: u32,
    pub snap: u32,
    /// Fontconfig/Xft-style font used by JWM-owned overlays such as the lock
    /// screen, application launcher and keybinding viewer.
    pub system_ui_font: String,
    pub status_bar_padding: i32,
    pub status_bar_height: i32,
    /// Xcursor theme name that decides the pointer's *shape/look*, e.g.
    /// "Adwaita", "Bibata-Modern-Ice", "capitaine-cursors".
    /// Must match an *installed* theme directory name under one of the icon
    /// search paths (`~/.local/share/icons`, `~/.icons`, `/usr/share/icons`,
    /// or `$XCURSOR_PATH`); the value is a directory name, not a display name.
    /// A name with no matching theme resolves to no images, so every backend
    /// silently falls back to its built-in glyph pointer and `cursor_size` is
    /// ignored — see the `[cursor]` warning logged by `XcursorImages`.
    /// Empty string = defer to the `XCURSOR_THEME` environment variable and
    /// then to "default". Applied by the Wayland DRM/KMS backend and exported
    /// to launched clients so the whole session shares one cursor style.
    pub cursor_theme: String,
    /// Pointer size in logical pixels — the macOS-style "pointer size" slider.
    /// Typical values: 24 (normal), 32/48/64 (progressively larger).
    /// 0 = defer to the `XCURSOR_SIZE` environment variable and then to 24.
    pub cursor_size: u32,
    /// Design language for the surfaces JWM draws itself — the debug HUD, the
    /// modal system-UI card, toasts and the volume/brightness OSD.
    ///
    /// * `"glass"` (default) — Apple's light frosted glass: each card samples
    ///   a blurred copy of the desktop behind it through a squircle mask,
    ///   refracts it at the bevel, and lifts it under a white veil with a rim
    ///   hairline.
    /// * `"glass-dark"` — the same optics under a graphite veil, for a dark UI.
    /// * `"aurora"` — the same optics under a deep indigo veil with an
    ///   aurora-teal rim: tinted glass rather than neutral.
    /// * `"material"` — opaque elevated cards with a drop shadow.
    /// * `"nord"` — flat cards in the Nord palette.
    /// * `"tokyo-night"` — flat cards in the Tokyo Night palette.
    /// * `"paper"` — flat off-white cards with dark ink; light without blur.
    ///
    /// The compositor keeps its blur chain alive for the glass themes even
    /// when `blur_enabled` is off; without a usable chain the cards fall back
    /// to flat translucent fills.
    ///
    /// Only affects JWM's own overlays; client windows are unchanged.
    pub ui_theme: String,
}

/// Where a freshly managed window is inserted into its monitor's client list.
#[derive(Debug, Clone, Copy, PartialEq, Eq, Structural)]
pub enum NewClientPosition {
    /// Head of the list: the new window becomes master (dwm's `attach`).
    Master,
    /// End of the list: the new window trails every existing one.
    Tail,
    /// Directly behind the focused window.
    AfterFocused,
}

/// Which windows may start an interactive move/resize through the client
/// protocol (`_NET_WM_MOVERESIZE`: CSD title bars, invisible resize borders).
#[derive(Debug, Clone, Copy, PartialEq, Eq, Structural)]
pub enum ClientMoveResize {
    /// Every window: floating windows move/resize, tiled windows reorder
    /// within the layout on move and float on resize.
    Always,
    /// Only windows that already float (default). A tiled window's layout
    /// slot cannot be disturbed by a client-side drag region.
    FloatingOnly,
    /// Ignore client move/resize requests entirely.
    Never,
}

#[derive(Debug, Clone)]
pub struct BehaviorConfig {
    pub focus_follows_new_window: bool,
    /// Where a newly-managed window lands in its monitor's client list, which
    /// is what decides its slot in tiling layouts:
    /// - "master" (default): head of the list, i.e. the master area (dwm-like);
    /// - "tail": end of the list, behind every existing window;
    /// - "after_focused": right behind the currently focused window, falling
    ///   back to "master" when nothing comparable is focused.
    /// Floating windows keep their own group at the end of the list either way.
    pub new_client_position: String,
    /// Drag dead zone in pixels: an interactive move/resize only engages once
    /// the pointer has travelled this far from the press. Below it the button
    /// release is a plain click and the window is left untouched, so a
    /// click-and-hold can no longer accidentally pop a window out of the
    /// tiling layout.
    pub drag_threshold_px: u32,
    /// Which windows may start an interactive move/resize through the client
    /// protocol (`_NET_WM_MOVERESIZE`: CSD title bars, invisible resize
    /// borders):
    /// - "floating-only" (default): only already-floating windows respond;
    /// - "always": floating windows move/resize; tiled windows reorder
    ///   within the layout on move, and float on resize;
    /// - "never": client requests are ignored entirely.
    pub client_moveresize: String,
    pub resize_hints: bool,
    pub lock_fullscreen: bool,
    pub compositor: bool,
    /// X11 compositor graphics API: "egl" (GLES 3, default), "glx" (legacy),
    /// or "auto" (prefer EGL/GLES and fall back to GLX).
    pub compositor_api: String,
    /// Corner radius in pixels for window rounding (0 = sharp corners).
    pub corner_radius: F32,
    /// Enable drop shadows behind windows.
    pub shadow_enabled: bool,
    /// Shadow blur radius in pixels.
    pub shadow_radius: F32,
    /// Shadow offset (x, y) in pixels.
    pub shadow_offset: [F32; 2],
    /// Shadow color as [r, g, b, a] in 0.0..1.0 range.
    pub shadow_color: [F32; 4],

    /// Multiplier on the shadow alpha of unfocused windows (0.0..1.0).
    /// 1.0 keeps every shadow equally strong; lower values let the focused
    /// window cast a visibly deeper shadow, a subtle depth cue
    /// (default 0.65).
    pub shadow_inactive_opacity: F32,
    /// Opacity for unfocused windows (0.0..1.0). 1.0 = fully opaque (no dim).
    pub inactive_opacity: F32,
    /// Opacity for active/focused windows (0.0..1.0). 1.0 = fully opaque.
    pub active_opacity: F32,
    /// Enable background blur behind translucent windows.
    pub blur_enabled: bool,
    /// Blur strength / number of passes (1..5). Higher = more blur.
    pub blur_strength: u32,
    /// Automatically reduce blur quality during animations/transitions for better performance.
    pub blur_quality_auto: bool,
    /// Enable fade-in/fade-out when windows map/unmap.
    pub fading: bool,
    /// Fade-in step per frame (0.0..1.0). Higher = faster fade-in.
    pub fade_in_step: F32,
    /// Fade-out step per frame (0.0..1.0). Higher = faster fade-out.
    pub fade_out_step: F32,
    /// Window classes to exclude from shadows, e.g. ["Alacritty", "kitty"].
    pub shadow_exclude: Vec<String>,
    /// Per-window opacity rules, e.g. ["90:Alacritty", "85:kitty"].
    /// Format: "opacity_percent:class_name".
    pub opacity_rules: Vec<String>,
    /// Window classes to exclude from blur.
    pub blur_exclude: Vec<String>,
    /// Blur behind the status bar like any other translucent window.
    ///
    /// The bar is the one window that always sits directly over the wallpaper,
    /// so leaving it out of the blur pass is what makes a translucent bar show
    /// a sharp backdrop. Turn this off for a bar that frosts its own wallpaper
    /// strip, which would otherwise composite over a second blur.
    pub blur_status_bar: bool,
    /// Enable temporal blur reuse: blend current frame blur with previous frame for stable content.
    pub blur_temporal_enabled: bool,
    /// Temporal blur mix ratio: 0.0 = all new, 1.0 = all previous frame. Default 0.8 = 80% prev + 20% new.
    pub blur_temporal_mix_ratio: F32,
    /// Dynamic blur strength based on monitor refresh rate (Hz). Format: "60:2,75:2.5,144:3.5".
    /// If monitor Hz not listed, uses closest lower Hz value. If no lower value, uses closest higher.
    pub blur_strength_by_hz: String,
    /// Per-monitor blur quality. Format: "primary:Full,secondary:Reduced".
    /// Monitors: "primary" (0), "secondary" (1), "tertiary" (2), etc.
    /// Quality: "Full", "Reduced", "Minimal".
    pub blur_quality_by_monitor: String,
    /// Window classes to exclude from rounded corners.
    pub rounded_corners_exclude: Vec<String>,
    /// Detect windows that manage their own opacity (skip forced opacity).
    pub detect_client_opacity: bool,
    /// Unredirect fullscreen windows for direct scanout (better perf).
    pub fullscreen_unredirect: bool,
    /// VSync method: "global" (default), "oml_sync_control", "present".
    /// "oml_sync_control" uses GLX_OML_sync_control for per-window MSC-based vblank timing.
    /// "present" uses X11 Present extension for per-window independent presentation.
    /// Falls back to "global" if the selected method is unavailable.
    pub vsync_method: String,
    /// Enable audio-video synchronization: windows with audio streams will render
    /// at their audio's frame rate instead of the compositor's fixed rate.
    pub enable_audio_sync: bool,
    /// Audio buffer latency in milliseconds (used for sync calculations).
    pub audio_buffer_latency_ms: u32,
    /// Enable Present extension for per-window independent presentation.
    pub present_enabled: bool,

    // --- VRR (Variable Refresh Rate) Support ---
    /// Enable Variable Refresh Rate (VRR/G-Sync/FreeSync) support for game windows.
    pub vrr_enabled: bool,
    /// Minimum FPS for VRR range (Hz).
    pub vrr_min_fps: u32,
    /// Maximum FPS for VRR range (Hz).
    pub vrr_max_fps: u32,
    /// Window classes to treat as games (enable VRR when focused).
    /// Examples: ["steam", "lutris", "wine", "minecraft"].
    pub game_classes: Vec<String>,

    /// Allow wlr-output-management clients (kanshi, wlr-randr) to perform a
    /// real DRM modeset on Apply.
    /// Default false: jwm advertises mode information but rejects mode changes
    /// at the Apply step until explicitly enabled. Position/scale/transform
    /// changes are honored when the resulting physical framebuffer envelope
    /// stays the same. Runtime envelope growth/shrink is rejected even with
    /// this flag enabled until KMS configuration and transactional GLES target
    /// preparation can be committed as one operation; a failed modeset or GPU
    /// allocation must never leave the output and compositor at different sizes.
    pub wlr_output_mgmt_allow_modeset: bool,

    // --- Wayland optional protocol globals ---
    /// Publish zwlr_screencopy_manager_v1 for grim/slurp-style screenshots.
    pub wayland_enable_screencopy: bool,
    /// Publish wp_tearing_control_manager_v1 for game/latency hints.
    pub wayland_enable_tearing_control: bool,
    /// Publish wp_color_manager_v1. Default off until users opt into advanced
    /// client color protocol negotiation.
    pub wayland_enable_color_management: bool,
    /// Publish zwlr_output_manager_v1 for kanshi/wlr-randr.
    pub wayland_enable_output_management: bool,
    /// Publish zwlr_output_power_manager_v1 for DPMS tools.
    pub wayland_enable_output_power: bool,
    /// Publish ext_workspace_manager_v1 for bars/task switchers.
    pub wayland_enable_workspace: bool,
    /// Publish ext-image-copy-capture protocol globals.
    pub wayland_enable_image_copy_capture: bool,
    /// Publish zwlr_gamma_control_manager_v1 for wlsunset/gammastep.
    pub wayland_enable_gamma_control: bool,
    /// Publish zwlr_foreign_toplevel_manager_v1 for taskbars/window tools.
    pub wayland_enable_foreign_toplevel_management: bool,
    /// Publish zwlr_virtual_pointer_manager_v1 for remote-control tools.
    pub wayland_enable_virtual_pointer: bool,

    // --- Feature 1: Window borders ---
    /// Enable window border/outline rendering.
    pub border_enabled: bool,
    /// Border width in pixels.
    pub border_width: F32,
    /// Border color for focused window [r, g, b, a].
    pub border_color_focused: [F32; 4],
    /// Border color for unfocused windows [r, g, b, a].
    pub border_color_unfocused: [F32; 4],

    // --- Client window border glow ---
    /// Enable the compositor-drawn directional outer glow around client windows.
    pub border_glow_enabled: bool,
    /// Restrict the glow to the focused client window.
    pub border_glow_focused_only: bool,
    /// Maximum glow reach outside the client rectangle, in pixels.
    pub border_glow_radius: F32,
    /// Multiplier applied to the configured glow alpha.
    pub border_glow_intensity: F32,
    /// Glow color as [r, g, b, a] in the 0.0..1.0 range.
    pub border_glow_color: [F32; 4],
    /// Case-insensitive class/app-id substrings allowed to glow. Empty means all clients.
    pub border_glow_include: Vec<String>,
    /// Case-insensitive class/app-id substrings excluded from glow; takes precedence.
    pub border_glow_exclude: Vec<String>,

    // --- Gradient border (focused window) ---
    /// Draw the focused window's border as a two-color linear gradient
    /// instead of the flat `border_color_focused`. Enabled by default.
    pub border_gradient_enabled: bool,
    /// Gradient start color as [r, g, b, a] in the 0.0..1.0 range.
    pub border_gradient_color_a: [F32; 4],
    /// Gradient end color as [r, g, b, a] in the 0.0..1.0 range.
    pub border_gradient_color_b: [F32; 4],
    /// Gradient direction in degrees. 0 = left→right, 90 = top→bottom.
    pub border_gradient_angle: F32,
    /// Gradient rotation speed in degrees per second. 0 keeps the gradient
    /// static; non-zero slowly rotates the direction (costs continuous
    /// redraws while a focused window is visible).
    pub border_gradient_speed: F32,

    // --- Feature 3: Per-window corner radius ---
    /// Per-window corner radius rules, e.g. ["0:Alacritty", "20:firefox"].
    /// Format: "radius:class_name".
    pub corner_radius_rules: Vec<String>,

    // --- Feature 4: Window scale (PiP/overview) ---
    /// Window classes that should render at a smaller scale (PiP mode).
    pub scale_rules: Vec<String>,

    // --- Feature 8: Color temperature / night mode ---
    /// Color temperature shift: 0.0 = neutral, >0 = warm (night mode), <0 = cool.
    pub color_temperature: F32,
    /// Saturation multiplier: 1.0 = normal, 0.0 = grayscale.
    pub saturation: F32,
    /// Brightness multiplier.
    pub brightness: F32,
    /// Contrast multiplier.
    pub contrast: F32,

    // --- Feature 10: Invert / accessibility ---
    /// Invert all colors (accessibility).
    pub invert_colors: bool,
    /// Force grayscale (accessibility).
    pub grayscale: bool,

    // --- P3: HDR / 10-bit output ---
    /// Enable JWM's HDR post-processing policy. This does not currently enable
    /// DRM HDR signalling; the Udev backend keeps `HDR_OUTPUT_METADATA`
    /// fail-closed until KMS-external elements join the color pipeline.
    pub hdr_enabled: bool,
    /// Target display peak luminance in nits (400=HDR400, 600=HDR600, 1000=HDR1000).
    pub hdr_peak_nits: F32,
    /// Tone mapping method: "none", "reinhard", "aces".
    pub tone_mapping_method: String,
    /// Apply per-surface wp-color-management transforms in the window shader.
    /// With `scene_linear_compositing`, described surfaces are decoded and
    /// mapped into the normalized linear-sRGB common workspace; the output
    /// gamut/transfer step is deferred. Without that workspace, the historical
    /// encoded path still targets the window's largest-overlap output. Default
    /// off — the math is pixel-tested but still awaits broad HW visual checks.
    /// When off, described and undescribed content retain the legacy sRGB
    /// assumption; renderer-wide alpha and safety fixes still apply.
    pub color_management_render_path: bool,

    /// SOTA #2: composite windows and scene-linear-aware overlays in an FP16,
    /// normalized linear-sRGB common workspace. On a safe frame tail, supported
    /// physical output regions receive their own gamut/transfer encode, or all
    /// participating CRTCs coherently own the matching CTM+LUT pair. Encoded
    /// late overlays, KMS-external elements/capture, unsupported topology or a
    /// missing FP16 target select the conservative global-sRGB route. Because
    /// the normal desktop cursor is currently KMS-external, that fallback is
    /// expected for most interactive frames. Wallpaper, shadows and blur are
    /// still assembled encoded then decoded once, so this does not claim a
    /// physically linear blur. Requires `color_management_render_path`; costs
    /// one FP16 target plus decode/finalization passes. Default off.
    pub scene_linear_compositing: bool,

    /// Offload final linear-sRGB→output gamut and transfer work as one CRTC
    /// `CTM` + `GAMMA_LUT` pair. It is active only when every participating,
    /// DPMS-on output supports and accepts both properties and the frame tail
    /// is linear-safe; a LUT without its CTM is rolled back. Delivery ownership
    /// is all-or-nothing across outputs. Otherwise the renderer uses eligible
    /// software output regions or the global-sRGB fallback. Default off pending
    /// HW visual A/B.
    pub kms_color_pipeline_offload: bool,

    // --- Feature 11: Performance debug HUD ---
    /// Show FPS / frame time debug overlay.
    pub debug_hud: bool,

    // --- Phase 2 Optimizations ---
    /// Enable frame profiling (logs zone timing every 5s).
    pub profiling_enabled: bool,
    /// Enable direct scanout for fullscreen windows (bypass compositor).
    pub direct_scanout_enabled: bool,
    /// Enable GL state tracking to avoid redundant state changes.
    pub gl_state_tracking_enabled: bool,

    // --- Feature 13: Blur mask / frame extents ---
    /// Exclude window frame/title area from blur (use _NET_FRAME_EXTENTS).
    pub blur_use_frame_extents: bool,

    // --- Feature 14: Shadow shape / non-uniform offset ---
    /// Extra shadow offset for bottom edge (heavier shadow below).
    pub shadow_bottom_extra: F32,

    // --- Tag-switch transition mode ---
    /// Workspace switch transition mode: "none" (default), "slide", "cube", "fade", "flip", "zoom", "stack", "blinds".
    pub transition_mode: String,

    // --- Window open/close scale animation ---
    pub window_animation: bool,
    pub window_animation_scale: F32,

    // --- Dim inactive windows ---
    pub inactive_dim: F32,

    // --- Desaturate inactive windows ---
    /// How far unfocused windows shift toward grayscale: 0.0 keeps full
    /// color, 1.0 renders them fully desaturated (default 0.25). Combines
    /// with `inactive_dim` and `inactive_opacity` to make the focused
    /// window pop.
    pub inactive_desaturate: F32,

    // --- Screen edge glow ---
    pub edge_glow: bool,
    pub edge_glow_color: [F32; 4],
    pub edge_glow_width: F32,

    // --- Attention animation (urgent pulse) ---
    pub attention_animation: bool,
    pub attention_color: [F32; 4],

    // --- PiP visual treatment ---
    pub pip_border_color: [F32; 4],
    pub pip_border_width: F32,

    // --- Night light ---
    pub night_light: bool,
    pub night_light_temp: F32,
    pub night_light_start: String,
    pub night_light_end: String,
    pub night_light_transition_mins: u32,

    // --- Session menu ---
    // Commands the session menu runs. Each is parsed into argv without a
    // shell; quotes preserve spaces, while operators remain literal. Logout
    // is handled inside JWM (it quits the window manager) and has no command.
    pub suspend_command: String,
    pub hibernate_command: String,
    pub reboot_command: String,
    pub shutdown_command: String,

    // --- Magnifier ---
    pub magnifier_enabled: bool,
    pub magnifier_radius: F32,
    pub magnifier_zoom: F32,

    // --- Window 3D tilt ---
    pub window_tilt: bool,
    pub tilt_amount: F32,
    pub tilt_perspective: F32,
    pub tilt_speed: F32,
    pub tilt_grid: u32,

    // --- Frosted glass ---
    pub frosted_glass_rules: Vec<String>,
    pub frosted_glass_strength: u32,

    // --- Alt-Tab window overview ---
    pub overview_enabled: bool,
    pub overview_thumbnail_gap: F32,

    // --- Wobbly windows ---
    pub wobbly_windows: bool,
    pub wobbly_stiffness: F32,
    pub wobbly_damping: F32,
    pub wobbly_restore_stiffness: F32,
    pub wobbly_grid_size: u32,

    // --- Particle effects ---
    pub particle_effects: bool,
    pub particle_count: u32,
    pub particle_lifetime: F32,
    pub particle_gravity: F32,

    // --- Expose/Mission Control ---
    pub expose_enabled: bool,
    pub expose_gap: F32,

    // --- Smart Snap Preview ---
    pub snap_preview: bool,
    pub snap_preview_color: [F32; 4],
    pub snap_animation_duration_ms: u64,

    // --- Window Peek (Boss Key) ---
    pub peek_enabled: bool,
    pub peek_exclude: Vec<String>,

    // --- Window Tabs ---
    /// Strip across the top of a monitor's tiling area, one cell per tiled
    /// window. It is drawn in the `appearance.ui_theme` palette, like every
    /// other surface JWM paints itself, so it has no colors of its own.
    pub window_tabs: bool,
    pub tab_bar_height: F32,

    // --- Motion trail (drag ghosting) ---
    /// Enable motion trail ghost copies when dragging windows.
    pub motion_trail: bool,
    /// Number of ghost frames in the motion trail.
    pub motion_trail_frames: u32,
    /// Base opacity for motion trail ghosts (0.0..1.0).
    pub motion_trail_opacity: F32,

    // --- Genie minimize animation ---
    /// Enable genie/magic lamp minimize animation.
    pub genie_minimize: bool,
    /// Duration of the genie animation in milliseconds.
    pub genie_duration_ms: u64,

    // --- Window open ripple ---
    /// Enable ripple distortion effect when a window opens.
    pub ripple_on_open: bool,
    /// Duration of the ripple effect in seconds.
    pub ripple_duration: F32,
    /// Amplitude of the ripple distortion in UV space.
    pub ripple_amplitude: F32,

    // --- Focus switch highlight ---
    /// Enable a smooth border highlight on focus change.
    pub focus_highlight: bool,
    /// Focus highlight border color [r, g, b, a].
    pub focus_highlight_color: [F32; 4],
    /// Duration of focus highlight in milliseconds.
    pub focus_highlight_duration_ms: u64,

    // --- Wallpaper crossfade ---
    /// Enable smooth crossfade when wallpaper changes.
    pub wallpaper_crossfade: bool,
    /// Duration of wallpaper crossfade in milliseconds.
    pub wallpaper_crossfade_duration_ms: u64,

    // --- Phase 6: Accessibility & Utility ---
    /// Colorblind correction mode: "", "deuteranopia", "protanopia", "tritanopia".
    pub colorblind_mode: String,
    /// Annotation pen color [r, g, b, a].
    pub annotation_color: [F32; 4],
    /// Annotation pen width in pixels.
    pub annotation_line_width: F32,
    /// Freeze the fully composited desktop behind the interactive screenshot
    /// selector/editor. Disable this to keep client windows and animations
    /// live while a region is selected or annotated.
    pub screenshot_freeze_enabled: bool,

    // --- Phase 7: Diagnostics ---
    /// Enable shader hot reload from files.
    pub shader_hot_reload: bool,
    /// Directory path to watch for shader files.
    pub shader_dir: String,
    /// Enable extended debug HUD (draw calls, texture memory, etc.).
    pub debug_hud_extended: bool,
    /// Recording FPS (frames per second) for screen recording.
    pub recording_fps: u32,
    /// Recording bitrate (e.g. "20M", "10M", "5000k"). Used by NVENC and software encoders.
    pub recording_bitrate: String,
    /// Recording quality (QP value 0-51, lower=better). Used by VAAPI (CQP mode).
    pub recording_quality: u32,
    /// Recording encoder: "auto" (probe NVENC>VAAPI>SW), "nvenc", "vaapi", "software".
    pub recording_encoder: String,
    /// Recording output directory (empty = $XDG_VIDEOS_DIR or ~/Videos).
    pub recording_output_dir: String,
    /// Capture microphone audio alongside screen recordings.
    pub recording_audio_enabled: bool,
    /// ALSA capture device used for the screen recording audio track.
    pub recording_audio_device: String,
    /// AAC bitrate for the screen recording audio track.
    pub recording_audio_bitrate: String,
    /// ALSA capture device used by the built-in audio recorder.
    pub audio_recording_device: String,
    /// Standalone recorder backend: "auto", "direct", or "ffmpeg".
    pub audio_recording_backend: String,
    /// Default standalone recording format: "wav", "flac", "opus", or "mp3".
    pub audio_recording_format: String,
    /// Bitrate used for standalone Opus and MP3 recording.
    pub audio_recording_bitrate: String,
    /// Audio recording output directory (empty = $XDG_MUSIC_DIR or ~/Music).
    pub audio_recording_output_dir: String,
    /// Requested WAV sample rate. ALSA may negotiate the nearest supported rate.
    pub audio_recording_sample_rate: u32,
    /// Requested capture channels (1 or 2).
    pub audio_recording_channels: u16,

    // --- Idle ---
    /// Seconds of inactivity before the screen dims. 0 switches the stage off.
    pub idle_dim_secs: u64,
    /// Fraction of normal brightness while dimmed.
    pub idle_dim_level: F32,
    /// Seconds of inactivity before the built-in lock screen appears. 0 (the
    /// default) switches it off: unlocking needs PAM, and a session that
    /// cannot reach PAM would be locked out of itself, so turning this on is
    /// a decision only the user can make.
    pub idle_lock_secs: u64,
    /// Seconds of inactivity before `idle_screen_off_command` runs. 0, or an
    /// empty command, switches the stage off.
    pub idle_screen_off_secs: u64,
    /// Command that powers the displays down, e.g. `xset dpms force off` or
    /// `wlopm --off '*'`. JWM does not do this itself: which knob is right
    /// depends on the session, and getting it wrong leaves a black screen.
    pub idle_screen_off_command: String,
    /// Command that powers the displays back up on the next input. Needed
    /// only for tools that do not restore themselves.
    pub idle_screen_on_command: String,

    /// Show CPU, memory and network rows in the control center. Switching it
    /// off also stops the sampling: without the rows there is nothing to read
    /// `/proc` for.
    pub resource_rows: bool,

    // --- Wallpaper ---
    /// Path to wallpaper image file (empty = solid black background).
    /// Used as the default wallpaper for all monitors unless overridden by wallpaper_monitors.
    pub wallpaper: String,
    /// Wallpaper display mode: "fill" (crop to fill), "fit" (letterbox), "stretch", "center".
    pub wallpaper_mode: String,
    /// Remember what was copied, so the clipboard picker has something to
    /// offer. Memory only: the history is never written to disk and does not
    /// survive a restart. Offers marked as secrets are never recorded.
    pub clipboard_history: bool,
    /// Show the film-strip layout picker when cycling layouts, instead of
    /// switching silently. The picker still cycles on every press of the same
    /// key, so turning this off only removes the panel. Needs the compositor;
    /// without one, cycling falls back to switching silently anyway.
    pub layout_picker: bool,
    /// Directory the wallpaper picker lists. Empty means "beside the current
    /// wallpaper", then ~/Pictures/Wallpapers, then ~/Pictures.
    pub wallpaper_dir: String,
    /// Take the border, gradient and glow colours from the wallpaper whenever
    /// it changes. On by default: a shell that matches the picture behind it
    /// is what the wallpaper is for. The colours are only overwritten in
    /// memory — the config file is never rewritten, so setting this to false
    /// and reloading restores whatever is on disk.
    pub wallpaper_colors: bool,
    /// Per-monitor wallpaper overrides. Each entry specifies a monitor index and its wallpaper.
    /// Monitor index 0 is the primary monitor, 1 is the second, etc.
    /// Monitors without an entry fall back to the global `wallpaper` setting.
    pub wallpaper_monitors: Vec<WallpaperMonitorConfig>,
    /// Per-tag wallpaper overrides. Each entry specifies a tag (and optionally monitor)
    /// with its own wallpaper. Resolution priority when the tag is active:
    /// tag-specific (monitor match) > tag-specific (any monitor) > monitor override > global.
    pub wallpaper_tags: Vec<WallpaperTagConfig>,

    // --- Window swallowing ---
    /// Hide a terminal window when a child process opens its own window
    /// (X11 only — relies on _NET_WM_PID + /proc walk).
    pub swallow_enabled: bool,
    /// Class names of terminals that may be swallowed. Empty = no swallowing.
    /// Match is case-insensitive against both class and instance.
    pub swallow_terminals: Vec<String>,
    /// Class names that should NEVER swallow their parent (popups, menus, etc).
    pub swallow_exceptions: Vec<String>,

    // --- Scrolling layout identity ---
    /// Default scrolling column width rules. Format: "factor:pattern"; pattern
    /// is matched as a substring against window name, class, or instance when a
    /// new window creates a new scrolling column. Example: "1.35:Firefox".
    pub scrolling_column_width_rules: Vec<String>,

    // --- Touchpad gestures (Wayland only) ---
    /// Touchpad swipe-gesture bindings. 3+ finger swipes are intercepted only
    /// when their finger count has at least one configured binding; 1- and
    /// 2-finger swipes continue to forward to clients.
    pub gesture_swipe: Vec<GestureSwipeConfig>,
    /// Minimum cumulative pixel delta along the dominant axis before a swipe
    /// triggers its action. Smaller = more sensitive. Default 80.
    pub gesture_swipe_threshold: F64,

    // --- Do-not-disturb ---
    /// When true, suppress urgent-window focus-stealing and hide notification
    /// surfaces (X11 _NET_WM_WINDOW_TYPE_NOTIFICATION). Toggle live via the
    /// `toggle_dnd` IPC command.
    pub do_not_disturb: bool,
}

#[derive(Debug, Clone)]
pub struct GestureSwipeConfig {
    /// Number of fingers (3, 4, or 5).
    pub fingers: u32,
    /// Direction: "left", "right", "up", "down".
    pub direction: String,
    /// Command name (any IPC dispatch_command name, e.g. "loopview").
    pub function: String,
    /// Argument passed to the command. See ArgumentConfig.
    pub argument: ArgumentConfig,
}

#[derive(Debug, Clone)]
pub struct WallpaperMonitorConfig {
    /// Monitor index (0-based, matching monitor order).
    pub monitor: u32,
    /// Path to wallpaper image file for this monitor.
    pub path: String,
    /// Wallpaper display mode for this monitor (defaults to global wallpaper_mode).
    pub mode: String,
}

#[derive(Debug, Clone)]
pub struct WallpaperTagConfig {
    /// Tag index (0-based). Matches when (active_tags & (1 << tag)) != 0.
    pub tag: u32,
    /// Monitor index (0-based). Use -1 to match any monitor.
    pub monitor: i32,
    /// Path to wallpaper image file for this tag.
    pub path: String,
    /// Wallpaper display mode for this tag (defaults to global wallpaper_mode).
    pub mode: String,
}

#[derive(Debug, Clone)]
pub struct StatusBarConfig {
    pub name: String,
    pub show_bar: bool,
}

#[derive(Debug, Clone)]
pub struct ColorsConfig {
    pub dark_sea_green1: String,
    pub dark_sea_green2: String,
    pub pale_turquoise1: String,
    pub light_sky_blue1: String,
    pub grey84: String,
    pub cyan: String,
    pub white: String,
    pub black: String,
    pub transparent: u8,
    pub opaque: u8,
}

#[derive(Debug, Clone)]
pub struct LayoutConfig {
    pub m_fact: F32,
    pub n_master: u32,
    pub tags_length: usize,
    /// Carry each tag's layout across restarts.
    ///
    /// With this on, JWM writes the `[[layout.tags]]` block below back to this
    /// file whenever a tag's layout, master count, master fraction or gap
    /// changes, and reads it again on the next start, so a desktop comes back
    /// arranged the way it was left. Turn it off to keep the file entirely
    /// under your own hand: the entries are then only ever read.
    pub persist_tags: bool,
    /// Per-tag, per-monitor layout state.
    ///
    /// Hand-written entries seed a fresh session; JWM replaces the whole block
    /// when it saves, so comments inside it do not survive — everything else in
    /// the file does.
    ///
    /// An empty list is left out of the file entirely rather than written as
    /// `tags = []`: the saved block is appended as `[[layout.tags]]` tables,
    /// and TOML rejects a document that defines the same key both ways.
    pub tags: Vec<LayoutTagConfig>,
}

/// One tag's layout on one monitor.
///
/// The `layout`/`alt` pair mirrors what a monitor actually holds: the layout
/// in use and the one the tag was on before its last change, which is where
/// `lastlayout` goes back to. A restart lands on `layout`.
#[derive(Debug, Clone, PartialEq, Eq)]
pub struct LayoutTagConfig {
    /// Tag number as the status bar shows it: 1 for the first tag. Index 0 is
    /// the "all tags" view every monitor keeps beside its numbered tags.
    pub tag: usize,
    /// Monitor index (0-based). `-1` matches any monitor, which is what a
    /// hand-written entry usually wants; JWM writes one entry per monitor.
    pub monitor: i32,
    /// Layout in use, by name: `tile`, `fibonacci`, `monocle`, `scrolling`, …
    /// An unknown name leaves the tag on the built-in default.
    pub layout: String,
    /// The layout in use before the last change, reached with `lastlayout`.
    pub alt: String,
    /// Windows in the master area. Absent means the global `n_master`.
    pub n_master: Option<u32>,
    /// Share of the screen the master area takes. Absent means the global
    /// `m_fact`.
    pub m_fact: Option<F32>,
    /// Pixels between tiled windows. Absent means `appearance.gap_px`.
    pub gap: Option<i32>,
}

#[derive(Debug, Clone)]
pub struct AnimationConfig {
    pub enabled: bool,
    pub duration_ms: u64,
    pub easing: String,
    /// Speed mode: "slow", "normal" (default), "fast", "instant".
    /// Multiplies all animation timings (duration, fade steps, transitions).
    pub speed: String,
}

#[derive(Debug, Clone)]
pub struct KeyBindingsConfig {
    pub modkey: String, // "Mod1", "Mod4", etc.
    pub keys: Vec<KeyConfig>,
    /// Optional two-step chord prefix (e.g. Mod+Space then 'b' for browser).
    /// When `leader_key` is empty, chord support is disabled.
    pub chord: ChordConfig,
}

#[derive(Debug, Clone)]
pub struct ChordConfig {
    /// Modifier(s) for the leader key (e.g. ["Mod4"]). Empty means no modifier.
    pub leader_modifier: Vec<String>,
    /// Leader key name (e.g. "space"). Empty disables chord mode.
    pub leader_key: String,
    /// Time in milliseconds the chord stays armed waiting for the second key.
    pub timeout_ms: u64,
    /// Sequence bindings: each entry's `key` is the second key after the leader.
    pub bindings: Vec<KeyConfig>,
}

#[derive(Debug, Clone)]
pub struct KeyConfig {
    pub modifier: Vec<String>, // ["Mod1", "Shift"]
    pub key: String,           // "Return", "j", "k", etc.
    pub function: String,      // "spawn", "focusstack", etc.
    pub argument: ArgumentConfig,
}

#[derive(Debug, Clone)]
pub enum ArgumentConfig {
    Int(i32),
    UInt(u32),
    Float(F32),
    String(String),
    StringVec(Vec<String>),
}

#[derive(Debug, Clone)]
pub struct MouseBindingsConfig {
    pub buttons: Vec<ButtonConfig>,
}

#[derive(Debug, Clone)]
pub struct ButtonConfig {
    pub click_type: String, //
    pub modifier: Vec<String>,
    pub button: u8, // 1, 2, 3
    pub function: String,
    pub argument: ArgumentConfig,
}

#[derive(Debug, Clone)]
pub struct RuleConfig {
    pub class: String,
    pub instance: String,
    pub name: String,
    pub tags: usize,
    pub is_floating: bool,
    pub monitor: i32,
}

/// A loaded configuration.
#[derive(Debug, Clone)]
pub struct Config {
    pub inner: TomlConfig,
}

} // verus!

//! The enumeration pass over live window handles: the visibility
//! filter that keeps only ordinary top-level windows, and the
//! per-window inspection step that sanitizes the executable name,
//! consults the rule store and builds the snapshot.

use vstd::prelude::*;
use crate::config::Config;
use crate::config::config_wf;
use crate::matcher::determine_opacity;
use crate::matcher::lemma_resolve_wf;
use crate::matcher::resolve_spec;
use crate::text::dec_seq;
use crate::text::dec_string;
use crate::text::graphic_filter;
use crate::text::keep_graphic;
use crate::transparency::alpha_to_percent;
use crate::transparency::percent_of_alpha;

verus! {

/// Style bit marking a popup surface (tooltips, menus).
pub const WS_POPUP_BIT: u32 = 0x8000_0000;

/// Style bit marking a child control.
pub const WS_CHILD_BIT: u32 = 0x4000_0000;

/// One enumerated window's observed attributes, rebuilt fresh on
/// every pass; the whole list is replaced atomically afterwards.
#[derive(Debug, Clone, PartialEq, Eq)]
pub struct WindowInfo {
    /// The window handle, referenced, not owned; valid only until the
    /// next enumeration or until its owner destroys the window.
    pub hwnd: u64,
    /// Display text; never empty, since empty-titled windows are
    /// excluded.
    pub title: String,
    /// Basename of the owning process image, cut to printable ASCII;
    /// the "Unknown" sentinel where unobtainable.
    pub exe_name: String,
    /// Resolved transparency percentage; absent means "not
    /// applicable" (the window carries no layered style).
    pub transparency: Option<u8>,
    /// Informational, best effort: class name of the window.
    pub class_name: String,
    /// Informational, best effort: bounding width.
    pub width: u32,
    /// Informational, best effort: bounding height.
    pub height: u32,
    /// Informational, best effort: compositor cloak state.
    pub is_cloaked: bool,
}

/// A snapshot's recorded percentage is a percentage.
pub open spec fn window_info_wf(w: WindowInfo) -> bool {
    w.transparency matches Some(p) ==> p <= 100
}

/// The display text of a transparency reading: the percentage with a
/// percent sign, or the not-applicable sentinel.
pub open spec fn percent_label(t: Option<u8>) -> Seq<char> {
    match t {
        Some(p) => dec_seq(p as nat) + "%"@,
        None => "N/A"@,
    }
}

impl WindowInfo {
    /// Render the transparency column shown for this window.
    pub fn transparency_label(&self) -> (r: String)
        ensures
            r@ == percent_label(self.transparency),
    {
        match self.transparency {
            Some(p) => {
                let mut s = dec_string(p);
                s.append("%");
                s
            },
            None => String::from_str("N/A"),
        }
    }
}

/// The visibility filter over a handle's observed state: keep it only
/// when it is visible, not minimized, its own root ancestor, and
/// carries neither the popup nor the child style bit.
pub open spec fn filter_spec(visible: bool, minimized: bool, is_root: bool, style: u32) -> bool {
    &&& visible
    &&& !minimized
    &&& is_root
    &&& (style & (WS_POPUP_BIT | WS_CHILD_BIT)) == 0
}

/// Decide whether an enumerated handle survives the visibility
/// filter.
pub fn passes_filter(visible: bool, minimized: bool, is_root: bool, style: u32) -> (r: bool)
    ensures
        r == filter_spec(visible, minimized, is_root, style),
{
    visible && !minimized && is_root && (style & (WS_POPUP_BIT | WS_CHILD_BIT)) == 0
}

/// A minimized window, and a popup- or child-styled window, never
/// pass the filter, however visible.
pub proof fn lemma_filter_excludes(visible: bool, minimized: bool, is_root: bool, style: u32)
    ensures
        minimized ==> !filter_spec(visible, minimized, is_root, style),
        !is_root ==> !filter_spec(visible, minimized, is_root, style),
        (style & WS_POPUP_BIT) != 0 ==> !filter_spec(visible, minimized, is_root, style),
        (style & WS_CHILD_BIT) != 0 ==> !filter_spec(visible, minimized, is_root, style),
{
    assert((style & (WS_POPUP_BIT | WS_CHILD_BIT)) == 0 ==> (style & WS_POPUP_BIT) == 0 && (style
        & WS_CHILD_BIT) == 0) by (bit_vector);
}

/// The view of a raw executable-name reading: the resolved basename,
/// or the "Unknown" sentinel where resolution failed.
pub open spec fn raw_exe_view(raw: Option<String>) -> Seq<char> {
    match raw {
        Some(s) => s@,
        None => "Unknown"@,
    }
}

/// What the inspection step decided for one surviving handle: the
/// sanitized executable name and the opacity to apply, if any.
pub struct WindowPlan {
    pub exe_name: String,
    pub opacity: Option<u8>,
}

/// The per-window inspection step, once a handle has passed the
/// filter and its title has been read: a window with an empty title
/// is skipped; otherwise the executable name (the "Unknown" sentinel
/// where unobtainable) is cut down to printable ASCII and the rule
/// store is consulted for the opacity to apply. No match and no
/// default means no opacity is ever applied to that window.
pub fn plan_window(title: &str, exe_name_raw: Option<String>, config: &Config) -> (r: Option<
    WindowPlan,
>)
    requires
        config_wf(*config),
    ensures
        r is Some <==> title@.len() > 0,
        r matches Some(plan) ==> {
            &&& plan.exe_name@ == graphic_filter(raw_exe_view(exe_name_raw))
            &&& plan.opacity == resolve_spec(*config, title@, plan.exe_name@)
            &&& (plan.opacity matches Some(p) ==> p <= 100)
        },
{
    if title.unicode_len() == 0 {
        return None;
    }
    let exe_name = match exe_name_raw {
        Some(s) => keep_graphic(s.as_str()),
        None => keep_graphic("Unknown"),
    };
    let opacity = determine_opacity(title, exe_name.as_str(), config);
    proof {
        lemma_resolve_wf(*config, title@, exe_name@);
    }
    Some(WindowPlan { exe_name, opacity })
}

/// Build the snapshot recorded for one surviving window from the
/// values observed for it. A read-back alpha becomes the rounded
/// percentage; an absent one becomes the "not applicable" sentinel.
pub fn make_snapshot(
    hwnd: u64,
    title: String,
    exe_name: String,
    observed_alpha: Option<u8>,
    class_name: String,
    width: u32,
    height: u32,
    is_cloaked: bool,
) -> (w: WindowInfo)
    ensures
        w.hwnd == hwnd,
        w.title == title,
        w.exe_name == exe_name,
        w.transparency == (match observed_alpha {
            Some(a) => Some(percent_of_alpha(a)),
            None => None::<u8>,
        }),
        w.class_name == class_name,
        w.width == width,
        w.height == height,
        w.is_cloaked == is_cloaked,
        window_info_wf(w),
{
    let transparency = match observed_alpha {
        Some(a) => Some(alpha_to_percent(a)),
        None => None,
    };
    WindowInfo { hwnd, title, exe_name, transparency, class_name, width, height, is_cloaked }
}

} // verus!

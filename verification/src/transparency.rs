//! The transparency controller: a two-state machine over a window's
//! extended style word — opaque (layered bit clear) or layered with a
//! constant alpha — and the percentage/alpha conversions it uses.

use vstd::prelude::*;

verus! {

/// The extended-style bit that enables compositor alpha blending for
/// a window.
pub const WS_EX_LAYERED_BIT: u32 = 0x0008_0000;

/// The alpha byte for a percentage: round(p * 255 / 100), half up.
pub open spec fn alpha_of_percent(p: u8) -> u8 {
    (((p as int) * 255 + 50) / 100) as u8
}

/// The percentage a read-back alpha converts to: round(a * 100 / 255),
/// half up.
pub open spec fn percent_of_alpha(a: u8) -> u8 {
    (((a as int) * 200 + 255) / 510) as u8
}

/// Compute the alpha byte for a percentage.
pub fn percent_to_alpha(p: u8) -> (a: u8)
    requires
        p <= 100,
    ensures
        a == alpha_of_percent(p),
{
    let v: u32 = (p as u32) * 255 + 50;
    proof {
        assert(v / 100 <= 255) by (bit_vector)
            requires
                v <= 25550,
        ;
    }
    (v / 100) as u8
}

/// Convert a read-back alpha byte to the percentage shown to the user.
pub fn alpha_to_percent(a: u8) -> (p: u8)
    ensures
        p == percent_of_alpha(a),
        p <= 100,
{
    let v: u32 = (a as u32) * 200 + 255;
    proof {
        assert(v / 510 <= 100) by (bit_vector)
            requires
                v <= 51255,
        ;
    }
    (v / 510) as u8
}

/// What the compositor observes of one window: whether its layered
/// style bit is set, and the constant alpha last written for it. The
/// alpha is meaningful only while the bit is set.
#[derive(Debug, Clone, Copy, PartialEq, Eq, Structural)]
pub struct VisualState {
    pub layered: bool,
    pub alpha: u8,
}

/// The controller's transition: a requested percentage of 100 clears
/// the layered bit (full opacity); anything lower sets the bit and
/// writes alpha = round(p * 255 / 100).
pub open spec fn apply_spec(s: VisualState, p: u8) -> VisualState {
    if p == 100 {
        VisualState { layered: false, ..s }
    } else {
        VisualState { layered: true, alpha: alpha_of_percent(p) }
    }
}

/// Compute the visual state a window in state `s` moves to when the
/// percentage `p` is applied to it.
pub fn apply_transition(s: VisualState, p: u8) -> (r: VisualState)
    requires
        p <= 100,
    ensures
        r == apply_spec(s, p),
{
    if p == 100 {
        VisualState { layered: false, alpha: s.alpha }
    } else {
        VisualState { layered: true, alpha: percent_to_alpha(p) }
    }
}

/// What reading the window's alpha reports: the alpha while the
/// layered bit is set, and "not applicable" (never zero) otherwise.
pub open spec fn observed_alpha(s: VisualState) -> Option<u8> {
    if s.layered {
        Some(s.alpha)
    } else {
        None
    }
}

/// Read the alpha out of a visual state, when it is applicable.
pub fn get_transparency(s: VisualState) -> (r: Option<u8>)
    ensures
        r == observed_alpha(s),
{
    if s.layered {
        Some(s.alpha)
    } else {
        None
    }
}

/// The new extended-style word for a requested percentage: 100 clears
/// the layered bit, anything lower sets it, and no other bit changes
/// either way.
pub fn next_ex_style(style: u32, p: u8) -> (r: u32)
    requires
        p <= 100,
    ensures
        p == 100 ==> r == (style & !WS_EX_LAYERED_BIT),
        p < 100 ==> r == (style | WS_EX_LAYERED_BIT),
        ((r & WS_EX_LAYERED_BIT) != 0) <==> p < 100,
        (r & !WS_EX_LAYERED_BIT) == (style & !WS_EX_LAYERED_BIT),
{
    proof {
        assert(((style & !WS_EX_LAYERED_BIT) & WS_EX_LAYERED_BIT) == 0) by (bit_vector);
        assert(((style | WS_EX_LAYERED_BIT) & WS_EX_LAYERED_BIT) != 0) by (bit_vector);
        assert(((style & !WS_EX_LAYERED_BIT) & !WS_EX_LAYERED_BIT) == (style
            & !WS_EX_LAYERED_BIT)) by (bit_vector);
        assert(((style | WS_EX_LAYERED_BIT) & !WS_EX_LAYERED_BIT) == (style
            & !WS_EX_LAYERED_BIT)) by (bit_vector);
    }
    if p == 100 {
        style & !WS_EX_LAYERED_BIT
    } else {
        style | WS_EX_LAYERED_BIT
    }
}

/// Idempotence: applying a percentage to a window already carrying the
/// effect of that same percentage changes nothing, for every starting
/// state and every percentage.
pub proof fn lemma_apply_idempotent(s: VisualState, p: u8)
    ensures
        apply_spec(apply_spec(s, p), p) == apply_spec(s, p),
{
}

/// After a transition to full opacity the controller reports "not
/// applicable", never an alpha of zero.
pub proof fn lemma_opaque_reports_not_applicable(s: VisualState)
    ensures
        observed_alpha(apply_spec(s, 100)) is None,
{
}

/// After a transition to a partial percentage, reading the alpha back
/// yields exactly round(p * 255 / 100), whatever state the window was
/// in before.
pub proof fn lemma_apply_reads_back(s: VisualState, p: u8)
    requires
        p < 100,
    ensures
        observed_alpha(apply_spec(s, p)) == Some(alpha_of_percent(p)),
{
}

/// Round trip: for a percentage strictly between 0 and 99, writing the
/// alpha and converting the read-back alpha to a percentage again
/// lands within one of the original percentage.
pub proof fn lemma_alpha_round_trip(p: u8)
    requires
        1 <= p < 99,
    ensures
        percent_of_alpha(alpha_of_percent(p)) <= p + 1,
        p <= percent_of_alpha(alpha_of_percent(p)) + 1,
{
    assert(percent_of_alpha(alpha_of_percent(p)) <= p + 1 && p <= percent_of_alpha(
        alpha_of_percent(p),
    ) + 1) by (bit_vector)
        requires
            1 <= p < 99,
    ;
}

} // verus!

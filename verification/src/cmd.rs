//! The record of native calls.
//!
//! A [`crate::Ui`] does not reach into the engine directly: it records, in
//! program order, each native call it would issue, as a [`NativeCall`] value
//! holding plain data. A backend performs the record; every contract in this
//! crate says exactly which calls a method appends.
//!
//! Widget text travels through the frame's scratch buffer, so the widget
//! calls carry the buffer position their terminated text begins at. Plot
//! calls carry their own label bytes, already truncated at the first
//! terminator, as their one-shot native strings are built per call.

use vstd::prelude::*;

use crate::abi::PlotPoint;
use crate::abi::RgbaBits;
use crate::abi::Vec2Bits;

verus! {

/// One native call, as a backend must perform it.
#[derive(Clone, Debug, PartialEq)]
pub enum NativeCall {
    /// The bullet-point widget.
    Bullet,
    /// The bullet-with-text widget; `text` is the scratch position of its
    /// terminated text.
    BulletText { text: usize },
    /// The small-button widget; `label` is the scratch position of its
    /// terminated label.
    SmallButton { label: usize },
    /// The invisible-button widget, with its size (two 32-bit scalar bit
    /// patterns) and button flag bits.
    InvisibleButton { id: usize, size: Vec2Bits, flags: i32 },
    /// The arrow-button widget, with a native direction value.
    ArrowButton { id: usize, dir: i32 },
    /// Opens a disabled scope; with `disabled` false the scope is opened and
    /// must be closed all the same, only its effect is off.
    BeginDisabled { disabled: bool },
    /// Closes the innermost disabled scope.
    EndDisabled,
    /// Pushes one item flag with its on/off value.
    PushItemFlag { flag: i32, enabled: bool },
    /// Pops the innermost pushed item flag.
    PopItemFlag,
    /// Assigns key ownership to the last item; `flags` holds native input
    /// flag bits.
    SetItemKeyOwner { key: i32, flags: i32 },
    /// The scatter plot primitive over paired X and Y data (64-bit scalar
    /// bit patterns); the native count is the shared length.
    PlotScatter { label: Vec<u8>, xs: Vec<u64>, ys: Vec<u64> },
    /// The scatter plot primitive over Y data alone; the backend
    /// materializes X as `start + i * scale` over the indices of `ys`.
    PlotScatterIndexed { label: Vec<u8>, x_start_bits: u64, x_scale_bits: u64, ys: Vec<u64> },
    /// The image plot primitive: texture reference (handle plus a reserved
    /// null pointer), bounds, texture coordinates, tint and flag bits.
    PlotImage {
        label: Vec<u8>,
        tex_id: u64,
        bounds_min: PlotPoint,
        bounds_max: PlotPoint,
        uv0: Vec2Bits,
        uv1: Vec2Bits,
        tint: RgbaBits,
        flags: i32,
    },
}

/// The mathematical value of one recorded call.
#[verifier::ext_equal]
pub enum CallView {
    Bullet,
    BulletText { text: int },
    SmallButton { label: int },
    InvisibleButton { id: int, size: Vec2Bits, flags: i32 },
    ArrowButton { id: int, dir: i32 },
    BeginDisabled { disabled: bool },
    EndDisabled,
    PushItemFlag { flag: i32, enabled: bool },
    PopItemFlag,
    SetItemKeyOwner { key: i32, flags: i32 },
    PlotScatter { label: Seq<u8>, xs: Seq<u64>, ys: Seq<u64> },
    PlotScatterIndexed { label: Seq<u8>, x_start_bits: u64, x_scale_bits: u64, ys: Seq<u64> },
    PlotImage {
        label: Seq<u8>,
        tex_id: u64,
        bounds_min: PlotPoint,
        bounds_max: PlotPoint,
        uv0: Vec2Bits,
        uv1: Vec2Bits,
        tint: RgbaBits,
        flags: i32,
    },
}

impl View for NativeCall {
    type V = CallView;

    open spec fn view(&self) -> CallView {
        match self {
            NativeCall::Bullet => CallView::Bullet,
            NativeCall::BulletText { text } => CallView::BulletText { text: *text as int },
            NativeCall::SmallButton { label } => CallView::SmallButton { label: *label as int },
            NativeCall::InvisibleButton { id, size, flags } => CallView::InvisibleButton {
                id: *id as int,
                size: *size,
                flags: *flags,
            },
            NativeCall::ArrowButton { id, dir } => CallView::ArrowButton {
                id: *id as int,
                dir: *dir,
            },
            NativeCall::BeginDisabled { disabled } => CallView::BeginDisabled {
                disabled: *disabled,
            },
            NativeCall::EndDisabled => CallView::EndDisabled,
            NativeCall::PushItemFlag { flag, enabled } => CallView::PushItemFlag {
                flag: *flag,
                enabled: *enabled,
            },
            NativeCall::PopItemFlag => CallView::PopItemFlag,
            NativeCall::SetItemKeyOwner { key, flags } => CallView::SetItemKeyOwner {
                key: *key,
                flags: *flags,
            },
            NativeCall::PlotScatter { label, xs, ys } => CallView::PlotScatter {
                label: label@,
                xs: xs@,
                ys: ys@,
            },
            NativeCall::PlotScatterIndexed {
                label,
                x_start_bits,
                x_scale_bits,
                ys,
            } => CallView::PlotScatterIndexed {
                label: label@,
                x_start_bits: *x_start_bits,
                x_scale_bits: *x_scale_bits,
                ys: ys@,
            },
            NativeCall::PlotImage {
                label,
                tex_id,
                bounds_min,
                bounds_max,
                uv0,
                uv1,
                tint,
                flags,
            } => CallView::PlotImage {
                label: label@,
                tex_id: *tex_id,
                bounds_min: *bounds_min,
                bounds_max: *bounds_max,
                uv0: *uv0,
                uv1: *uv1,
                tint: *tint,
                flags: *flags,
            },
        }
    }
}

/// The mathematical values of a record of calls, in order.
pub open spec fn views_of(s: Seq<NativeCall>) -> Seq<CallView> {
    Seq::new(s.len(), |i: int| s[i]@)
}

/// Recording one more call appends its value to the record's view.
pub proof fn lemma_views_of_push(s: Seq<NativeCall>, c: NativeCall)
    ensures
        views_of(s.push(c)) == views_of(s).push(c@),
{
    assert(views_of(s.push(c)) =~= views_of(s).push(c@));
}

/// A family of paired open/close calls on the engine's internal stacks.
#[derive(Clone, Copy, Debug, PartialEq, Eq, Structural)]
pub enum ScopeKind {
    /// `BeginDisabled` / `EndDisabled`.
    Disabled,
    /// Item flag push / pop.
    ItemFlag,
}

/// Whether a call opens a scope of the given kind.
pub open spec fn opens(k: ScopeKind, c: CallView) -> bool {
    match k {
        ScopeKind::Disabled => c is BeginDisabled,
        ScopeKind::ItemFlag => c is PushItemFlag,
    }
}

/// Whether a call closes a scope of the given kind.
pub open spec fn closes(k: ScopeKind, c: CallView) -> bool {
    match k {
        ScopeKind::Disabled => c is EndDisabled,
        ScopeKind::ItemFlag => c is PopItemFlag,
    }
}

/// How many calls of the record open a scope of the given kind.
pub open spec fn open_count(k: ScopeKind, s: Seq<CallView>) -> int
    decreases s.len(),
{
    if s.len() == 0 {
        0
    } else {
        open_count(k, s.drop_last()) + if opens(k, s.last()) {
            1int
        } else {
            0int
        }
    }
}

/// How many calls of the record close a scope of the given kind.
pub open spec fn close_count(k: ScopeKind, s: Seq<CallView>) -> int
    decreases s.len(),
{
    if s.len() == 0 {
        0
    } else {
        close_count(k, s.drop_last()) + if closes(k, s.last()) {
            1int
        } else {
            0int
        }
    }
}

/// Appending one call raises the open count by one exactly when the call
/// opens a scope of that kind.
pub proof fn lemma_open_count_push(k: ScopeKind, s: Seq<CallView>, c: CallView)
    ensures
        open_count(k, s.push(c)) == open_count(k, s) + if opens(k, c) {
            1int
        } else {
            0int
        },
{
    assert(s.push(c).drop_last() =~= s);
    assert(s.push(c).last() == c);
}

/// Appending one call raises the close count by one exactly when the call
/// closes a scope of that kind.
pub proof fn lemma_close_count_push(k: ScopeKind, s: Seq<CallView>, c: CallView)
    ensures
        close_count(k, s.push(c)) == close_count(k, s) + if closes(k, c) {
            1int
        } else {
            0int
        },
{
    assert(s.push(c).drop_last() =~= s);
    assert(s.push(c).last() == c);
}

} // verus!

//! The UI frame recorder.
//!
//! A [`Ui`] stands for one frame of recording against the native engine. It
//! owns the frame's scratch text buffer, the record of native calls issued
//! so far, and the engine's answers for the frame's value-returning widgets
//! (supplied by the backend that drives the frame, one answer per widget, in
//! order; an exhausted queue answers as an idle frame, with `false`).
//!
//! The scoped-state discipline lives here. `begin_disabled` (and its
//! conditional variant) records the native open call and hands back a
//! [`DisabledToken`]; releasing the token through [`DisabledToken::end`]
//! records the matching close call. A token can only close the innermost
//! open scope of its frame, so releases are LIFO; the well-formedness
//! invariant proves that no prefix of the record ever closes more scopes
//! than it opened, and [`lemma_scope_balance`] that a frame whose scopes are
//! all closed records exactly one close per open.

use vstd::prelude::*;
use vstd::string::StringSliceAdditionalSpecFns;

use crate::abi::Vec2Bits;
use crate::cmd::CallView;
use crate::cmd::NativeCall;
use crate::cmd::ScopeKind;
use crate::cmd::close_count;
use crate::cmd::closes;
use crate::cmd::lemma_close_count_push;
use crate::cmd::lemma_open_count_push;
use crate::cmd::lemma_views_of_push;
use crate::cmd::open_count;
use crate::cmd::opens;
use crate::cmd::views_of;
use crate::enums::Direction;
use crate::enums::Key;
use crate::flags::ButtonFlags;
use crate::text::append_terminated;
use crate::text::c_text;
use crate::text::read_terminated;

verus! {

/// The native item flag for button repeat, as `push_button_repeat` pushes
/// it.
pub const ITEM_FLAG_BUTTON_REPEAT: i32 = 2;

/// The mathematical value of a [`Ui`] frame.
#[verifier::ext_equal]
pub struct UiView {
    /// The record of native calls issued so far, in program order.
    pub calls: Seq<CallView>,
    /// The scratch buffer's bytes.
    pub scratch: Seq<u8>,
    /// The engine's answers for the frame's value-returning widgets.
    pub replies: Seq<bool>,
    /// How many answers have been consumed.
    pub replies_used: int,
}

impl UiView {
    /// How many scopes of the given kind stand open: opening calls recorded
    /// minus closing calls recorded.
    pub open spec fn depth(self, k: ScopeKind) -> int {
        open_count(k, self.calls) - close_count(k, self.calls)
    }

    /// Whether an engine answer is still pending for the next
    /// value-returning widget.
    pub open spec fn pending_reply(self) -> bool {
        self.replies_used < self.replies.len()
    }

    /// The answer the next value-returning widget returns: the next pending
    /// one, or `false` once the queue is exhausted.
    pub open spec fn reply_value(self) -> bool {
        if self.pending_reply() {
            self.replies[self.replies_used]
        } else {
            false
        }
    }

    /// How many answers are consumed after one value-returning widget.
    pub open spec fn replies_used_after(self) -> int {
        if self.pending_reply() {
            self.replies_used + 1
        } else {
            self.replies_used
        }
    }

    /// Well-formedness: no prefix of the record closes more scopes of any
    /// kind than it opened (the engine's stacks are never popped while
    /// empty), and no more answers are consumed than were supplied.
    pub open spec fn wf(self) -> bool {
        &&& forall|k: ScopeKind, i: int|
            0 <= i <= self.calls.len() ==> #[trigger] close_count(k, self.calls.take(i))
                <= open_count(k, self.calls.take(i))
        &&& 0 <= self.replies_used <= self.replies.len()
    }
}

/// An active UI frame: records the native calls it would issue.
pub struct Ui {
    calls: Vec<NativeCall>,
    scratch: Vec<u8>,
    replies: Vec<bool>,
    replies_used: usize,
}

impl View for Ui {
    type V = UiView;

    closed spec fn view(&self) -> UiView {
        UiView {
            calls: views_of(self.calls@),
            scratch: self.scratch@,
            replies: self.replies@,
            replies_used: self.replies_used as int,
        }
    }
}

/// A record whose scopes of some kind are all closed holds exactly as many
/// closing calls of that kind as opening calls, on every program path that
/// reaches such a state.
pub proof fn lemma_scope_balance(u: UiView, k: ScopeKind)
    requires
        u.wf(),
        u.depth(k) == 0,
    ensures
        open_count(k, u.calls) == close_count(k, u.calls),
{
}

/// In a well-formed frame, no prefix of the record ever closes more scopes
/// than it opened: the engine's stack of the given kind is never popped
/// while empty.
pub proof fn lemma_never_closes_unopened(u: UiView, k: ScopeKind, i: int)
    requires
        u.wf(),
        0 <= i <= u.calls.len(),
    ensures
        close_count(k, u.calls.take(i)) <= open_count(k, u.calls.take(i)),
{
}

impl Ui {
    /// A fresh frame: nothing recorded, an empty scratch buffer, and no
    /// pending engine answers (every value-returning widget answers
    /// `false`).
    pub fn new() -> (ui: Ui)
        ensures
            ui.wf(),
            ui@.calls == Seq::<CallView>::empty(),
            ui@.scratch == Seq::<u8>::empty(),
            ui@.replies == Seq::<bool>::empty(),
            ui@.replies_used == 0,
    {
        Ui::with_replies(Vec::new())
    }

    /// A fresh frame with the engine's answers for its value-returning
    /// widgets, as the backend supplies them: one per widget, in program
    /// order.
    pub fn with_replies(replies: Vec<bool>) -> (ui: Ui)
        ensures
            ui.wf(),
            ui@.calls == Seq::<CallView>::empty(),
            ui@.scratch == Seq::<u8>::empty(),
            ui@.replies == replies@,
            ui@.replies_used == 0,
    {
        let ui = Ui { calls: Vec::new(), scratch: Vec::new(), replies, replies_used: 0 };
        proof {
            assert(views_of(ui.calls@) =~= Seq::<CallView>::empty());
            assert forall|k: ScopeKind, i: int|
                0 <= i <= ui@.calls.len() implies #[trigger] close_count(k, ui@.calls.take(i))
                <= open_count(k, ui@.calls.take(i)) by {
                assert(ui@.calls.take(i) =~= Seq::<CallView>::empty());
            }
        }
        ui
    }

    /// Whether this frame is well formed; every operation preserves it.
    pub open spec fn wf(self) -> bool {
        self@.wf()
    }

    /// The record of native calls issued so far.
    pub fn calls(&self) -> (r: &Vec<NativeCall>)
        ensures
            views_of(r@) == self@.calls,
    {
        &self.calls
    }

    /// How many bytes the scratch buffer holds; every position a recorded
    /// widget call carries lies below it.
    pub fn scratch_len(&self) -> (n: usize)
        ensures
            n == self@.scratch.len(),
    {
        self.scratch.len()
    }

    /// Records one native call, keeping every prefix of the record balanced.
    fn push_call(&mut self, c: NativeCall)
        requires
            old(self).wf(),
            closes(ScopeKind::Disabled, c@) ==> old(self)@.depth(ScopeKind::Disabled) > 0,
            closes(ScopeKind::ItemFlag, c@) ==> old(self)@.depth(ScopeKind::ItemFlag) > 0,
        ensures
            final(self).wf(),
            final(self)@.calls == old(self)@.calls.push(c@),
            final(self)@.scratch == old(self)@.scratch,
            final(self)@.replies == old(self)@.replies,
            final(self)@.replies_used == old(self)@.replies_used,
            forall|k: ScopeKind| #[trigger]
                final(self)@.depth(k) == old(self)@.depth(k) + (if opens(k, c@) {
                    1int
                } else {
                    0int
                }) - (if closes(k, c@) {
                    1int
                } else {
                    0int
                }),
    {
        let ghost pre = self.calls@;
        self.calls.push(c);
        proof {
            lemma_views_of_push(pre, c);
            let s = old(self)@.calls;
            assert(s == views_of(pre));
            assert(self@.calls == s.push(c@));
            assert forall|k: ScopeKind| #[trigger]
                self@.depth(k) == old(self)@.depth(k) + (if opens(k, c@) {
                    1int
                } else {
                    0int
                }) - (if closes(k, c@) {
                    1int
                } else {
                    0int
                }) by {
                lemma_open_count_push(k, s, c@);
                lemma_close_count_push(k, s, c@);
            }
            assert forall|k: ScopeKind, i: int|
                0 <= i <= self@.calls.len() implies #[trigger] close_count(k, self@.calls.take(i))
                <= open_count(k, self@.calls.take(i)) by {
                if i <= s.len() {
                    assert(close_count(k, old(self)@.calls.take(i)) <= open_count(
                        k,
                        old(self)@.calls.take(i),
                    ));
                    assert(s.push(c@).take(i) =~= s.take(i));
                } else {
                    assert(close_count(k, old(self)@.calls.take(s.len() as int)) <= open_count(
                        k,
                        old(self)@.calls.take(s.len() as int),
                    ));
                    assert(s.take(s.len() as int) =~= s);
                    assert(s.push(c@).take(i) =~= s.push(c@));
                    lemma_open_count_push(k, s, c@);
                    lemma_close_count_push(k, s, c@);
                }
            }
        }
    }

    /// Records one native call that neither opens nor closes a scope (a
    /// plot primitive): the record grows by that call and every scope depth
    /// stands.
    pub(crate) fn record_plot_call(&mut self, c: NativeCall)
        requires
            old(self).wf(),
            !(c@ is BeginDisabled),
            !(c@ is EndDisabled),
            !(c@ is PushItemFlag),
            !(c@ is PopItemFlag),
        ensures
            final(self).wf(),
            final(self)@.calls == old(self)@.calls.push(c@),
            final(self)@.scratch == old(self)@.scratch,
            final(self)@.replies == old(self)@.replies,
            final(self)@.replies_used == old(self)@.replies_used,
            forall|k: ScopeKind| #[trigger] final(self)@.depth(k) == old(self)@.depth(k),
    {
        self.push_call(c);
    }

    /// Consumes the next pending engine answer; an exhausted queue answers
    /// `false`.
    fn next_reply(&mut self) -> (r: bool)
        requires
            old(self).wf(),
        ensures
            final(self).wf(),
            final(self)@.calls == old(self)@.calls,
            final(self)@.scratch == old(self)@.scratch,
            final(self)@.replies == old(self)@.replies,
            r == old(self)@.reply_value(),
            final(self)@.replies_used == old(self)@.replies_used_after(),
    {
        let r = if self.replies_used < self.replies.len() {
            let r = self.replies[self.replies_used];
            self.replies_used = self.replies_used + 1;
            r
        } else {
            false
        };
        proof {
            assert forall|k: ScopeKind, i: int|
                0 <= i <= self@.calls.len() implies #[trigger] close_count(k, self@.calls.take(i))
                <= open_count(k, self@.calls.take(i)) by {
                assert(close_count(k, old(self)@.calls.take(i)) <= open_count(
                    k,
                    old(self)@.calls.take(i),
                ));
            }
        }
        r
    }

    /// Materializes `text` in the scratch buffer as terminated bytes for
    /// one native call: appends the bytes of `text` up to its first
    /// terminator, then one terminator byte, and returns the position the
    /// placed text begins at.
    ///
    /// The position stays meaningful only until the buffer is next written
    /// or reset; each call places its text after everything placed before,
    /// so no two placements alias.
    pub fn scratch_txt(&mut self, text: &str) -> (start: usize)
        requires
            old(self).wf(),
        ensures
            final(self).wf(),
            start == old(self)@.scratch.len(),
            final(self)@.scratch == old(self)@.scratch + c_text(text.spec_bytes()) + seq![0u8],
            final(self)@.calls == old(self)@.calls,
            final(self)@.replies == old(self)@.replies,
            final(self)@.replies_used == old(self)@.replies_used,
    {
        let start = self.scratch.len();
        append_terminated(&mut self.scratch, text.as_bytes());
        proof {
            assert(self@.calls == old(self)@.calls);
            assert(self@.replies == old(self)@.replies);
            assert forall|k: ScopeKind, i: int|
                0 <= i <= self@.calls.len() implies #[trigger] close_count(k, self@.calls.take(i))
                <= open_count(k, self@.calls.take(i)) by {
                assert(close_count(k, old(self)@.calls.take(i)) <= open_count(
                    k,
                    old(self)@.calls.take(i),
                ));
            }
        }
        start
    }

    /// Reads the terminated byte sequence beginning at `start` out of the
    /// scratch buffer: what a native callee handed that position would
    /// read.
    pub fn read_c_str(&self, start: usize) -> (bytes: Vec<u8>)
        requires
            start <= self@.scratch.len(),
        ensures
            bytes@ == c_text(self@.scratch.skip(start as int)),
    {
        read_terminated(&self.scratch, start)
    }

    /// Ends the frame: every scope must have been closed; the scratch
    /// buffer resets for the next frame, and the record of calls stands.
    pub fn end_frame(&mut self)
        requires
            old(self).wf(),
            old(self)@.depth(ScopeKind::Disabled) == 0,
            old(self)@.depth(ScopeKind::ItemFlag) == 0,
        ensures
            final(self).wf(),
            final(self)@.calls == old(self)@.calls,
            final(self)@.scratch == Seq::<u8>::empty(),
            final(self)@.replies == old(self)@.replies,
            final(self)@.replies_used == old(self)@.replies_used,
            forall|k: ScopeKind| #[trigger] open_count(k, final(self)@.calls) == close_count(
                k,
                final(self)@.calls,
            ),
    {
        proof {
            assert forall|k: ScopeKind| #[trigger]
                open_count(k, old(self)@.calls) == close_count(k, old(self)@.calls) by {
                assert(old(self)@.depth(k) == 0);
            }
        }
        self.scratch.clear();
    }
}

// ============================================================================
// Widgets
// ============================================================================

impl Ui {
    /// Records a bullet point.
    pub fn bullet(&mut self)
        requires
            old(self).wf(),
        ensures
            final(self).wf(),
            final(self)@.calls == old(self)@.calls.push(CallView::Bullet),
            final(self)@.scratch == old(self)@.scratch,
            final(self)@.replies == old(self)@.replies,
            final(self)@.replies_used == old(self)@.replies_used,
            forall|k: ScopeKind| #[trigger] final(self)@.depth(k) == old(self)@.depth(k),
    {
        self.push_call(NativeCall::Bullet);
    }

    /// Records a bullet point with text; the text is placed in the scratch
    /// buffer and the call carries its position.
    pub fn bullet_text(&mut self, text: &str)
        requires
            old(self).wf(),
        ensures
            final(self).wf(),
            final(self)@.calls == old(self)@.calls.push(
                CallView::BulletText { text: old(self)@.scratch.len() as int },
            ),
            final(self)@.scratch == old(self)@.scratch + c_text(text.spec_bytes()) + seq![0u8],
            final(self)@.replies == old(self)@.replies,
            final(self)@.replies_used == old(self)@.replies_used,
            forall|k: ScopeKind| #[trigger] final(self)@.depth(k) == old(self)@.depth(k),
    {
        let pos = self.scratch_txt(text);
        self.push_call(NativeCall::BulletText { text: pos });
    }

    /// Records a small button with the given label and returns the engine's
    /// answer: whether the button was pressed.
    pub fn small_button(&mut self, label: &str) -> (pressed: bool)
        requires
            old(self).wf(),
        ensures
            final(self).wf(),
            final(self)@.calls == old(self)@.calls.push(
                CallView::SmallButton { label: old(self)@.scratch.len() as int },
            ),
            final(self)@.scratch == old(self)@.scratch + c_text(label.spec_bytes()) + seq![0u8],
            final(self)@.replies == old(self)@.replies,
            pressed == old(self)@.reply_value(),
            final(self)@.replies_used == old(self)@.replies_used_after(),
            forall|k: ScopeKind| #[trigger] final(self)@.depth(k) == old(self)@.depth(k),
    {
        let pos = self.scratch_txt(label);
        let pressed = self.next_reply();
        self.push_call(NativeCall::SmallButton { label: pos });
        pressed
    }

    /// Records an invisible button with no flags.
    pub fn invisible_button(&mut self, str_id: &str, size: Vec2Bits) -> (pressed: bool)
        requires
            old(self).wf(),
        ensures
            final(self).wf(),
            final(self)@.calls == old(self)@.calls.push(
                CallView::InvisibleButton {
                    id: old(self)@.scratch.len() as int,
                    size,
                    flags: 0,
                },
            ),
            final(self)@.scratch == old(self)@.scratch + c_text(str_id.spec_bytes()) + seq![0u8],
            final(self)@.replies == old(self)@.replies,
            pressed == old(self)@.reply_value(),
            final(self)@.replies_used == old(self)@.replies_used_after(),
            forall|k: ScopeKind| #[trigger] final(self)@.depth(k) == old(self)@.depth(k),
    {
        self.invisible_button_flags(str_id, size, ButtonFlags::none())
    }

    /// Records an invisible button with the given flags; the call carries
    /// the flags' raw bits.
    pub fn invisible_button_flags(&mut self, str_id: &str, size: Vec2Bits, flags: ButtonFlags) -> (pressed:
        bool)
        requires
            old(self).wf(),
        ensures
            final(self).wf(),
            final(self)@.calls == old(self)@.calls.push(
                CallView::InvisibleButton {
                    id: old(self)@.scratch.len() as int,
                    size,
                    flags: flags@,
                },
            ),
            final(self)@.scratch == old(self)@.scratch + c_text(str_id.spec_bytes()) + seq![0u8],
            final(self)@.replies == old(self)@.replies,
            pressed == old(self)@.reply_value(),
            final(self)@.replies_used == old(self)@.replies_used_after(),
            forall|k: ScopeKind| #[trigger] final(self)@.depth(k) == old(self)@.depth(k),
    {
        let pos = self.scratch_txt(str_id);
        let bits = flags.bits();
        let pressed = self.next_reply();
        self.push_call(NativeCall::InvisibleButton { id: pos, size, flags: bits });
        pressed
    }

    /// Records an arrow button pointing in the given direction.
    pub fn arrow_button(&mut self, str_id: &str, dir: Direction) -> (pressed: bool)
        requires
            old(self).wf(),
        ensures
            final(self).wf(),
            final(self)@.calls == old(self)@.calls.push(
                CallView::ArrowButton {
                    id: old(self)@.scratch.len() as int,
                    dir: dir.to_native_spec(),
                },
            ),
            final(self)@.scratch == old(self)@.scratch + c_text(str_id.spec_bytes()) + seq![0u8],
            final(self)@.replies == old(self)@.replies,
            pressed == old(self)@.reply_value(),
            final(self)@.replies_used == old(self)@.replies_used_after(),
            forall|k: ScopeKind| #[trigger] final(self)@.depth(k) == old(self)@.depth(k),
    {
        let pos = self.scratch_txt(str_id);
        let raw = dir.to_native();
        let pressed = self.next_reply();
        self.push_call(NativeCall::ArrowButton { id: pos, dir: raw });
        pressed
    }

    /// Records key ownership of the last item for the given key, without
    /// input flags.
    pub fn set_item_key_owner(&mut self, key: Key)
        requires
            old(self).wf(),
        ensures
            final(self).wf(),
            final(self)@.calls == old(self)@.calls.push(
                CallView::SetItemKeyOwner { key: key.to_native_spec(), flags: 0 },
            ),
            final(self)@.scratch == old(self)@.scratch,
            final(self)@.replies == old(self)@.replies,
            final(self)@.replies_used == old(self)@.replies_used,
            forall|k: ScopeKind| #[trigger] final(self)@.depth(k) == old(self)@.depth(k),
    {
        let raw = key.to_native();
        self.push_call(NativeCall::SetItemKeyOwner { key: raw, flags: 0 });
    }

    /// Records key ownership of the last item with raw native input flag
    /// bits.
    pub fn set_item_key_owner_with_flags(&mut self, key: Key, flags: i32)
        requires
            old(self).wf(),
        ensures
            final(self).wf(),
            final(self)@.calls == old(self)@.calls.push(
                CallView::SetItemKeyOwner { key: key.to_native_spec(), flags },
            ),
            final(self)@.scratch == old(self)@.scratch,
            final(self)@.replies == old(self)@.replies,
            final(self)@.replies_used == old(self)@.replies_used,
            forall|k: ScopeKind| #[trigger] final(self)@.depth(k) == old(self)@.depth(k),
    {
        let raw = key.to_native();
        self.push_call(NativeCall::SetItemKeyOwner { key: raw, flags });
    }
}

// ============================================================================
// Scopes
// ============================================================================

/// One open disabled scope, handed out by [`Ui::begin_disabled`].
///
/// Its value is the scope's nesting level; [`DisabledToken::end`] accepts
/// only the innermost open scope, so releases are LIFO, and records exactly
/// one closing call. Consuming the token is the only way to close the
/// scope, so no scope closes twice; and a token left unreleased leaves its
/// scope open, which [`Ui::end_frame`] refuses — the frame cannot end until
/// the token stack is empty.
#[must_use]
pub struct DisabledToken {
    level: Ghost<int>,
}

impl View for DisabledToken {
    type V = int;

    closed spec fn view(&self) -> int {
        self.level@
    }
}

impl DisabledToken {
    /// Closes the disabled scope this token stands for: records the one
    /// matching native close call. Consumes the token, so the scope closes
    /// at most once; it must be the innermost open one.
    pub fn end(self, ui: &mut Ui)
        requires
            old(ui).wf(),
            self@ == old(ui)@.depth(ScopeKind::Disabled),
            self@ > 0,
        ensures
            final(ui).wf(),
            final(ui)@.calls == old(ui)@.calls.push(CallView::EndDisabled),
            final(ui)@.scratch == old(ui)@.scratch,
            final(ui)@.replies == old(ui)@.replies,
            final(ui)@.replies_used == old(ui)@.replies_used,
            final(ui)@.depth(ScopeKind::Disabled) == old(ui)@.depth(ScopeKind::Disabled) - 1,
            final(ui)@.depth(ScopeKind::ItemFlag) == old(ui)@.depth(ScopeKind::ItemFlag),
    {
        ui.push_call(NativeCall::EndDisabled);
    }
}

impl Ui {
    /// Opens a disabled scope: all following items are disabled until the
    /// returned token is released with [`DisabledToken::end`].
    pub fn begin_disabled(&mut self) -> (tok: DisabledToken)
        requires
            old(self).wf(),
        ensures
            final(self).wf(),
            final(self)@.calls == old(self)@.calls.push(CallView::BeginDisabled { disabled: true }),
            final(self)@.scratch == old(self)@.scratch,
            final(self)@.replies == old(self)@.replies,
            final(self)@.replies_used == old(self)@.replies_used,
            final(self)@.depth(ScopeKind::Disabled) == old(self)@.depth(ScopeKind::Disabled) + 1,
            final(self)@.depth(ScopeKind::ItemFlag) == old(self)@.depth(ScopeKind::ItemFlag),
            tok@ == final(self)@.depth(ScopeKind::Disabled),
    {
        self.begin_disabled_with_cond(true)
    }

    /// Opens a conditionally disabled scope. With `disabled` false the
    /// items stay enabled, but the scope is opened all the same and the
    /// returned token must still be released exactly once: the engine's
    /// stack balances regardless of the condition.
    pub fn begin_disabled_with_cond(&mut self, disabled: bool) -> (tok: DisabledToken)
        requires
            old(self).wf(),
        ensures
            final(self).wf(),
            final(self)@.calls == old(self)@.calls.push(CallView::BeginDisabled { disabled }),
            final(self)@.scratch == old(self)@.scratch,
            final(self)@.replies == old(self)@.replies,
            final(self)@.replies_used == old(self)@.replies_used,
            final(self)@.depth(ScopeKind::Disabled) == old(self)@.depth(ScopeKind::Disabled) + 1,
            final(self)@.depth(ScopeKind::ItemFlag) == old(self)@.depth(ScopeKind::ItemFlag),
            tok@ == final(self)@.depth(ScopeKind::Disabled),
    {
        self.push_call(NativeCall::BeginDisabled { disabled });
        let ghost level = self@.depth(ScopeKind::Disabled);
        DisabledToken { level: Ghost(level) }
    }

    /// Pushes the button-repeat item flag with the given value; pair with
    /// [`Ui::pop_button_repeat`].
    pub fn push_button_repeat(&mut self, repeat: bool)
        requires
            old(self).wf(),
        ensures
            final(self).wf(),
            final(self)@.calls == old(self)@.calls.push(
                CallView::PushItemFlag { flag: ITEM_FLAG_BUTTON_REPEAT, enabled: repeat },
            ),
            final(self)@.scratch == old(self)@.scratch,
            final(self)@.replies == old(self)@.replies,
            final(self)@.replies_used == old(self)@.replies_used,
            final(self)@.depth(ScopeKind::ItemFlag) == old(self)@.depth(ScopeKind::ItemFlag) + 1,
            final(self)@.depth(ScopeKind::Disabled) == old(self)@.depth(ScopeKind::Disabled),
    {
        self.push_call(NativeCall::PushItemFlag { flag: ITEM_FLAG_BUTTON_REPEAT, enabled: repeat });
    }

    /// Pops the innermost pushed item flag; one such flag must stand
    /// pushed.
    pub fn pop_button_repeat(&mut self)
        requires
            old(self).wf(),
            old(self)@.depth(ScopeKind::ItemFlag) > 0,
        ensures
            final(self).wf(),
            final(self)@.calls == old(self)@.calls.push(CallView::PopItemFlag),
            final(self)@.scratch == old(self)@.scratch,
            final(self)@.replies == old(self)@.replies,
            final(self)@.replies_used == old(self)@.replies_used,
            final(self)@.depth(ScopeKind::ItemFlag) == old(self)@.depth(ScopeKind::ItemFlag) - 1,
            final(self)@.depth(ScopeKind::Disabled) == old(self)@.depth(ScopeKind::Disabled),
    {
        self.push_call(NativeCall::PopItemFlag);
    }
}

} // verus!

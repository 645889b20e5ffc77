//! A safe, verified facade over an immediate-mode GUI engine and its plotting
//! extension.
//!
//! The native engine is an imperative, stack-based C API: paired `Begin*` /
//! `End*` calls, flag bitmasks, and raw null-terminated character buffers.
//! This crate turns that surface into a well-typed one and proves the
//! discipline that makes it safe:
//!
//! * every opened scope is closed exactly once, in LIFO order, and the engine
//!   stack is never popped while empty;
//! * caller text is materialized as terminated byte sequences in a reusable
//!   scratch buffer, and reading from the returned position up to the
//!   terminator yields exactly the caller's bytes;
//! * flag sets are bit-precise: set algebra on the typed side agrees with the
//!   integer algebra the engine sees;
//! * plot descriptors are validated before anything is handed down, and
//!   nothing is drawn from inconsistent data.
//!
//! The engine itself lives behind the process boundary; here a [`Ui`] records
//! the exact sequence of native calls it would issue, as plain values
//! ([`NativeCall`]). A backend drains that record and performs it; the
//! contracts in this crate pin down, call for call, what that record holds.

mod abi;
mod cmd;
mod enums;
mod error;
mod flags;
mod plots;
mod text;
mod ui;

pub use abi::F32_ONE_BITS;
pub use abi::F32_ZERO_BITS;
pub use abi::F64_ONE_BITS;
pub use abi::F64_WIDTH;
pub use abi::F64_ZERO_BITS;
pub use abi::PlotPoint;
pub use abi::RgbaBits;
pub use abi::TextureId;
pub use abi::Vec2Bits;
pub use cmd::CallView;
pub use cmd::NativeCall;
pub use cmd::ScopeKind;
pub use cmd::close_count;
pub use cmd::closes;
pub use cmd::open_count;
pub use cmd::opens;
pub use cmd::views_of;
pub use enums::Direction;
pub use enums::Direction as ArrowDirection;
pub use enums::Key;
pub use enums::lemma_direction_round_trip;
pub use enums::lemma_key_round_trip;
pub use error::PlotError;
pub use flags::ButtonFlags;
pub use flags::ImageFlags;
pub use flags::lemma_button_flags_bits_injective;
pub use flags::lemma_image_flags_bits_injective;
pub use plots::ImagePlot;
pub use plots::ImageView;
pub use plots::PlotUi;
pub use plots::ScatterPlot;
pub use plots::ScatterView;
pub use plots::SimpleScatterPlot;
pub use plots::SimpleScatterView;
pub use plots::data_lengths_ok;
pub use plots::image_validate_spec;
pub use plots::lemma_scatter_validate_depends_on_data;
pub use plots::scatter_validate_spec;
pub use plots::validate_data_lengths;
pub use text::append_terminated;
pub use text::c_text;
pub use text::c_text_bytes;
pub use text::lemma_c_text_has_no_nul;
pub use text::lemma_c_text_of_clean;
pub use text::lemma_scratch_round_trip;
pub use text::read_terminated;
pub use ui::DisabledToken;
pub use ui::ITEM_FLAG_BUTTON_REPEAT;
pub use ui::Ui;
pub use ui::UiView;
pub use ui::lemma_never_closes_unopened;
pub use ui::lemma_scope_balance;

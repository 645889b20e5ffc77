//! Plot descriptors and the plotting facade.
//!
//! A descriptor is an unexecuted, declaratively configured plot primitive:
//! construction takes the mandatory inputs, chained `with_*` setters shadow
//! one field at a time, `validate` classifies the configuration, and `plot`
//! records the native call — or records nothing when validation fails, so
//! inconsistent data never reaches the engine. The one-shot methods on
//! [`PlotUi`] build, validate and execute in a single call and surface the
//! validation error.
//!
//! Scalar data crosses this layer as 64-bit bit patterns (see [`crate::abi`]);
//! labels are truncated at the first terminator byte, as their one-shot
//! native strings are built per call.

use vstd::prelude::*;
use vstd::slice::slice_to_vec;
use vstd::string::StringSliceAdditionalSpecFns;

use crate::abi::F64_ONE_BITS;
use crate::abi::F64_WIDTH;
use crate::abi::F64_ZERO_BITS;
use crate::abi::PlotPoint;
use crate::abi::RgbaBits;
use crate::abi::TextureId;
use crate::abi::Vec2Bits;
use crate::cmd::CallView;
use crate::cmd::NativeCall;
use crate::cmd::ScopeKind;
use crate::error::PlotError;
use crate::flags::ImageFlags;
use crate::text::c_text;
use crate::text::c_text_bytes;
use crate::ui::Ui;
use crate::ui::UiView;

verus! {

/// Success exactly when the paired slices agree in length; otherwise the
/// mismatch error.
pub open spec fn data_lengths_ok(xs: Seq<u64>, ys: Seq<u64>) -> Result<(), PlotError> {
    if xs.len() == ys.len() {
        Ok(())
    } else {
        Err(PlotError::MismatchedLengths)
    }
}

/// Checks that paired data slices agree in length.
pub fn validate_data_lengths(x_data: &[u64], y_data: &[u64]) -> (r: Result<(), PlotError>)
    ensures
        r == data_lengths_ok(x_data@, y_data@),
{
    if x_data.len() == y_data.len() {
        Ok(())
    } else {
        Err(PlotError::MismatchedLengths)
    }
}

// ============================================================================
// Scatter
// ============================================================================

/// The mathematical value of a [`ScatterPlot`] descriptor: its final field
/// values.
#[verifier::ext_equal]
pub struct ScatterView {
    pub label: Seq<char>,
    pub xs: Seq<u64>,
    pub ys: Seq<u64>,
    pub flags: i32,
    pub offset: i32,
    pub stride: i32,
}

/// Validation of a scatter descriptor depends on its data fields alone:
/// success exactly when X and Y agree in length.
pub open spec fn scatter_validate_spec(v: ScatterView) -> Result<(), PlotError> {
    data_lengths_ok(v.xs, v.ys)
}

/// Validation reads nothing but the lengths of the data fields: any two
/// descriptor values whose data lengths agree — whatever their labels,
/// flags, offsets or strides — validate alike.
pub proof fn lemma_scatter_validate_depends_on_data(a: ScatterView, b: ScatterView)
    requires
        a.xs.len() == b.xs.len(),
        a.ys.len() == b.ys.len(),
    ensures
        scatter_validate_spec(a) == scatter_validate_spec(b),
{
}

/// Builder for scatter plots over paired X and Y data.
pub struct ScatterPlot<'a> {
    label: &'a str,
    x_data: &'a [u64],
    y_data: &'a [u64],
    flags: i32,
    offset: i32,
    stride: i32,
}

impl<'a> View for ScatterPlot<'a> {
    type V = ScatterView;

    closed spec fn view(&self) -> ScatterView {
        ScatterView {
            label: self.label@,
            xs: self.x_data@,
            ys: self.y_data@,
            flags: self.flags,
            offset: self.offset,
            stride: self.stride,
        }
    }
}

impl<'a> ScatterPlot<'a> {
    /// A scatter plot with the given label and data, no flags, no offset,
    /// and the stride of contiguous 64-bit scalars.
    pub fn new(label: &'a str, x_data: &'a [u64], y_data: &'a [u64]) -> (r: ScatterPlot<'a>)
        ensures
            r@ == (ScatterView {
                label: label@,
                xs: x_data@,
                ys: y_data@,
                flags: 0,
                offset: 0,
                stride: F64_WIDTH,
            }),
    {
        ScatterPlot { label, x_data, y_data, flags: 0, offset: 0, stride: F64_WIDTH }
    }

    /// This descriptor with the given native scatter flag bits.
    pub fn with_flags(self, flags: i32) -> (r: ScatterPlot<'a>)
        ensures
            r@ == (ScatterView { flags, ..self@ }),
    {
        ScatterPlot { flags, ..self }
    }

    /// This descriptor with the given data offset.
    pub fn with_offset(self, offset: i32) -> (r: ScatterPlot<'a>)
        ensures
            r@ == (ScatterView { offset, ..self@ }),
    {
        ScatterPlot { offset, ..self }
    }

    /// This descriptor with the given data stride.
    pub fn with_stride(self, stride: i32) -> (r: ScatterPlot<'a>)
        ensures
            r@ == (ScatterView { stride, ..self@ }),
    {
        ScatterPlot { stride, ..self }
    }

    /// Classifies this descriptor: success exactly when X and Y agree in
    /// length, else the mismatch error.
    pub fn validate(&self) -> (r: Result<(), PlotError>)
        ensures
            r == scatter_validate_spec(self@),
    {
        validate_data_lengths(self.x_data, self.y_data)
    }

    /// The descriptor's label.
    pub fn label(&self) -> (r: &str)
        ensures
            r@ == self@.label,
    {
        self.label
    }

    /// Records the native scatter call — or records nothing when this
    /// descriptor does not validate, so mismatched data is never handed
    /// down. The recorded call carries the truncated label bytes and both
    /// data slices; the native count is their shared length.
    pub fn plot(&self, ui: &mut Ui)
        requires
            old(ui).wf(),
        ensures
            final(ui).wf(),
            scatter_validate_spec(self@) is Ok ==> final(ui)@.calls == old(ui)@.calls.push(
                CallView::PlotScatter {
                    label: c_text(vstd::utf8::encode_utf8(self@.label)),
                    xs: self@.xs,
                    ys: self@.ys,
                },
            ),
            scatter_validate_spec(self@) is Err ==> final(ui)@ == old(ui)@,
            final(ui)@.scratch == old(ui)@.scratch,
            final(ui)@.replies == old(ui)@.replies,
            final(ui)@.replies_used == old(ui)@.replies_used,
            forall|k: ScopeKind| #[trigger] final(ui)@.depth(k) == old(ui)@.depth(k),
    {
        if self.validate().is_err() {
            return ;
        }
        let label = c_text_bytes(self.label.as_bytes());
        let xs = slice_to_vec(self.x_data);
        let ys = slice_to_vec(self.y_data);
        ui.record_plot_call(NativeCall::PlotScatter { label, xs, ys });
    }
}

// ============================================================================
// Simple scatter
// ============================================================================

/// The mathematical value of a [`SimpleScatterPlot`] descriptor.
#[verifier::ext_equal]
pub struct SimpleScatterView {
    pub label: Seq<char>,
    pub values: Seq<u64>,
    pub x_scale_bits: u64,
    pub x_start_bits: u64,
}

/// Simple scatter plot over Y values alone; X is synthesized from the
/// indices as `start + i * scale`.
pub struct SimpleScatterPlot<'a> {
    label: &'a str,
    values: &'a [u64],
    x_scale_bits: u64,
    x_start_bits: u64,
}

impl<'a> View for SimpleScatterPlot<'a> {
    type V = SimpleScatterView;

    closed spec fn view(&self) -> SimpleScatterView {
        SimpleScatterView {
            label: self.label@,
            values: self.values@,
            x_scale_bits: self.x_scale_bits,
            x_start_bits: self.x_start_bits,
        }
    }
}

impl<'a> SimpleScatterPlot<'a> {
    /// A simple scatter plot with the given label and Y values; X starts at
    /// zero and steps by one.
    pub fn new(label: &'a str, values: &'a [u64]) -> (r: SimpleScatterPlot<'a>)
        ensures
            r@ == (SimpleScatterView {
                label: label@,
                values: values@,
                x_scale_bits: F64_ONE_BITS,
                x_start_bits: F64_ZERO_BITS,
            }),
    {
        SimpleScatterPlot {
            label,
            values,
            x_scale_bits: F64_ONE_BITS,
            x_start_bits: F64_ZERO_BITS,
        }
    }

    /// This descriptor with the given X scale factor (a 64-bit scalar bit
    /// pattern).
    pub fn with_x_scale(self, scale_bits: u64) -> (r: SimpleScatterPlot<'a>)
        ensures
            r@ == (SimpleScatterView { x_scale_bits: scale_bits, ..self@ }),
    {
        SimpleScatterPlot { x_scale_bits: scale_bits, ..self }
    }

    /// This descriptor with the given X start value (a 64-bit scalar bit
    /// pattern).
    pub fn with_x_start(self, start_bits: u64) -> (r: SimpleScatterPlot<'a>)
        ensures
            r@ == (SimpleScatterView { x_start_bits: start_bits, ..self@ }),
    {
        SimpleScatterPlot { x_start_bits: start_bits, ..self }
    }

    /// The descriptor's label.
    pub fn label(&self) -> (r: &str)
        ensures
            r@ == self@.label,
    {
        self.label
    }

    /// Records the native scatter call over the Y values, with X left for
    /// the backend to materialize as `start + i * scale` over the indices —
    /// or records nothing when there are no values, as there is nothing to
    /// draw.
    pub fn plot(&self, ui: &mut Ui)
        requires
            old(ui).wf(),
        ensures
            final(ui).wf(),
            self@.values.len() > 0 ==> final(ui)@.calls == old(ui)@.calls.push(
                CallView::PlotScatterIndexed {
                    label: c_text(vstd::utf8::encode_utf8(self@.label)),
                    x_start_bits: self@.x_start_bits,
                    x_scale_bits: self@.x_scale_bits,
                    ys: self@.values,
                },
            ),
            self@.values.len() == 0 ==> final(ui)@ == old(ui)@,
            final(ui)@.scratch == old(ui)@.scratch,
            final(ui)@.replies == old(ui)@.replies,
            final(ui)@.replies_used == old(ui)@.replies_used,
            forall|k: ScopeKind| #[trigger] final(ui)@.depth(k) == old(ui)@.depth(k),
    {
        if self.values.len() == 0 {
            return ;
        }
        let label = c_text_bytes(self.label.as_bytes());
        let ys = slice_to_vec(self.values);
        ui.record_plot_call(
            NativeCall::PlotScatterIndexed {
                label,
                x_start_bits: self.x_start_bits,
                x_scale_bits: self.x_scale_bits,
                ys,
            },
        );
    }
}

// ============================================================================
// Image
// ============================================================================

/// The mathematical value of an [`ImagePlot`] descriptor.
#[verifier::ext_equal]
pub struct ImageView {
    pub label: Seq<char>,
    pub tex_id: u64,
    pub bounds_min: PlotPoint,
    pub bounds_max: PlotPoint,
    pub uv0: Vec2Bits,
    pub uv1: Vec2Bits,
    pub tint: RgbaBits,
    pub flags: u32,
}

/// An image descriptor is always valid: there is no inconsistency to
/// classify, degenerate bounds included — their visual outcome is the
/// engine's responsibility.
pub open spec fn image_validate_spec(v: ImageView) -> Result<(), PlotError> {
    Ok(())
}

/// Plots an image in plot coordinates from an opaque texture identifier.
pub struct ImagePlot<'a> {
    label: &'a str,
    tex_id: u64,
    bounds_min: PlotPoint,
    bounds_max: PlotPoint,
    uv0: Vec2Bits,
    uv1: Vec2Bits,
    tint: RgbaBits,
    flags: ImageFlags,
}

impl<'a> View for ImagePlot<'a> {
    type V = ImageView;

    closed spec fn view(&self) -> ImageView {
        ImageView {
            label: self.label@,
            tex_id: self.tex_id,
            bounds_min: self.bounds_min,
            bounds_max: self.bounds_max,
            uv0: self.uv0,
            uv1: self.uv1,
            tint: self.tint,
            flags: self.flags@,
        }
    }
}

impl<'a> ImagePlot<'a> {
    /// An image plot with the given label, texture identifier and bounds;
    /// texture coordinates default to the full texture (zero to one) and
    /// the tint to opaque white.
    pub fn new(label: &'a str, tex_id: u64, bounds_min: PlotPoint, bounds_max: PlotPoint) -> (r:
        ImagePlot<'a>)
        ensures
            r@ == (ImageView {
                label: label@,
                tex_id,
                bounds_min,
                bounds_max,
                uv0: Vec2Bits { x_bits: 0, y_bits: 0 },
                uv1: Vec2Bits {
                    x_bits: crate::abi::F32_ONE_BITS,
                    y_bits: crate::abi::F32_ONE_BITS,
                },
                tint: RgbaBits {
                    r_bits: crate::abi::F32_ONE_BITS,
                    g_bits: crate::abi::F32_ONE_BITS,
                    b_bits: crate::abi::F32_ONE_BITS,
                    a_bits: crate::abi::F32_ONE_BITS,
                },
                flags: 0,
            }),
    {
        ImagePlot {
            label,
            tex_id,
            bounds_min,
            bounds_max,
            uv0: Vec2Bits::zero(),
            uv1: Vec2Bits::one(),
            tint: RgbaBits::opaque_white(),
            flags: ImageFlags::none(),
        }
    }

    /// This descriptor with the given texture coordinates.
    pub fn with_uv(self, uv0: Vec2Bits, uv1: Vec2Bits) -> (r: ImagePlot<'a>)
        ensures
            r@ == (ImageView { uv0, uv1, ..self@ }),
    {
        ImagePlot { uv0, uv1, ..self }
    }

    /// This descriptor with the given tint color.
    pub fn with_tint(self, tint: RgbaBits) -> (r: ImagePlot<'a>)
        ensures
            r@ == (ImageView { tint, ..self@ }),
    {
        ImagePlot { tint, ..self }
    }

    /// This descriptor with the given image flags.
    pub fn with_flags(self, flags: ImageFlags) -> (r: ImagePlot<'a>)
        ensures
            r@ == (ImageView { flags: flags@, ..self@ }),
    {
        ImagePlot { flags, ..self }
    }

    /// Classifies this descriptor: always success.
    pub fn validate(&self) -> (r: Result<(), PlotError>)
        ensures
            r == image_validate_spec(self@),
    {
        Ok(())
    }

    /// The descriptor's label.
    pub fn label(&self) -> (r: &str)
        ensures
            r@ == self@.label,
    {
        self.label
    }

    /// Records the native image call: the texture reference carries the
    /// identifier unchanged (with a reserved null pointer beside it), and
    /// the flag bits cross bit-preserved.
    pub fn plot(&self, ui: &mut Ui)
        requires
            old(ui).wf(),
        ensures
            final(ui).wf(),
            final(ui)@.calls == old(ui)@.calls.push(
                CallView::PlotImage {
                    label: c_text(vstd::utf8::encode_utf8(self@.label)),
                    tex_id: self@.tex_id,
                    bounds_min: self@.bounds_min,
                    bounds_max: self@.bounds_max,
                    uv0: self@.uv0,
                    uv1: self@.uv1,
                    tint: self@.tint,
                    flags: self@.flags as i32,
                },
            ),
            final(ui)@.scratch == old(ui)@.scratch,
            final(ui)@.replies == old(ui)@.replies,
            final(ui)@.replies_used == old(ui)@.replies_used,
            forall|k: ScopeKind| #[trigger] final(ui)@.depth(k) == old(ui)@.depth(k),
    {
        let label = c_text_bytes(self.label.as_bytes());
        let flag_bits = self.flags.bits() as i32;
        ui.record_plot_call(
            NativeCall::PlotImage {
                label,
                tex_id: self.tex_id,
                bounds_min: self.bounds_min,
                bounds_max: self.bounds_max,
                uv0: self.uv0,
                uv1: self.uv1,
                tint: self.tint,
                flags: flag_bits,
            },
        );
    }
}

// ============================================================================
// Facade
// ============================================================================

/// An active 2D plot frame: the plotting facade over a [`Ui`].
///
/// It takes the frame over for the duration of the plot block and hands it
/// back with [`PlotUi::into_ui`]; its record is the frame's record.
pub struct PlotUi {
    ui: Ui,
}

impl View for PlotUi {
    type V = UiView;

    closed spec fn view(&self) -> UiView {
        self.ui@
    }
}

impl PlotUi {
    /// Whether the underlying frame is well formed.
    pub open spec fn wf(self) -> bool {
        self@.wf()
    }

    /// Opens a plot block over the given frame.
    pub fn new(ui: Ui) -> (r: PlotUi)
        ensures
            r@ == ui@,
    {
        PlotUi { ui }
    }

    /// Closes the plot block and hands the frame back.
    pub fn into_ui(self) -> (ui: Ui)
        ensures
            ui@ == self@,
    {
        self.ui
    }

    /// Builds, validates and draws a scatter plot in one call. Success
    /// exactly when X and Y agree in length; on the mismatch error nothing
    /// is recorded.
    pub fn scatter_plot(&mut self, label: &str, x_data: &[u64], y_data: &[u64]) -> (r: Result<
        (),
        PlotError,
    >)
        requires
            old(self).wf(),
        ensures
            final(self).wf(),
            r == data_lengths_ok(x_data@, y_data@),
            x_data@.len() == y_data@.len() ==> final(self)@.calls == old(self)@.calls.push(
                CallView::PlotScatter {
                    label: c_text(vstd::utf8::encode_utf8(label@)),
                    xs: x_data@,
                    ys: y_data@,
                },
            ),
            x_data@.len() != y_data@.len() ==> final(self)@ == old(self)@,
            final(self)@.scratch == old(self)@.scratch,
            final(self)@.replies == old(self)@.replies,
            final(self)@.replies_used == old(self)@.replies_used,
    {
        let plot = ScatterPlot::new(label, x_data, y_data);
        match plot.validate() {
            Err(e) => Err(e),
            Ok(()) => {
                plot.plot(&mut self.ui);
                Ok(())
            },
        }
    }

    /// Builds and draws a simple scatter plot over Y values alone, in one
    /// call. An empty input is the empty-data error, and nothing is
    /// recorded; otherwise the recorded call carries the values with the
    /// default X synthesis (start zero, step one).
    pub fn simple_scatter_plot(&mut self, label: &str, values: &[u64]) -> (r: Result<
        (),
        PlotError,
    >)
        requires
            old(self).wf(),
        ensures
            final(self).wf(),
            values@.len() == 0 ==> r == Err::<(), PlotError>(PlotError::EmptyData) && final(self)@
                == old(self)@,
            values@.len() > 0 ==> r == Ok::<(), PlotError>(()) && final(self)@.calls == old(
                self,
            )@.calls.push(
                CallView::PlotScatterIndexed {
                    label: c_text(vstd::utf8::encode_utf8(label@)),
                    x_start_bits: F64_ZERO_BITS,
                    x_scale_bits: F64_ONE_BITS,
                    ys: values@,
                },
            ),
            final(self)@.scratch == old(self)@.scratch,
            final(self)@.replies == old(self)@.replies,
            final(self)@.replies_used == old(self)@.replies_used,
    {
        if values.len() == 0 {
            return Err(PlotError::EmptyData);
        }
        let plot = SimpleScatterPlot::new(label, values);
        plot.plot(&mut self.ui);
        Ok(())
    }

    /// Builds, validates and draws an image plot in one call; always
    /// succeeds and records exactly one native image call with the default
    /// texture coordinates and tint.
    pub fn plot_image(&mut self, label: &str, tex_id: u64, bounds_min: PlotPoint, bounds_max:
        PlotPoint) -> (r: Result<(), PlotError>)
        requires
            old(self).wf(),
        ensures
            final(self).wf(),
            r == Ok::<(), PlotError>(()),
            final(self)@.calls == old(self)@.calls.push(
                CallView::PlotImage {
                    label: c_text(vstd::utf8::encode_utf8(label@)),
                    tex_id,
                    bounds_min,
                    bounds_max,
                    uv0: Vec2Bits { x_bits: 0, y_bits: 0 },
                    uv1: Vec2Bits {
                        x_bits: crate::abi::F32_ONE_BITS,
                        y_bits: crate::abi::F32_ONE_BITS,
                    },
                    tint: RgbaBits {
                        r_bits: crate::abi::F32_ONE_BITS,
                        g_bits: crate::abi::F32_ONE_BITS,
                        b_bits: crate::abi::F32_ONE_BITS,
                        a_bits: crate::abi::F32_ONE_BITS,
                    },
                    flags: 0,
                },
            ),
            final(self)@.scratch == old(self)@.scratch,
            final(self)@.replies == old(self)@.replies,
            final(self)@.replies_used == old(self)@.replies_used,
    {
        let plot = ImagePlot::new(label, tex_id, bounds_min, bounds_max);
        match plot.validate() {
            Err(e) => Err(e),
            Ok(()) => {
                plot.plot(&mut self.ui);
                Ok(())
            },
        }
    }

    /// Draws an image from the adjacent binding's texture wrapper: the
    /// wrapped identifier crosses bit-preserved into the same native image
    /// call as [`PlotUi::plot_image`].
    pub fn plot_image_with_imgui_texture(&mut self, label: &str, texture: TextureId, bounds_min:
        PlotPoint, bounds_max: PlotPoint) -> (r: Result<(), PlotError>)
        requires
            old(self).wf(),
        ensures
            final(self).wf(),
            r == Ok::<(), PlotError>(()),
            final(self)@.calls == old(self)@.calls.push(
                CallView::PlotImage {
                    label: c_text(vstd::utf8::encode_utf8(label@)),
                    tex_id: texture@,
                    bounds_min,
                    bounds_max,
                    uv0: Vec2Bits { x_bits: 0, y_bits: 0 },
                    uv1: Vec2Bits {
                        x_bits: crate::abi::F32_ONE_BITS,
                        y_bits: crate::abi::F32_ONE_BITS,
                    },
                    tint: RgbaBits {
                        r_bits: crate::abi::F32_ONE_BITS,
                        g_bits: crate::abi::F32_ONE_BITS,
                        b_bits: crate::abi::F32_ONE_BITS,
                        a_bits: crate::abi::F32_ONE_BITS,
                    },
                    flags: 0,
                },
            ),
            final(self)@.scratch == old(self)@.scratch,
            final(self)@.replies == old(self)@.replies,
            final(self)@.replies_used == old(self)@.replies_used,
    {
        let raw = texture.id();
        self.plot_image(label, raw, bounds_min, bounds_max)
    }
}

} // verus!

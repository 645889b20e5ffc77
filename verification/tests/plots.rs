//! Plot descriptors, validation, and the plotting facade.

use imgui_core::ImagePlot;
use imgui_core::NativeCall;
use imgui_core::PlotError;
use imgui_core::PlotPoint;
use imgui_core::PlotUi;
use imgui_core::ScatterPlot;
use imgui_core::SimpleScatterPlot;
use imgui_core::Ui;

fn bits_of(values: &[f64]) -> Vec<u64> {
    values.iter().map(|v| v.to_bits()).collect()
}

#[test]
fn test_scatter_plot_creation() {
    let x_data = bits_of(&[1.0, 2.0, 3.0, 4.0]);
    let y_data = bits_of(&[1.0, 4.0, 2.0, 3.0]);

    let plot = ScatterPlot::new("test", &x_data, &y_data);
    assert_eq!(plot.label(), "test");
    assert!(plot.validate().is_ok());
}

#[test]
fn test_scatter_plot_validation() {
    let x_data = bits_of(&[1.0, 2.0, 3.0]);
    let y_data = bits_of(&[1.0, 4.0]); // Different length

    let plot = ScatterPlot::new("test", &x_data, &y_data);
    assert!(plot.validate().is_err());
}

#[test]
fn test_simple_scatter_plot() {
    let values = bits_of(&[1.0, 2.0, 3.0, 4.0]);
    let plot = SimpleScatterPlot::new("test", &values);
    assert_eq!(plot.label(), "test");
}

#[test]
fn empty_scatter_validates_and_draws_no_points() {
    let x_data: Vec<u64> = Vec::new();
    let y_data: Vec<u64> = Vec::new();
    let plot = ScatterPlot::new("empty", &x_data, &y_data);
    assert!(plot.validate().is_ok());

    let mut ui = Ui::new();
    plot.plot(&mut ui);
    let calls = ui.calls();
    assert_eq!(calls.len(), 1);
    match &calls[0] {
        NativeCall::PlotScatter { xs, ys, .. } => {
            // The native call goes out with a shared count of zero.
            assert!(xs.is_empty());
            assert!(ys.is_empty());
        }
        other => panic!("expected a scatter call, got {:?}", other),
    }
}

#[test]
fn mismatched_scatter_draws_nothing() {
    let x_data = bits_of(&[1.0, 2.0, 3.0]);
    let y_data = bits_of(&[1.0, 4.0]);
    let plot = ScatterPlot::new("bad", &x_data, &y_data);
    assert_eq!(plot.validate(), Err(PlotError::MismatchedLengths));

    let mut ui = Ui::new();
    plot.plot(&mut ui);
    assert!(ui.calls().is_empty());
}

#[test]
fn scatter_facade_reports_mismatched_lengths() {
    let x_data = bits_of(&[1.0, 2.0, 3.0]);
    let y_data = bits_of(&[1.0, 4.0]);
    let mut plot_ui = PlotUi::new(Ui::new());
    let result = plot_ui.scatter_plot("s", &x_data, &y_data);
    assert_eq!(result, Err(PlotError::MismatchedLengths));
    let ui = plot_ui.into_ui();
    assert!(ui.calls().is_empty());
}

#[test]
fn scatter_facade_records_matching_data() {
    let x_data = bits_of(&[1.0, 2.0, 3.0]);
    let y_data = bits_of(&[2.0, 4.0, 6.0]);
    let mut plot_ui = PlotUi::new(Ui::new());
    let result = plot_ui.scatter_plot("s", &x_data, &y_data);
    assert_eq!(result, Ok(()));
    let ui = plot_ui.into_ui();
    let calls = ui.calls();
    assert_eq!(calls.len(), 1);
    match &calls[0] {
        NativeCall::PlotScatter { label, xs, ys } => {
            assert_eq!(label.as_slice(), b"s");
            assert_eq!(xs, &x_data);
            assert_eq!(ys, &y_data);
        }
        other => panic!("expected a scatter call, got {:?}", other),
    }
}

#[test]
fn empty_simple_scatter_is_empty_data_at_the_facade() {
    let values: Vec<u64> = Vec::new();
    let mut plot_ui = PlotUi::new(Ui::new());
    let result = plot_ui.simple_scatter_plot("s", &values);
    assert_eq!(result, Err(PlotError::EmptyData));
    let ui = plot_ui.into_ui();
    assert!(ui.calls().is_empty());
}

#[test]
fn simple_scatter_synthesizes_x_from_start_and_scale() {
    let values = bits_of(&[10.0, 20.0, 30.0]);
    let plot = SimpleScatterPlot::new("synth", &values)
        .with_x_start(5.0f64.to_bits())
        .with_x_scale(2.0f64.to_bits());

    let mut ui = Ui::new();
    plot.plot(&mut ui);
    let calls = ui.calls();
    assert_eq!(calls.len(), 1);
    match &calls[0] {
        NativeCall::PlotScatterIndexed {
            label,
            x_start_bits,
            x_scale_bits,
            ys,
        } => {
            assert_eq!(label.as_slice(), b"synth");
            assert_eq!(ys, &values);
            assert_eq!(ys.len(), 3);
            let start = f64::from_bits(*x_start_bits);
            let scale = f64::from_bits(*x_scale_bits);
            let xs: Vec<f64> = (0..ys.len()).map(|i| start + i as f64 * scale).collect();
            assert_eq!(xs, vec![5.0, 7.0, 9.0]);
            let ys_back: Vec<f64> = ys.iter().map(|b| f64::from_bits(*b)).collect();
            assert_eq!(ys_back, vec![10.0, 20.0, 30.0]);
        }
        other => panic!("expected an indexed scatter call, got {:?}", other),
    }
}

#[test]
fn image_defaults_cover_the_full_texture_in_opaque_white() {
    let min = PlotPoint::new(0.0f64.to_bits(), 0.0f64.to_bits());
    let max = PlotPoint::new(1.0f64.to_bits(), 1.0f64.to_bits());
    let mut plot_ui = PlotUi::new(Ui::new());
    let result = plot_ui.plot_image("img", 42, min, max);
    assert_eq!(result, Ok(()));
    let ui = plot_ui.into_ui();
    let calls = ui.calls();
    assert_eq!(calls.len(), 1);
    match &calls[0] {
        NativeCall::PlotImage {
            label,
            tex_id,
            bounds_min,
            bounds_max,
            uv0,
            uv1,
            tint,
            flags,
        } => {
            assert_eq!(label.as_slice(), b"img");
            assert_eq!(*tex_id, 42);
            assert_eq!(*bounds_min, min);
            assert_eq!(*bounds_max, max);
            assert_eq!(f32::from_bits(uv0.x_bits), 0.0);
            assert_eq!(f32::from_bits(uv0.y_bits), 0.0);
            assert_eq!(f32::from_bits(uv1.x_bits), 1.0);
            assert_eq!(f32::from_bits(uv1.y_bits), 1.0);
            for channel in [tint.r_bits, tint.g_bits, tint.b_bits, tint.a_bits] {
                assert_eq!(f32::from_bits(channel), 1.0);
            }
            assert_eq!(*flags, 0);
        }
        other => panic!("expected an image call, got {:?}", other),
    }
}

#[test]
fn image_with_degenerate_bounds_still_issues_the_call() {
    let p = PlotPoint::new(3.0f64.to_bits(), 3.0f64.to_bits());
    let plot = ImagePlot::new("flat", 7, p, p);
    assert!(plot.validate().is_ok());
    let mut ui = Ui::new();
    plot.plot(&mut ui);
    assert_eq!(ui.calls().len(), 1);
}

#[test]
fn image_builder_setters_shadow_one_field_at_a_time() {
    let min = PlotPoint::new(0.0f64.to_bits(), 0.0f64.to_bits());
    let max = PlotPoint::new(2.0f64.to_bits(), 2.0f64.to_bits());
    let plot = ImagePlot::new("tiled", 9, min, max)
        .with_uv(
            imgui_core::Vec2Bits::new(0.25f32.to_bits(), 0.25f32.to_bits()),
            imgui_core::Vec2Bits::new(0.75f32.to_bits(), 0.75f32.to_bits()),
        )
        .with_tint(imgui_core::RgbaBits::new(
            1.0f32.to_bits(),
            0.0f32.to_bits(),
            0.0f32.to_bits(),
            0.5f32.to_bits(),
        ))
        .with_flags(imgui_core::ImageFlags::from_bits_retain(4));
    assert_eq!(plot.label(), "tiled");
    let mut ui = Ui::new();
    plot.plot(&mut ui);
    match &ui.calls()[0] {
        NativeCall::PlotImage {
            uv0, uv1, tint, flags, ..
        } => {
            assert_eq!(f32::from_bits(uv0.x_bits), 0.25);
            assert_eq!(f32::from_bits(uv1.y_bits), 0.75);
            assert_eq!(f32::from_bits(tint.g_bits), 0.0);
            assert_eq!(f32::from_bits(tint.a_bits), 0.5);
            assert_eq!(*flags, 4);
        }
        other => panic!("expected an image call, got {:?}", other),
    }
}

#[test]
fn texture_wrapper_crosses_bit_preserved() {
    let texture = imgui_core::TextureId::new(0xDEAD_BEEF);
    assert_eq!(texture.id(), 0xDEAD_BEEF);
    let min = PlotPoint::new(0.0f64.to_bits(), 0.0f64.to_bits());
    let max = PlotPoint::new(1.0f64.to_bits(), 1.0f64.to_bits());
    let mut plot_ui = PlotUi::new(Ui::new());
    assert_eq!(
        plot_ui.plot_image_with_imgui_texture("t", texture, min, max),
        Ok(())
    );
    let ui = plot_ui.into_ui();
    match &ui.calls()[0] {
        NativeCall::PlotImage { tex_id, .. } => assert_eq!(*tex_id, 0xDEAD_BEEF),
        other => panic!("expected an image call, got {:?}", other),
    }
}

#[test]
fn scatter_builder_setters_do_not_change_validation() {
    let x_data = bits_of(&[1.0, 2.0]);
    let y_data = bits_of(&[3.0, 4.0]);
    let base = ScatterPlot::new("cfg", &x_data, &y_data);
    let configured = ScatterPlot::new("cfg", &x_data, &y_data)
        .with_flags(8)
        .with_offset(1)
        .with_stride(16);
    assert_eq!(base.validate(), configured.validate());
    assert_eq!(configured.validate(), Ok(()));
}

#[test]
fn plot_labels_truncate_at_embedded_terminator() {
    let values = bits_of(&[1.0]);
    let plot = SimpleScatterPlot::new("cut\0away", &values);
    let mut ui = Ui::new();
    plot.plot(&mut ui);
    match &ui.calls()[0] {
        NativeCall::PlotScatterIndexed { label, .. } => assert_eq!(label.as_slice(), b"cut"),
        other => panic!("expected an indexed scatter call, got {:?}", other),
    }
}

//! The renderer: style resolution, color mapping, centering, compositing.
use anomaly_viz::heatmap::Heatmap;
use anomaly_viz::raster::RgbaBuf;
use anomaly_viz::render::draw_heatmaps;
use anomaly_viz::style::{Color, DrawContext, Style};

fn flat_colormap(r: u8, g: u8, b: u8) -> Vec<Color> {
    (0..256).map(|_| Color { r, g, b }).collect()
}

fn value_colormap() -> Vec<Color> {
    (0..256u32).map(|v| Color { r: v as u8, g: (255 - v) as u8, b: 7 }).collect()
}

fn opaque_style_with(table: Vec<Color>) -> Style {
    Style::new().with_color_fill_alpha(255).with_colormap256(table).unwrap()
}

fn pixel(canvas: &RgbaBuf, x: u32, y: u32) -> [u8; 4] {
    let (w, _) = canvas.dimensions();
    let bytes = canvas.to_vec();
    let k = (4 * (y * w + x)) as usize;
    [bytes[k], bytes[k + 1], bytes[k + 2], bytes[k + 3]]
}

#[test]
fn renderer_determinism() {
    // The same heatmap with the same style onto two freshly-initialized
    // canvases gives byte-identical canvases.
    let hm = Heatmap::new(&[0u8, 64, 128, 255], 2, 2).unwrap();
    let ctx = DrawContext::new();
    let mut c1 = RgbaBuf::new(4, 4).unwrap();
    let mut c2 = RgbaBuf::new(4, 4).unwrap();
    hm.draw(&ctx, &mut c1).unwrap();
    hm.draw(&ctx, &mut c2).unwrap();
    assert_eq!(c1.to_vec(), c2.to_vec());
    // And the draw did write something.
    assert_ne!(c1.to_vec(), vec![0u8; 64]);
    assert_eq!(c1.dimensions(), (4, 4));
}

#[test]
fn centering_two_by_two_on_four_by_four() {
    // A 2x2 raster on a 4x4 canvas is written at offset (1, 1).
    let hm = Heatmap::new(&[10u8, 20, 30, 40], 2, 2)
        .unwrap()
        .with_style(opaque_style_with(value_colormap()));
    let ctx = DrawContext::new();
    let mut canvas = RgbaBuf::new(4, 4).unwrap();
    hm.draw(&ctx, &mut canvas).unwrap();
    assert_eq!(pixel(&canvas, 1, 1), [10, 245, 7, 255]);
    assert_eq!(pixel(&canvas, 2, 1), [20, 235, 7, 255]);
    assert_eq!(pixel(&canvas, 1, 2), [30, 225, 7, 255]);
    assert_eq!(pixel(&canvas, 2, 2), [40, 215, 7, 255]);
    // Outside the footprint the canvas is untouched.
    assert_eq!(pixel(&canvas, 0, 0), [0, 0, 0, 0]);
    assert_eq!(pixel(&canvas, 3, 3), [0, 0, 0, 0]);
    assert_eq!(pixel(&canvas, 0, 2), [0, 0, 0, 0]);
    assert_eq!(pixel(&canvas, 2, 0), [0, 0, 0, 0]);
}

#[test]
fn builtin_gradient_endpoints() {
    // No color table: green at 0 through yellow to red at 255.
    let hm = Heatmap::new(&[0u8, 127, 128, 255], 2, 2)
        .unwrap()
        .with_style(Style::new().with_color_fill_alpha(255));
    let ctx = DrawContext::new();
    let mut canvas = RgbaBuf::new(2, 2).unwrap();
    hm.draw(&ctx, &mut canvas).unwrap();
    assert_eq!(pixel(&canvas, 0, 0), [0, 255, 0, 255]);
    assert_eq!(pixel(&canvas, 1, 0), [254, 255, 0, 255]);
    assert_eq!(pixel(&canvas, 0, 1), [255, 254, 0, 255]);
    assert_eq!(pixel(&canvas, 1, 1), [255, 0, 0, 255]);
}

#[test]
fn style_resolution_precedence() {
    // Instance style over context default over built-in.
    let instance = opaque_style_with(flat_colormap(1, 2, 3));
    let global = opaque_style_with(flat_colormap(4, 5, 6));
    let ctx = DrawContext::new().with_heatmap_style(global);

    let with_own = Heatmap::new(&[9u8], 1, 1).unwrap().with_style(instance);
    let mut c1 = RgbaBuf::new(1, 1).unwrap();
    with_own.draw(&ctx, &mut c1).unwrap();
    assert_eq!(pixel(&c1, 0, 0), [1, 2, 3, 255]);

    let without_own = Heatmap::new(&[9u8], 1, 1).unwrap();
    let mut c2 = RgbaBuf::new(1, 1).unwrap();
    without_own.draw(&ctx, &mut c2).unwrap();
    assert_eq!(pixel(&c2, 0, 0), [4, 5, 6, 255]);

    // With no style anywhere the built-in gradient governs; value 255 is
    // red, and the built-in fill alpha is 120.
    let bare = Heatmap::new(&[255u8], 1, 1).unwrap();
    let mut c3 = RgbaBuf::new(1, 1).unwrap();
    bare.draw(&DrawContext::new(), &mut c3).unwrap();
    let px = pixel(&c3, 0, 0);
    assert_ne!(px, [0, 0, 0, 0]);
    assert_ne!(px[3], 255);
}

#[test]
fn untouched_outside_footprint() {
    // On a prefilled canvas, every pixel outside the centered footprint
    // keeps its old bytes; the four inside are replaced (opaque fill).
    let before: Vec<u8> = (0..64u32).map(|k| (k as u8).wrapping_mul(7)).collect();
    let mut canvas = RgbaBuf::from_bytes(4, 4, before.clone()).unwrap();
    let hm = Heatmap::new(&[10u8, 20, 30, 40], 2, 2)
        .unwrap()
        .with_style(opaque_style_with(value_colormap()));
    hm.draw(&DrawContext::new(), &mut canvas).unwrap();
    let after = canvas.to_vec();
    for y in 0..4u32 {
        for x in 0..4u32 {
            let k = (4 * (y * 4 + x)) as usize;
            let inside = (1..3).contains(&x) && (1..3).contains(&y);
            if inside {
                assert_eq!(after[k + 3], 255);
            } else {
                assert_eq!(&after[k..k + 4], &before[k..k + 4]);
            }
        }
    }
}

#[test]
fn transparent_fill_leaves_canvas() {
    // A resolved fill alpha of zero blends nothing visible.
    let hm = Heatmap::new(&[200u8], 1, 1)
        .unwrap()
        .with_style(Style::new().with_color_fill_alpha(0));
    let mut canvas = RgbaBuf::new(1, 1).unwrap();
    hm.draw(&DrawContext::new(), &mut canvas).unwrap();
    assert_eq!(canvas.to_vec(), vec![0u8; 4]);
}

#[test]
fn draw_order_is_list_order() {
    // Later heatmaps paint over earlier ones.
    let first = Heatmap::new(&[0u8], 1, 1)
        .unwrap()
        .with_style(opaque_style_with(flat_colormap(10, 10, 10)));
    let second = Heatmap::new(&[0u8], 1, 1)
        .unwrap()
        .with_style(opaque_style_with(flat_colormap(20, 20, 20)));
    let mut canvas = RgbaBuf::new(1, 1).unwrap();
    draw_heatmaps(&vec![first, second], &DrawContext::new(), &mut canvas).unwrap();
    assert_eq!(pixel(&canvas, 0, 0), [20, 20, 20, 255]);
}

#[test]
fn oversized_raster_is_clipped() {
    // A raster larger than the canvas is clipped, never written out of
    // range; the offset clamps to zero.
    let hm = Heatmap::new(&[10u8, 20, 30, 40, 50, 60, 70, 80, 90], 3, 3)
        .unwrap()
        .with_style(opaque_style_with(value_colormap()));
    let mut canvas = RgbaBuf::new(2, 2).unwrap();
    hm.draw(&DrawContext::new(), &mut canvas).unwrap();
    assert_eq!(pixel(&canvas, 0, 0), [10, 245, 7, 255]);
    assert_eq!(pixel(&canvas, 1, 0), [20, 235, 7, 255]);
    assert_eq!(pixel(&canvas, 0, 1), [40, 215, 7, 255]);
    assert_eq!(pixel(&canvas, 1, 1), [50, 205, 7, 255]);
}

#[test]
fn drawing_nothing_changes_nothing() {
    let mut canvas = RgbaBuf::new(2, 2).unwrap();
    draw_heatmaps(&Vec::new(), &DrawContext::new(), &mut canvas).unwrap();
    assert_eq!(canvas.to_vec(), vec![0u8; 16]);
    assert_eq!(canvas.dimensions(), (2, 2));
}

#[test]
fn colormap_must_have_256_entries() {
    let r = Style::new().with_colormap256(vec![Color { r: 0, g: 0, b: 0 }; 3]);
    assert!(r.is_err());
    let ok = Style::new().with_colormap256(flat_colormap(0, 0, 0));
    assert!(ok.is_ok());
}

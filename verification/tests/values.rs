//! The value types: heatmaps, probability scores, masks, result containers
//! and configurations.
use anomaly_viz::config::{Config, ResizeFilter, ResizeMode};
use anomaly_viz::fixed::SCALE;
use anomaly_viz::heatmap::Heatmap;
use anomaly_viz::raster::RgbaBuf;
use anomaly_viz::y::{Mask, Prob, Y};
use anomaly_viz::Error;

/// The fixed-point raw value of an `f32` sample.
fn raw(v: f32) -> i64 {
    ((v as f64) * 4294967296.0).floor() as i64
}

#[test]
fn heatmap_roundtrip_and_metadata() {
    let hm = Heatmap::new(&[1u8, 2, 3, 4, 5, 6], 3, 2).unwrap();
    assert_eq!(hm.to_vec(), vec![1u8, 2, 3, 4, 5, 6]);
    assert_eq!(hm.width(), 3);
    assert_eq!(hm.height(), 2);
    assert_eq!(hm.dimensions(), (3, 2));
    let hm = hm.with_uid(7).with_id(9).with_name("scratch");
    assert_eq!(hm.uid(), 7);
    assert_eq!(hm.id(), Some(9));
    assert_eq!(hm.name(), Some(&String::from("scratch")));
    assert_eq!(hm.confidence(), None);
    // A copy of the raster holds the same bytes.
    assert_eq!(hm.img().to_vec(), vec![1u8, 2, 3, 4, 5, 6]);
}

#[test]
fn heatmap_equality_compares_rasters_only() {
    let a = Heatmap::new(&[1u8, 2, 3, 4], 2, 2).unwrap();
    let b = Heatmap::new(&[1u8, 2, 3, 4], 2, 2)
        .unwrap()
        .with_uid(5)
        .with_confidence(raw(0.7));
    let c = Heatmap::new(&[1u8, 2, 3, 9], 2, 2).unwrap();
    assert!(a == b);
    assert!(a != c);
    // The same six bytes under different dimensions are different rasters.
    let wide = Heatmap::new(&[1u8, 2, 3, 4, 5, 6], 3, 2).unwrap();
    let tall = Heatmap::new(&[1u8, 2, 3, 4, 5, 6], 2, 3).unwrap();
    assert!(wide != tall);
}

#[test]
fn heatmap_buffer_length_must_match() {
    let r = Heatmap::new(&[1u8, 2, 3], 2, 2);
    assert!(matches!(r, Err(Error::BufferConstructionFailure)));
}

#[test]
fn heatmap_confidence_is_clamped() {
    let hm = Heatmap::new(&[0u8], 1, 1).unwrap();
    assert_eq!(hm.with_confidence(raw(2.0)).confidence(), Some(SCALE));
    let hm = Heatmap::new(&[0u8], 1, 1).unwrap();
    assert_eq!(hm.with_confidence(raw(-0.5)).confidence(), Some(0));
    let hm = Heatmap::new(&[0u8], 1, 1).unwrap();
    assert_eq!(hm.with_confidence(raw(0.5)).confidence(), Some(raw(0.5)));
}

#[test]
fn prob_clamps_and_carries_identity() {
    let p = Prob::new("anomaly", raw(1.5));
    assert_eq!(p.confidence(), SCALE);
    assert_eq!(p.name(), &String::from("anomaly"));
    assert_eq!(p.id(), None);
    let p = p.with_id(3);
    assert_eq!(p.id(), Some(3));
    let q = Prob::new("mean", raw(-0.1));
    assert_eq!(q.confidence(), 0);
}

#[test]
fn mask_roundtrip() {
    let m = Mask::new(&[9u8, 8, 7, 6, 5, 4], 3, 2).unwrap();
    assert_eq!(m.to_vec(), vec![9u8, 8, 7, 6, 5, 4]);
    assert_eq!(m.dimensions(), (3, 2));
    assert!(matches!(
        Mask::new(&[9u8], 3, 2),
        Err(Error::BufferConstructionFailure)
    ));
}

#[test]
fn result_fields_are_independent() {
    let y = Y::default();
    assert!(y.heatmaps().is_none());
    assert!(y.probs().is_none());
    assert!(y.masks().is_none());
    assert!(y.images().is_none());
    let y = y.with_probs(vec![Prob::new("score", raw(0.4))]);
    assert_eq!(y.probs().unwrap().len(), 1);
    assert!(y.heatmaps().is_none());
    let y = y.with_masks(vec![Mask::new(&[1u8], 1, 1).unwrap()]);
    assert_eq!(y.masks().unwrap().len(), 1);
    let y = y.with_images(vec![RgbaBuf::new(1, 1).unwrap()]);
    assert_eq!(y.images().unwrap().len(), 1);
    assert_eq!(y.probs().unwrap().len(), 1);
    let y = y.with_heatmaps(vec![Heatmap::new(&[1u8], 1, 1).unwrap()]);
    assert_eq!(y.heatmaps().unwrap().len(), 1);
}

#[test]
fn stock_configurations() {
    let c = Config::dinomaly();
    assert_eq!(c.try_height(), Some(392));
    assert_eq!(c.try_width(), Some(392));
    assert_eq!(c.resize_mode(), ResizeMode::FitExact);
    assert_eq!(c.resize_filter(), ResizeFilter::Lanczos3);
    assert!(c.normalize());
    assert_eq!(c.image_mean().as_slice(), &[485u32, 456, 406]);
    assert_eq!(c.image_std().as_slice(), &[229u32, 224, 225]);

    let g = Config::glass();
    assert_eq!(g.try_height(), Some(384));
    assert_eq!(g.try_width(), Some(384));
    assert_eq!(g.resize_filter(), ResizeFilter::CatmullRom);

    let d = Config::default();
    assert_eq!(d.try_height(), None);
    assert!(!d.normalize());
}

#[test]
fn config_later_hints_override() {
    let c = Config::default()
        .with_model_ixx(0, 2, 100)
        .with_model_ixx(0, 2, 200);
    assert_eq!(c.try_height(), Some(200));
    assert_eq!(c.ixx(0, 3), None);
    assert_eq!(c.ixx(1, 2), None);
}

#[test]
fn fresh_canvas_is_transparent() {
    let c = RgbaBuf::new(3, 2).unwrap();
    assert_eq!(c.dimensions(), (3, 2));
    assert_eq!(c.to_vec(), vec![0u8; 24]);
}

//! Postprocessing strategies: quantization, edge-ignore, confidence and
//! batch behavior, end to end through the public model types.
use anomaly_viz::config::{Config, ResizeFilter};
use anomaly_viz::fixed::{quantize, SCALE};
use anomaly_viz::models::dinomaly::Dinomaly;
use anomaly_viz::models::glass::GLASS;
use anomaly_viz::models::uninet::UniNet;
use anomaly_viz::strategy::{run_strategy, Convention, ResizeTarget, StrategyCfg};
use anomaly_viz::tensor::Tensor;
use anomaly_viz::Error;

/// The fixed-point raw value of an `f32` sample, as a tensor carries it.
fn fx(v: f32) -> i64 {
    ((v as f64) * 4294967296.0).floor() as i64
}

fn tensor(dims: Vec<usize>, vals: &[f32]) -> Tensor {
    let data: Vec<i64> = vals.iter().map(|&v| fx(v)).collect();
    Tensor::new(dims, data).unwrap()
}

#[test]
fn quantization_examples() {
    assert_eq!(quantize(fx(0.5)), 127);
    assert_eq!(quantize(fx(1.2)), 255);
    assert_eq!(quantize(fx(-0.3)), 0);
    assert_eq!(quantize(0), 0);
    assert_eq!(quantize(SCALE), 255);
    assert_eq!(quantize(fx(0.9)), 229);
}

#[test]
fn single_tensor_end_to_end() {
    // Map [[0.0, 1.0], [0.5, 0.2]], no edge-ignore: raster [0, 255, 127, 51],
    // max-derived confidence 1.0.
    let map = tensor(vec![1, 2, 2], &[0.0, 1.0, 0.5, 0.2]);
    let model = GLASS::new(&Config::glass());
    let ys = model.forward(&vec![map]).unwrap();
    assert_eq!(ys.len(), 1);
    let hs = ys[0].heatmaps().unwrap();
    assert_eq!(hs.len(), 1);
    let hm = &hs[0];
    assert_eq!(hm.dimensions(), (2, 2));
    assert_eq!(hm.to_vec(), vec![0u8, 255, 127, 51]);
    assert_eq!(hm.confidence(), Some(SCALE));
    assert_eq!(hm.uid(), 0);
    assert_eq!(hm.id(), None);
    assert_eq!(hm.name(), None);
    assert!(ys[0].probs().is_none());
    assert!(ys[0].masks().is_none());
    assert!(ys[0].images().is_none());
}

#[test]
fn edge_ignore_band() {
    // A 1x1x4x4 map of all 0.9 with a one-pixel edge-ignore band: columns 0
    // and 3 are forced to byte 0, the max score is the clamped interior
    // value (byte 229), not an edge value.
    let vals = [0.9f32; 16];
    let map = tensor(vec![1, 1, 4, 4], &vals);
    let model = GLASS::new(&Config::glass()).with_edge_ignore_pixels(1);
    let ys = model.forward(&vec![map]).unwrap();
    let hm = &ys[0].heatmaps().unwrap()[0];
    assert_eq!(hm.dimensions(), (4, 4));
    let px = hm.to_vec();
    for row in 0..4 {
        assert_eq!(&px[row * 4..row * 4 + 4], &[0u8, 229, 229, 0]);
    }
    assert_eq!(hm.confidence(), Some(fx(0.9)));
    assert_eq!(quantize(hm.confidence().unwrap()), 229);
}

#[test]
fn edge_ignore_wider_than_map() {
    let vals = [0.9f32; 16];
    let map = tensor(vec![1, 4, 4], &vals);
    let model = GLASS::new(&Config::glass()).with_edge_ignore_pixels(5);
    let ys = model.forward(&vec![map]).unwrap();
    let hm = &ys[0].heatmaps().unwrap()[0];
    assert_eq!(hm.to_vec(), vec![0u8; 16]);
    assert_eq!(hm.confidence(), Some(0));
}

#[test]
fn edge_ignore_zero_is_noop() {
    let vals = [0.9f32; 16];
    let map = tensor(vec![1, 4, 4], &vals);
    let model = GLASS::new(&Config::glass());
    let ys = model.forward(&vec![map]).unwrap();
    let hm = &ys[0].heatmaps().unwrap()[0];
    assert_eq!(hm.to_vec(), vec![229u8; 16]);
}

#[test]
fn dual_confidence_precedence() {
    // Global score 0.3 with a spatial map of all 0.9: the confidence is the
    // clamped global score, never the map-derived max.
    let score = tensor(vec![1], &[0.3]);
    let dummy = tensor(vec![1], &[0.0]);
    let map = tensor(vec![1, 1, 4, 4], &[0.9f32; 16]);
    let model = UniNet::new(&Config::default());
    let ys = model.forward(&vec![score, dummy, map]).unwrap();
    let hm = &ys[0].heatmaps().unwrap()[0];
    assert_eq!(hm.confidence(), Some(fx(0.3)));
    assert_ne!(hm.confidence(), Some(fx(0.9)));
    // The raster itself is still the quantized map.
    assert_eq!(hm.to_vec(), vec![229u8; 16]);
}

#[test]
fn dual_rank2_score_and_squeeze() {
    // Scores as [batch, 1], map as [batch, H, W] without a channel axis.
    let score = Tensor::new(vec![2, 1], vec![fx(0.25), fx(0.75)]).unwrap();
    let dummy = tensor(vec![1], &[0.0]);
    let map = tensor(vec![2, 2, 2], &[0.1, 0.2, 0.3, 0.4, 0.5, 0.6, 0.7, 0.8]);
    let model = UniNet::new(&Config::default());
    let ys = model.forward(&vec![score, dummy, map]).unwrap();
    assert_eq!(ys.len(), 2);
    assert_eq!(ys[0].heatmaps().unwrap()[0].confidence(), Some(fx(0.25)));
    assert_eq!(ys[1].heatmaps().unwrap()[0].confidence(), Some(fx(0.75)));
}

#[test]
fn batch_cardinality_and_order() {
    // Three batch items in index order: their rasters come from their own
    // slices.
    let vals = [
        0.0f32, 0.0, 0.0, 0.0, // item 0
        0.5, 0.5, 0.5, 0.5, // item 1
        1.0, 1.0, 1.0, 1.0, // item 2
    ];
    let map = tensor(vec![3, 2, 2], &vals);
    let model = GLASS::new(&Config::glass());
    let ys = model.forward(&vec![map]).unwrap();
    assert_eq!(ys.len(), 3);
    assert_eq!(ys[0].heatmaps().unwrap()[0].to_vec(), vec![0u8; 4]);
    assert_eq!(ys[1].heatmaps().unwrap()[0].to_vec(), vec![127u8; 4]);
    assert_eq!(ys[2].heatmaps().unwrap()[0].to_vec(), vec![255u8; 4]);
}

#[test]
fn confidence_bound_on_wild_scores() {
    // Scores outside [0, 1] are clamped into it.
    let score = Tensor::new(vec![2], vec![fx(1.7), fx(-0.2)]).unwrap();
    let dummy = tensor(vec![1], &[0.0]);
    let map = tensor(vec![2, 2, 2], &[2.5f32; 8]);
    let model = UniNet::new(&Config::default());
    let ys = model.forward(&vec![score, dummy, map]).unwrap();
    assert_eq!(ys[0].heatmaps().unwrap()[0].confidence(), Some(SCALE));
    assert_eq!(ys[1].heatmaps().unwrap()[0].confidence(), Some(0));
    // Values above 1 quantize to 255.
    assert_eq!(ys[0].heatmaps().unwrap()[0].to_vec(), vec![255u8; 4]);
}

#[test]
fn dinomaly_requires_four_tensors() {
    let score = tensor(vec![1], &[0.4]);
    let dummy = tensor(vec![1], &[0.0]);
    let map = tensor(vec![1, 2, 2], &[0.1, 0.2, 0.3, 0.4]);
    let model = Dinomaly::new(&Config::dinomaly());
    let r = model.forward(&vec![score, dummy, map]);
    assert!(matches!(r, Err(Error::ShapeMismatch)));
}

#[test]
fn dinomaly_four_tensors_ok() {
    let score = tensor(vec![1], &[0.4]);
    let dummy = tensor(vec![1], &[0.0]);
    let map = tensor(vec![1, 2, 2], &[0.1, 0.2, 0.3, 0.4]);
    let extra = tensor(vec![1], &[0.0]);
    let model = Dinomaly::new(&Config::dinomaly());
    let ys = model.forward(&vec![score, dummy, map, extra]).unwrap();
    assert_eq!(ys.len(), 1);
    assert_eq!(ys[0].heatmaps().unwrap()[0].confidence(), Some(fx(0.4)));
}

#[test]
fn map_rank_mismatch() {
    // A rank-2 tensor cannot be a spatial map.
    let map = Tensor::new(vec![2, 2], vec![0, 0, 0, 0]).unwrap();
    let model = GLASS::new(&Config::glass());
    assert!(matches!(model.forward(&vec![map]), Err(Error::ShapeMismatch)));
}

#[test]
fn score_batch_mismatch() {
    // A score tensor shorter than the batch is a shape mismatch.
    let score = tensor(vec![1], &[0.4]);
    let dummy = tensor(vec![1], &[0.0]);
    let map = tensor(vec![2, 2, 2], &[0.0f32; 8]);
    let model = UniNet::new(&Config::default());
    let r = model.forward(&vec![score, dummy, map]);
    assert!(matches!(r, Err(Error::ShapeMismatch)));
}

#[test]
fn zero_height_map() {
    // An empty map yields an empty raster and the max aggregation starts
    // from zero.
    let map = Tensor::new(vec![1, 0, 4], Vec::new()).unwrap();
    let model = GLASS::new(&Config::glass());
    let ys = model.forward(&vec![map]).unwrap();
    let hm = &ys[0].heatmaps().unwrap()[0];
    assert_eq!(hm.dimensions(), (4, 0));
    assert_eq!(hm.to_vec(), Vec::<u8>::new());
    assert_eq!(hm.confidence(), Some(0));
}

#[test]
fn tensor_shape_checks() {
    assert!(matches!(
        Tensor::new(vec![2, 2], vec![0, 0, 0]),
        Err(Error::ShapeMismatch)
    ));
    assert!(matches!(
        Tensor::new(vec![1, 1, 1, 1, 1], vec![0]),
        Err(Error::ShapeMismatch)
    ));
    assert!(matches!(
        Tensor::new(Vec::new(), Vec::new()),
        Err(Error::ShapeMismatch)
    ));
    assert_eq!(Tensor::new(vec![3, 0], Vec::new()).unwrap().len(), 0);
}

fn single_cfg() -> StrategyCfg {
    StrategyCfg {
        convention: Convention::Single { map_idx: 0 },
        min_tensors: 1,
        edge_ignore_pixels: 0,
        resize: None,
        mean_prob: false,
    }
}

#[test]
fn mean_probability_when_configured() {
    // The mean of the clamped values, exposed as a probability named
    // "mean"; the heatmap confidence stays the max.
    let cfg = StrategyCfg { mean_prob: true, ..single_cfg() };
    let map = tensor(vec![1, 2, 2], &[0.0, 1.0, 0.5, 0.2]);
    let ys = run_strategy(&cfg, &vec![map]).unwrap();
    let ps = ys[0].probs().unwrap();
    assert_eq!(ps.len(), 1);
    assert_eq!(ps[0].name(), &String::from("mean"));
    assert_eq!(ps[0].id(), None);
    let expected = (fx(0.0) + fx(1.0) + fx(0.5) + fx(0.2)) / 4;
    assert_eq!(ps[0].confidence(), expected);
    assert_eq!(ys[0].heatmaps().unwrap()[0].confidence(), Some(SCALE));
}

#[test]
fn mean_respects_edge_ignore() {
    // Edge-masked columns contribute zero to the mean too.
    let cfg = StrategyCfg { mean_prob: true, edge_ignore_pixels: 1, ..single_cfg() };
    let map = tensor(vec![1, 1, 4], &[1.0, 1.0, 1.0, 1.0]);
    let ys = run_strategy(&cfg, &vec![map]).unwrap();
    let ps = ys[0].probs().unwrap();
    assert_eq!(ps[0].confidence(), SCALE / 2);
}

#[test]
fn resize_target_reshapes_raster() {
    // The configured resize reshapes the raster to the target; the
    // confidence is still aggregated from the unresized map.
    let cfg = StrategyCfg {
        resize: Some(ResizeTarget { width: 1, height: 1, filter: ResizeFilter::Nearest }),
        ..single_cfg()
    };
    let map = tensor(vec![1, 2, 2], &[0.5, 0.5, 0.5, 0.5]);
    let ys = run_strategy(&cfg, &vec![map]).unwrap();
    let hm = &ys[0].heatmaps().unwrap()[0];
    assert_eq!(hm.dimensions(), (1, 1));
    assert_eq!(hm.to_vec(), vec![127u8]);
    assert_eq!(hm.confidence(), Some(fx(0.5)));
}

#[test]
fn resize_target_can_upscale() {
    let cfg = StrategyCfg {
        resize: Some(ResizeTarget { width: 4, height: 4, filter: ResizeFilter::Nearest }),
        ..single_cfg()
    };
    let map = tensor(vec![1, 2, 2], &[0.5, 0.5, 0.5, 0.5]);
    let ys = run_strategy(&cfg, &vec![map]).unwrap();
    let hm = &ys[0].heatmaps().unwrap()[0];
    assert_eq!(hm.dimensions(), (4, 4));
    assert_eq!(hm.to_vec(), vec![127u8; 16]);
}

#[test]
fn model_input_size_fallbacks() {
    let dinomaly = Dinomaly::new(&Config::default());
    assert_eq!(dinomaly.input_height(), 384);
    assert_eq!(dinomaly.input_width(), 384);
    let glass = GLASS::new(&Config::default());
    assert_eq!(glass.input_height(), 256);
    let uninet = UniNet::new(&Config::default());
    assert_eq!(uninet.input_height(), 392);
}

#[test]
fn model_input_size_from_config() {
    let dinomaly = Dinomaly::new(&Config::dinomaly());
    assert_eq!(dinomaly.input_height(), 392);
    assert_eq!(dinomaly.input_width(), 392);
    let glass = GLASS::new(&Config::glass());
    assert_eq!(glass.input_height(), 384);
    assert_eq!(glass.input_width(), 384);
}

use color_image::converter::{
    ColorImageConverter, ColorImageConverterParams, ConfigError, Stage,
};
use color_image::image::Image;

fn params(mode: &str, hierarchical: &str) -> ColorImageConverterParams {
    ColorImageConverterParams {
        canvas_id: "canvas".to_string(),
        svg_id: "svg".to_string(),
        mode: mode.to_string(),
        hierarchical: hierarchical.to_string(),
        corner_threshold: 60,
        length_threshold: 4,
        max_iterations: 10,
        splice_threshold: 45,
        filter_speckle: 0,
        color_precision: 6,
        layer_difference: 0,
        path_precision: 2,
    }
}

fn image_from(width: usize, height: usize, pixels: Vec<[u8; 4]>) -> Image {
    assert_eq!(pixels.len(), width * height);
    let mut data: Vec<u8> = Vec::new();
    for p in pixels {
        data.extend_from_slice(&p);
    }
    Image::from_pixels(width, height, data).unwrap()
}

/// An opaque 8x8 image, left half red, right half blue.
fn two_color_image() -> Image {
    let mut pixels = Vec::new();
    for _y in 0..8 {
        for x in 0..8 {
            if x < 4 {
                pixels.push([220, 30, 30, 255]);
            } else {
                pixels.push([30, 30, 220, 255]);
            }
        }
    }
    image_from(8, 8, pixels)
}

/// An 8x8 image with a transparent background and an opaque square.
fn transparent_background_image() -> Image {
    let mut pixels = Vec::new();
    for y in 0..8 {
        for x in 0..8 {
            if (2..6).contains(&x) && (2..6).contains(&y) {
                pixels.push([220, 30, 30, 255]);
            } else {
                pixels.push([0, 0, 0, 0]);
            }
        }
    }
    image_from(8, 8, pixels)
}

#[test]
fn new_rejects_unknown_mode() {
    let r = ColorImageConverter::new(params("wiggly", "stacked"), two_color_image());
    assert!(matches!(r, Err(ConfigError::UnknownMode)));
}

#[test]
fn new_rejects_unknown_hierarchical() {
    let r = ColorImageConverter::new(params("spline", "sideways"), two_color_image());
    assert!(matches!(r, Err(ConfigError::UnknownHierarchical)));
}

#[test]
fn new_accepts_all_known_modes() {
    for mode in ["none", "polygon", "spline"] {
        for hierarchical in ["stacked", "cutout"] {
            let r = ColorImageConverter::new(params(mode, hierarchical), two_color_image());
            assert!(r.is_ok());
        }
    }
}

#[test]
fn can_init_accepts_ordinary_images() {
    let stacked =
        ColorImageConverter::new(params("spline", "stacked"), two_color_image()).unwrap();
    assert!(stacked.can_init());
    let cutout =
        ColorImageConverter::new(params("spline", "cutout"), transparent_background_image())
            .unwrap();
    assert!(cutout.can_init());
}

#[test]
fn can_init_rejects_degenerate_images() {
    // An empty grid has no pixels to cluster.
    let empty = Image::from_pixels(0, 4, vec![]).unwrap();
    let conv = ColorImageConverter::new(params("spline", "stacked"), empty).unwrap();
    assert!(!conv.can_init());
    // A fully transparent cutout image keys every pixel away, so the
    // engine's progress metric would be undefined mid-run.
    let all_clear = image_from(4, 4, vec![[0, 0, 0, 0]; 16]);
    let conv = ColorImageConverter::new(params("spline", "cutout"), all_clear).unwrap();
    assert!(!conv.can_init());
}

#[test]
fn progress_is_zero_before_init() {
    let conv = ColorImageConverter::new(params("spline", "stacked"), two_color_image()).unwrap();
    assert_eq!(conv.progress(), 0);
}

/// Drives the conversion to completion; panics if it does not finish.
/// Checks the progress bounds on every step and returns the number of calls
/// that returned false before the finishing call.
fn drive(conv: &mut ColorImageConverter) -> usize {
    let mut steps = 0usize;
    loop {
        assert!(steps < 100_000, "conversion did not finish");
        let p = conv.progress();
        assert!((0..=100).contains(&p));
        if matches!(conv.stage, Stage::Clustering(_)) {
            assert!(p <= 50);
        }
        if conv.tick() {
            assert_eq!(conv.progress(), 100);
            return steps;
        }
        steps += 1;
    }
}

#[test]
fn none_mode_run_completes() {
    let mut conv = ColorImageConverter::new(params("none", "stacked"), two_color_image()).unwrap();
    conv.init();
    drive(&mut conv);
    assert!(conv.svg.len() >= 2);
}

#[test]
fn stacked_run_reaches_completion() {
    let mut conv =
        ColorImageConverter::new(params("spline", "stacked"), two_color_image()).unwrap();
    conv.init();
    drive(&mut conv);
    assert!(conv.svg.len() >= 2);
    // Completion is reported again on a further call, without emitting more.
    let n = conv.svg.len();
    assert!(conv.tick());
    assert_eq!(conv.svg.len(), n);
}

#[test]
fn stacked_never_enters_reclustering() {
    let mut conv =
        ColorImageConverter::new(params("spline", "stacked"), transparent_background_image())
            .unwrap();
    conv.init();
    let mut steps = 0usize;
    loop {
        assert!(steps < 100_000);
        assert!(!matches!(conv.stage, Stage::Reclustering(_)));
        if conv.tick() {
            break;
        }
        steps += 1;
    }
    assert!(!matches!(conv.stage, Stage::Reclustering(_)));
}

#[test]
fn cutout_enters_reclustering_exactly_once() {
    let mut conv =
        ColorImageConverter::new(params("spline", "cutout"), transparent_background_image())
            .unwrap();
    conv.init();
    let mut entered = 0usize;
    let mut inside = false;
    let mut seen_vectorize = false;
    let mut steps = 0usize;
    loop {
        assert!(steps < 100_000);
        match conv.stage {
            Stage::Reclustering(_) => {
                assert!(!seen_vectorize, "reclustering after emission began");
                if !inside {
                    entered += 1;
                    inside = true;
                }
            },
            Stage::Vectorize(_) => {
                inside = false;
                seen_vectorize = true;
            },
            _ => {
                inside = false;
            },
        }
        if conv.tick() {
            break;
        }
        steps += 1;
    }
    assert_eq!(entered, 1);
}

#[test]
fn reclustering_progress_is_fifty() {
    let mut conv =
        ColorImageConverter::new(params("spline", "cutout"), transparent_background_image())
            .unwrap();
    conv.init();
    let mut steps = 0usize;
    loop {
        assert!(steps < 100_000);
        if matches!(conv.stage, Stage::Reclustering(_)) {
            assert_eq!(conv.progress(), 50);
        }
        if conv.tick() {
            break;
        }
        steps += 1;
    }
}

#[test]
fn emission_prepends_one_path_per_tick() {
    let mut conv =
        ColorImageConverter::new(params("polygon", "stacked"), two_color_image()).unwrap();
    conv.init();
    let mut emitted: Vec<(u8, u8, u8)> = Vec::new();
    let mut steps = 0usize;
    loop {
        assert!(steps < 100_000);
        let before = conv.svg.entries.len();
        let was_emitting = matches!(conv.stage, Stage::Vectorize(_));
        let done = conv.tick();
        let after = conv.svg.entries.len();
        if done {
            assert_eq!(after, before);
            break;
        }
        if was_emitting {
            // One path per tick, prepended.
            assert_eq!(after, before + 1);
            let head = &conv.svg.entries[0];
            assert_eq!(head.precision, 2);
            emitted.push((head.color.r, head.color.g, head.color.b));
        } else {
            assert_eq!(after, before);
        }
        steps += 1;
    }
    assert!(!emitted.is_empty());
    // The document lists the paths in reverse extraction order.
    let doc: Vec<(u8, u8, u8)> = conv
        .svg
        .entries
        .iter()
        .map(|e| (e.color.r, e.color.g, e.color.b))
        .collect();
    let mut reversed = emitted.clone();
    reversed.reverse();
    assert_eq!(doc, reversed);
    assert_eq!(conv.counter, conv.svg.entries.len());
}

#[test]
fn cutout_key_color_never_emitted() {
    // The transparent background is keyed with the first absent candidate
    // (cyan here) and discarded by the engine, so no emitted path carries it.
    let mut conv =
        ColorImageConverter::new(params("spline", "cutout"), transparent_background_image())
            .unwrap();
    conv.init();
    drive(&mut conv);
    assert!(!conv.svg.entries.is_empty());
    for e in &conv.svg.entries {
        assert_ne!((e.color.r, e.color.g, e.color.b), (0, 255, 255));
    }
}

#[test]
fn init_applies_fallback_key_when_all_candidates_present() {
    // A cutout image that contains all seven priority candidates: the
    // reserved fallback (1, 254, 253) replaces the transparent pixels.
    let candidates: [[u8; 3]; 7] = [
        [0, 255, 255],
        [255, 0, 255],
        [0, 255, 0],
        [0, 0, 255],
        [255, 255, 0],
        [128, 128, 128],
        [255, 0, 0],
    ];
    let mut pixels = vec![[7, 7, 7, 255]; 9];
    for (i, c) in candidates.iter().enumerate() {
        pixels[i] = [c[0], c[1], c[2], 255];
    }
    pixels[8] = [50, 60, 70, 0]; // one transparent pixel
    let image = image_from(3, 3, pixels);
    let mut conv = ColorImageConverter::new(params("spline", "cutout"), image).unwrap();
    conv.init();
    let p = conv.image.get_pixel(2, 2);
    assert_eq!((p.r, p.g, p.b, p.a), (1, 254, 253, 255));
    let kept = conv.image.get_pixel(0, 0);
    assert_eq!((kept.r, kept.g, kept.b, kept.a), (0, 255, 255, 255));
}

#[test]
fn init_applies_chosen_key_in_cutout_mode() {
    let mut conv =
        ColorImageConverter::new(params("spline", "cutout"), transparent_background_image())
            .unwrap();
    conv.init();
    // The image has no cyan, so cyan is chosen; the background became cyan.
    let p = conv.image.get_pixel(0, 0);
    assert_eq!((p.r, p.g, p.b, p.a), (0, 255, 255, 255));
    // The opaque square is untouched.
    let q = conv.image.get_pixel(3, 3);
    assert_eq!((q.r, q.g, q.b, q.a), (220, 30, 30, 255));
}

#[test]
fn stacked_opaque_image_is_not_keyed() {
    let mut conv =
        ColorImageConverter::new(params("spline", "stacked"), two_color_image()).unwrap();
    conv.init();
    let p = conv.image.get_pixel(0, 0);
    assert_eq!((p.r, p.g, p.b, p.a), (220, 30, 30, 255));
}

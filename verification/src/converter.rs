use vstd::prelude::*;
use visioncortex::color_clusters::{Clusters, IncrementalBuilder};
use crate::color::Rgba;
use crate::engine::{
    builder_config, builder_dims, builder_progress, builder_progress_value, builder_result,
    builder_step, cluster_count, cluster_dims, cluster_ids, clusters_to_image,
    engine_hierarchical_max, extract_cluster, extracted_path, job_wf, progress_total,
    residue_rgba, rgba_channels, start_runner,
};
use crate::image::Image;
use crate::keying::{
    apply_key_color, find_unused_color_in_image, is_keyed_copy, should_key_image, spec_choose_key,
    spec_has_unkeyed_survivor, spec_needs_key, spec_should_key,
};
use crate::svg::{PathEntry, SvgDocument};

verus! {

/// How extracted region outlines are simplified into paths.
#[derive(Clone, Copy, PartialEq, Eq, Structural, Debug)]
pub enum SimplifyMode {
    NoSimplify,
    Polygon,
    Spline,
}

/// How clusters are layered: a single clustering pass with regions stacked as
/// found, or a second cleanup pass for cutout topology.
#[derive(Clone, Copy, PartialEq, Eq, Structural, Debug)]
pub enum Hierarchical {
    Stacked,
    Cutout,
}

/// A configuration that fails validation: construction produces no controller.
#[derive(Clone, Copy, PartialEq, Eq, Structural, Debug)]
pub enum ConfigError {
    UnknownMode,
    UnknownHierarchical,
}

/// The controller's configuration record. The three geometric thresholds are
/// whole numbers (degrees for the corner and splice angles, pixels for the
/// segment length); the controller never interprets them, it widens them
/// exactly to the path-extraction engine's floating parameters.
#[derive(Debug)]
pub struct ColorImageConverterParams {
    pub canvas_id: String,
    pub svg_id: String,
    pub mode: String,
    pub hierarchical: String,
    pub corner_threshold: u32,
    pub length_threshold: u32,
    pub max_iterations: usize,
    pub splice_threshold: u32,
    pub filter_speckle: usize,
    pub color_precision: i32,
    pub layer_difference: i32,
    pub path_precision: u32,
}

/// The active stage of the conversion; exactly one variant at a time, and
/// transitions are strictly forward.
pub enum Stage {
    New,
    Clustering(IncrementalBuilder),
    Reclustering(IncrementalBuilder),
    Vectorize(Clusters),
}

/// Rank of a stage in the forward order of the conversion.
pub open spec fn stage_rank(s: Stage) -> int {
    match s {
        Stage::New => 0,
        Stage::Clustering(_) => 1,
        Stage::Reclustering(_) => 2,
        Stage::Vectorize(_) => 3,
    }
}

/// The public controller: owns the working image copy and the output
/// document, and is driven by repeated bounded work-steps.
pub struct ColorImageConverter {
    pub image: Image,
    pub svg: SvgDocument,
    pub stage: Stage,
    pub counter: usize,
    pub mode: SimplifyMode,
    pub hierarchical: Hierarchical,
    pub params: ColorImageConverterParams,
}

/// The simplification mode a configuration string resolves to.
pub open spec fn spec_mode_of(s: Seq<char>) -> Option<SimplifyMode> {
    if s == "none"@ {
        Some(SimplifyMode::NoSimplify)
    } else if s == "polygon"@ {
        Some(SimplifyMode::Polygon)
    } else if s == "spline"@ {
        Some(SimplifyMode::Spline)
    } else {
        None
    }
}

/// The hierarchical mode a configuration string resolves to.
pub open spec fn spec_hierarchical_of(s: Seq<char>) -> Option<Hierarchical> {
    if s == "stacked"@ {
        Some(Hierarchical::Stacked)
    } else if s == "cutout"@ {
        Some(Hierarchical::Cutout)
    } else {
        None
    }
}

fn resolve_mode(s: &String) -> (r: Option<SimplifyMode>)
    ensures
        r == spec_mode_of(s@),
{
    if *s == "none".to_owned() {
        Some(SimplifyMode::NoSimplify)
    } else if *s == "polygon".to_owned() {
        Some(SimplifyMode::Polygon)
    } else if *s == "spline".to_owned() {
        Some(SimplifyMode::Spline)
    } else {
        None
    }
}

fn resolve_hierarchical(s: &String) -> (r: Option<Hierarchical>)
    ensures
        r == spec_hierarchical_of(s@),
{
    if *s == "stacked".to_owned() {
        Some(Hierarchical::Stacked)
    } else if *s == "cutout".to_owned() {
        Some(Hierarchical::Cutout)
    } else {
        None
    }
}

impl ColorImageConverter {
    /// The controller's invariant: the cursor never exceeds the cluster
    /// count, the document always holds exactly the emitted prefix in
    /// reverse extraction order, and the re-clustering stage is only ever
    /// active in cutout mode.
    pub open spec fn wf(self) -> bool {
        &&& self.image.wf()
        &&& match self.stage {
            Stage::New => self.counter == 0 && self.svg@.len() == 0,
            Stage::Clustering(b) => self.counter == 0 && self.svg@.len() == 0
                && Self::stage_job_wf(b),
            Stage::Reclustering(b) => self.counter == 0 && self.svg@.len() == 0
                && self.hierarchical == Hierarchical::Cutout && Self::stage_job_wf(b),
            Stage::Vectorize(c) => {
                &&& self.counter <= cluster_ids(c).len()
                &&& self.svg@.len() == self.counter
                &&& forall|j: int|
                    0 <= j < self.counter ==> (#[trigger] self.svg@[j]).id@ == cluster_ids(c)[
                        self.counter - 1 - j
                    ]
            },
        }
    }

    /// What the invariant keeps of an active clustering job: it is a
    /// well-formed engine job over a non-empty grid small enough for the
    /// engine's progress arithmetic, and its progress metric is defined.
    pub open spec fn stage_job_wf(b: IncrementalBuilder) -> bool {
        &&& job_wf(b)
        &&& progress_total(b)
        &&& builder_dims(b).0 >= 1
        &&& builder_dims(b).1 >= 1
        &&& 50 * builder_dims(b).0 * builder_dims(b).1 <= u32::MAX
    }

    /// The conditions under which the conversion can be started: a
    /// non-empty grid whose pixel count keeps the engine's progress
    /// arithmetic in `u32` range, and, when keying will apply, a pixel that
    /// survives it distinct from the chosen key. Without these the engine's
    /// own progress metric divides by zero or overflows.
    pub open spec fn spec_can_init(self) -> bool {
        &&& self.image.width >= 1
        &&& self.image.height >= 1
        &&& 50 * self.image.width * self.image.height <= u32::MAX
        &&& ((self.hierarchical == Hierarchical::Cutout || spec_should_key(self.image))
            ==> spec_has_unkeyed_survivor(self.image))
    }

    /// Decides whether `init` may run on this controller's image; `init`
    /// requires exactly this (besides being the first call).
    pub fn can_init(&self) -> (r: bool)
        requires
            self.image.wf(),
        ensures
            r == self.spec_can_init(),
    {
        let w = self.image.width;
        let h = self.image.height;
        if w == 0 || h == 0 {
            return false;
        }
        proof {
            self.image.lemma_area_fits();
        }
        let area: usize = w * h;
        proof {
            assert(50 * (area as int) == 50 * self.image.width * self.image.height)
                by (nonlinear_arith)
                requires
                    area == self.image.width * self.image.height,
            ;
        }
        if !(50u128 * (area as u128) <= u32::MAX as u128) {
            return false;
        }
        let needs_key: bool = match self.hierarchical {
            Hierarchical::Cutout => true,
            Hierarchical::Stacked => should_key_image(&self.image),
        };
        if !needs_key {
            return true;
        }
        let key = match find_unused_color_in_image(&self.image) {
            Ok(c) => c,
            Err(_) => Rgba::opaque(1, 254, 253),
        };
        proof {
            assert(key == spec_choose_key(self.image));
        }
        let mut y: usize = 0;
        while y < h
            invariant
                self.image.wf(),
                w == self.image.width,
                h == self.image.height,
                y <= h,
                50 * self.image.width * self.image.height <= u32::MAX,
                key == spec_choose_key(self.image),
                forall|xx: int, yy: int|
                    0 <= xx < w && 0 <= yy < y ==> (spec_needs_key(
                        #[trigger] self.image.spec_pixel(xx, yy),
                    ) || self.image.spec_pixel(xx, yy) == key),
            decreases h - y,
        {
            let mut x: usize = 0;
            while x < w
                invariant
                    self.image.wf(),
                    w == self.image.width,
                    h == self.image.height,
                    y < h,
                    x <= w,
                    50 * self.image.width * self.image.height <= u32::MAX,
                    key == spec_choose_key(self.image),
                    forall|xx: int, yy: int|
                        0 <= xx < w && 0 <= yy < y ==> (spec_needs_key(
                            #[trigger] self.image.spec_pixel(xx, yy),
                        ) || self.image.spec_pixel(xx, yy) == key),
                    forall|xx: int|
                        0 <= xx < x ==> (spec_needs_key(
                            #[trigger] self.image.spec_pixel(xx, y as int),
                        ) || self.image.spec_pixel(xx, y as int) == key),
                decreases w - x,
            {
                let p = self.image.get_pixel(x, y);
                let needs = p.a == 0 || (p.a < 10 && p.r == 0 && p.g == 0 && p.b == 0);
                if !needs && !(p == key) {
                    proof {
                        assert(!spec_needs_key(self.image.spec_pixel(x as int, y as int))
                            && self.image.spec_pixel(x as int, y as int) != spec_choose_key(
                            self.image,
                        ));
                        assert(spec_has_unkeyed_survivor(self.image));
                    }
                    return true;
                }
                x += 1;
            }
            y += 1;
        }
        false
    }

    /// Validates the configuration and builds a fresh controller over the
    /// given source image. Fails, producing no controller, exactly when the
    /// mode string or the hierarchical string is unrecognized.
    pub fn new(params: ColorImageConverterParams, image: Image) -> (r: Result<
        ColorImageConverter,
        ConfigError,
    >)
        requires
            image.wf(),
        ensures
            r is Ok <==> (spec_mode_of(params.mode@) is Some && spec_hierarchical_of(
                params.hierarchical@,
            ) is Some),
            spec_mode_of(params.mode@) is None ==> r == Err::<ColorImageConverter, ConfigError>(
                ConfigError::UnknownMode,
            ),
            spec_mode_of(params.mode@) is Some && spec_hierarchical_of(params.hierarchical@)
                is None ==> r == Err::<ColorImageConverter, ConfigError>(
                ConfigError::UnknownHierarchical,
            ),
            r matches Ok(c) ==> {
                &&& c.wf()
                &&& c.stage is New
                &&& c.counter == 0
                &&& c.svg@.len() == 0
                &&& c.image == image
                &&& c.params == params
                &&& Some(c.mode) == spec_mode_of(params.mode@)
                &&& Some(c.hierarchical) == spec_hierarchical_of(params.hierarchical@)
            },
    {
        let mode = match resolve_mode(&params.mode) {
            Some(m) => m,
            None => {
                return Err(ConfigError::UnknownMode);
            },
        };
        let hierarchical = match resolve_hierarchical(&params.hierarchical) {
            Some(h) => h,
            None => {
                return Err(ConfigError::UnknownHierarchical);
            },
        };
        Ok(
            ColorImageConverter {
                image,
                svg: SvgDocument::new(),
                stage: Stage::New,
                counter: 0,
                mode,
                hierarchical,
                params,
            },
        )
    }

    /// Prepares the working image and starts the first clustering pass.
    ///
    /// Keying is mandatory in cutout mode and heuristic in stacked mode;
    /// either way the chosen sentinel (or the reserved fallback when all
    /// seven candidates occur in the image) replaces the transparent and
    /// near-transparent-black pixels in place, and the engine is instructed
    /// to discard it from the output. Must be called exactly once, before
    /// any `tick`, on a convertible image (`can_init`); the engine requires
    /// a color precision in `0..8`.
    pub fn init(&mut self)
        requires
            old(self).wf(),
            old(self).stage is New,
            0 <= old(self).params.color_precision < 8,
            old(self).spec_can_init(),
        ensures
            final(self).wf(),
            final(self).stage is Clustering,
            final(self).counter == 0,
            final(self).svg == old(self).svg,
            final(self).mode == old(self).mode,
            final(self).hierarchical == old(self).hierarchical,
            final(self).params == old(self).params,
            if old(self).hierarchical == Hierarchical::Cutout || spec_should_key(
                old(self).image,
            ) {
                is_keyed_copy(old(self).image, final(self).image, spec_choose_key(old(self).image))
            } else {
                final(self).image == old(self).image
            },
            final(self).stage matches Stage::Clustering(b) ==> builder_config(b) == (
                old(self).params.layer_difference == 0,
                u32::MAX,
                25600i32,
                old(self).params.filter_speckle,
                (old(self).image.width * old(self).image.height) as usize,
                old(self).params.color_precision,
                1i32,
                old(self).params.layer_difference,
                1usize,
                if old(self).hierarchical == Hierarchical::Cutout || spec_should_key(
                    old(self).image,
                ) {
                    rgba_channels(spec_choose_key(old(self).image))
                } else {
                    (0u8, 0u8, 0u8, 0u8)
                },
            ),
    {
        let needs_key: bool = match self.hierarchical {
            Hierarchical::Cutout => true,
            Hierarchical::Stacked => should_key_image(&self.image),
        };
        let key: Rgba = if needs_key {
            let chosen = match find_unused_color_in_image(&self.image) {
                Ok(c) => c,
                Err(_) => Rgba::opaque(1, 254, 253),
            };
            proof {
                assert(chosen == spec_choose_key(old(self).image));
            }
            apply_key_color(&mut self.image, chosen);
            chosen
        } else {
            Rgba { r: 0, g: 0, b: 0, a: 0 }
        };
        proof {
            self.image.lemma_area_fits();
            if needs_key {
                // A pixel that survives keying, different from the key,
                // keeps the engine's progress metric defined.
                let (x, y) = choose|x: int, y: int|
                    0 <= x < old(self).image.width && 0 <= y < old(self).image.height
                        && !spec_needs_key(#[trigger] old(self).image.spec_pixel(x, y))
                        && old(self).image.spec_pixel(x, y) != spec_choose_key(old(self).image);
                assert(self.image.spec_pixel(x, y) == old(self).image.spec_pixel(x, y));
                assert(self.image.spec_pixel(x, y) != key);
            }
        }
        let area: usize = self.image.width * self.image.height;
        let builder = start_runner(
            &self.image,
            self.params.layer_difference == 0,
            engine_hierarchical_max(),
            25600,
            self.params.filter_speckle,
            area,
            self.params.color_precision,
            1,
            self.params.layer_difference,
            1,
            key,
        );
        self.stage = Stage::Clustering(builder);
    }

    /// Advances the conversion by one bounded unit of work; reports `true`
    /// exactly when the whole conversion is finished, that is, on reaching a
    /// cursor that has consumed every output cluster.
    ///
    /// Stages move strictly forward; the re-clustering stage is entered only
    /// from a finished clustering pass in cutout mode, and never in stacked
    /// mode. Each emission step extracts the cluster at the cursor position
    /// of the result's output order and prepends its path to the document,
    /// so the final document is the reverse of the extraction order.
    pub fn tick(&mut self) -> (done: bool)
        requires
            old(self).wf(),
            !(old(self).stage is New),
        ensures
            final(self).wf(),
            final(self).image == old(self).image,
            final(self).mode == old(self).mode,
            final(self).hierarchical == old(self).hierarchical,
            final(self).params == old(self).params,
            !(final(self).stage is New),
            stage_rank(old(self).stage) <= stage_rank(final(self).stage),
            final(self).stage is Reclustering ==> old(self).hierarchical == Hierarchical::Cutout,
            old(self).hierarchical == Hierarchical::Stacked ==> !(final(self).stage
                is Reclustering),
            old(self).stage is Clustering && old(self).hierarchical == Hierarchical::Cutout
                ==> !(final(self).stage is Vectorize),
            old(self).stage matches Stage::Clustering(b0) ==> (final(self).stage matches
                Stage::Clustering(b1) ==> builder_config(b1) == builder_config(b0)
                && builder_dims(b1) == builder_dims(b0)),
            old(self).stage matches Stage::Reclustering(b0) ==> (final(self).stage matches
                Stage::Reclustering(b1) ==> builder_config(b1) == builder_config(b0)
                && builder_dims(b1) == builder_dims(b0)),
            old(self).stage matches Stage::Clustering(b0) ==> (final(self).stage matches
                Stage::Reclustering(b2) ==> builder_config(b2) == (
                false,
                64u32,
                25600i32,
                0usize,
                (builder_dims(b0).0 * builder_dims(b0).1) as usize,
                0i32,
                1i32,
                0i32,
                0usize,
                (0u8, 0u8, 0u8, 0u8),
            )),
            done == (match old(self).stage {
                Stage::Vectorize(c) => old(self).counter >= cluster_ids(c).len(),
                _ => false,
            }),
            done ==> final(self).stage == old(self).stage
                && final(self).counter == old(self).counter
                && final(self).svg == old(self).svg,
            !(old(self).stage is Vectorize) ==> final(self).svg == old(self).svg
                && final(self).counter == 0,
            old(self).stage matches Stage::Vectorize(c) ==> (old(self).counter < cluster_ids(
                c,
            ).len() ==> {
                &&& final(self).stage == old(self).stage
                &&& final(self).counter == old(self).counter + 1
                &&& final(self).svg@.len() == old(self).svg@.len() + 1
                &&& final(self).svg@[0].id@ == cluster_ids(c)[old(self).counter as int]
                &&& rgba_channels(final(self).svg@[0].color) == residue_rgba(
                    c,
                    cluster_ids(c)[old(self).counter as int],
                )
                &&& final(self).svg@[0].path == extracted_path(
                    c,
                    cluster_ids(c)[old(self).counter as int],
                    old(self).mode,
                    old(self).params.corner_threshold,
                    old(self).params.length_threshold,
                    old(self).params.max_iterations,
                    old(self).params.splice_threshold,
                )
                &&& final(self).svg@[0].precision == old(self).params.path_precision
                &&& forall|j: int|
                    1 <= j < final(self).svg@.len() ==> final(self).svg@[j] == old(self).svg@[j
                        - 1]
            }),
    {
        let mut stage = Stage::New;
        core::mem::swap(&mut stage, &mut self.stage);
        match stage {
            Stage::New => vstd::pervasive::unreached(),
            Stage::Clustering(mut builder) => {
                let finished = builder_step(&mut builder);
                if finished {
                    match self.hierarchical {
                        Hierarchical::Stacked => {
                            let clusters = builder_result(builder);
                            self.stage = Stage::Vectorize(clusters);
                        },
                        Hierarchical::Cutout => {
                            let clusters = builder_result(builder);
                            let synthetic = clusters_to_image(&clusters);
                            proof {
                                synthetic.lemma_area_fits();
                            }
                            let area: usize = synthetic.width * synthetic.height;
                            let second = start_runner(
                                &synthetic,
                                false,
                                64,
                                25600,
                                0,
                                area,
                                0,
                                1,
                                0,
                                0,
                                Rgba { r: 0, g: 0, b: 0, a: 0 },
                            );
                            self.stage = Stage::Reclustering(second);
                        },
                    }
                } else {
                    self.stage = Stage::Clustering(builder);
                }
                false
            },
            Stage::Reclustering(mut builder) => {
                let finished = builder_step(&mut builder);
                if finished {
                    let clusters = builder_result(builder);
                    self.stage = Stage::Vectorize(clusters);
                } else {
                    self.stage = Stage::Reclustering(builder);
                }
                false
            },
            Stage::Vectorize(clusters) => {
                let total = cluster_count(&clusters);
                if self.counter < total {
                    let (id, path, color) = extract_cluster(
                        &clusters,
                        self.counter,
                        self.mode,
                        self.params.corner_threshold,
                        self.params.length_threshold,
                        self.params.max_iterations,
                        self.params.splice_threshold,
                    );
                    let entry = PathEntry {
                        path,
                        color,
                        precision: self.params.path_precision,
                        id: Ghost(id),
                    };
                    self.svg.prepend(entry);
                    self.counter = self.counter + 1;
                    self.stage = Stage::Vectorize(clusters);
                    proof {
                        assert forall|j: int| 0 <= j < self.counter implies (
                        #[trigger] self.svg@[j]).id@ == cluster_ids(clusters)[self.counter - 1
                            - j] by {
                            if j > 0 {
                                assert(self.svg@[j] == old(self).svg@[j - 1]);
                            }
                        }
                    }
                    false
                } else {
                    self.stage = Stage::Vectorize(clusters);
                    true
                }
            },
        }
    }

    /// One 0-100 progress value blended from whichever stage is active:
    /// 0 before `init`, at most half credit during the first clustering
    /// pass, a flat 50 during re-clustering, and 50 plus the emitted share
    /// of the second half during emission. It reaches 100 exactly when the
    /// cursor has consumed every output cluster.
    pub fn progress(&self) -> (p: i32)
        requires
            self.wf(),
        ensures
            0 <= p <= 100,
            self.stage is New ==> p == 0,
            self.stage is Clustering ==> p <= 50,
            self.stage is Reclustering ==> p == 50,
            match self.stage {
                Stage::Clustering(b) => p == spec_clustering_progress(builder_progress_value(b)),
                Stage::Vectorize(c) => p == spec_vectorize_progress(
                    self.counter as int,
                    cluster_ids(c).len() as int,
                ) && (p == 100 <==> self.counter >= cluster_ids(c).len()),
                _ => true,
            },
            !(self.stage is Vectorize) ==> p < 100,
    {
        match &self.stage {
            Stage::New => 0,
            Stage::Clustering(builder) => {
                let raw = builder_progress(builder);
                let half = raw / 2;
                if half > 50 {
                    50
                } else {
                    half as i32
                }
            },
            Stage::Reclustering(_) => 50,
            Stage::Vectorize(clusters) => {
                let total = cluster_count(clusters);
                if total == 0 {
                    100
                } else {
                    let share = (50u128 * (self.counter as u128)) / (total as u128);
                    proof {
                        lemma_emission_share_bounds(self.counter as int, total as int);
                    }
                    50 + (share as i32)
                }
            },
        }
    }
}

/// The clustering-phase progress formula: half of the engine's own reported
/// metric, capped at 50.
pub open spec fn spec_clustering_progress(raw: u32) -> int {
    if raw / 2 > 50 {
        50
    } else {
        (raw / 2) as int
    }
}

/// The emission-phase progress formula: 100 for an empty result, otherwise
/// 50 plus the emitted share of the second half.
pub open spec fn spec_vectorize_progress(counter: int, total: int) -> int {
    if total == 0 {
        100
    } else {
        50 + 50 * counter / total
    }
}

proof fn lemma_emission_share_bounds(counter: int, total: int)
    requires
        0 <= counter <= total,
        total >= 1,
    ensures
        0 <= 50 * counter / total <= 50,
        50 * counter / total == 50 <==> counter == total,
{
    vstd::arithmetic::div_mod::lemma_fundamental_div_mod(50 * counter, total);
    assert(50 * counter <= 50 * total) by (nonlinear_arith)
        requires
            counter <= total,
    ;
    if counter == total {
        vstd::arithmetic::div_mod::lemma_div_by_multiple(50, total);
        assert(50 * counter / total == total * 50 / total);
    } else {
        assert(50 * counter <= 50 * total - 50) by (nonlinear_arith)
            requires
                counter <= total - 1,
        ;
    }
    let q = 50 * counter / total;
    let r = 50 * counter % total;
    if q > 50 {
        assert(total * q >= total * 51) by (nonlinear_arith)
            requires
                q >= 51,
                total >= 1,
        ;
        assert(total * 51 > 50 * total) by (nonlinear_arith)
            requires
                total >= 1,
        ;
    }
    if q < 0 {
        assert(total * q <= total * -1) by (nonlinear_arith)
            requires
                q <= -1,
                total >= 1,
        ;
    }
    if counter < total && q >= 50 {
        assert(total * q >= total * 50) by (nonlinear_arith)
            requires
                q >= 50,
                total >= 1,
        ;
        assert(total * 50 > 50 * total - 50) by (nonlinear_arith)
            requires
                total >= 1,
        ;
    }
}

/// In stacked mode the re-clustering stage is never active.
pub proof fn lemma_stacked_never_reclusters(c: ColorImageConverter)
    requires
        c.wf(),
        c.hierarchical == Hierarchical::Stacked,
    ensures
        !(c.stage is Reclustering),
{
}

/// The cursor never exceeds the total cluster count.
pub proof fn lemma_cursor_bounded(c: ColorImageConverter, cl: Clusters)
    requires
        c.wf(),
        c.stage == Stage::Vectorize(cl),
    ensures
        c.counter <= cluster_ids(cl).len(),
{
}

/// When emission has consumed every cluster, the document lists the cluster
/// identifiers in exactly the reverse of the result's output order: the
/// paths were extracted in that order, one per tick, each prepended.
pub proof fn lemma_emission_order(c: ColorImageConverter, cl: Clusters)
    requires
        c.wf(),
        c.stage == Stage::Vectorize(cl),
        c.counter == cluster_ids(cl).len(),
    ensures
        c.svg@.len() == cluster_ids(cl).len(),
        forall|j: int|
            0 <= j < c.svg@.len() ==> (#[trigger] c.svg@[j]).id@ == cluster_ids(cl).reverse()[j],
{
    assert forall|j: int| 0 <= j < c.svg@.len() implies (#[trigger] c.svg@[j]).id@ == cluster_ids(
        cl,
    ).reverse()[j] by {
        assert(cluster_ids(cl).reverse()[j] == cluster_ids(cl)[c.counter - 1 - j]);
    }
}

} // verus!

use vstd::prelude::*;
use visioncortex::color_clusters::{
    Clusters, IncrementalBuilder, KeyingAction, Runner, RunnerConfig, HIERARCHICAL_MAX,
};
use visioncortex::{Color, ColorImage, CompoundPath, PathSimplifyMode};
use crate::color::Rgba;
use crate::converter::SimplifyMode;
use crate::image::Image;

verus! {

#[verifier::external_type_specification]
#[verifier::external_body]
pub struct ExIncrementalBuilder(IncrementalBuilder);

#[verifier::external_type_specification]
#[verifier::external_body]
pub struct ExClusters(Clusters);

#[verifier::external_type_specification]
#[verifier::external_body]
pub struct ExCompoundPath(CompoundPath);

/// A well-formed clustering job: one produced by `start_runner` under its
/// requires (in particular, a grid small enough that the engine's `u32`
/// progress arithmetic cannot overflow), stepped zero or more times and not
/// yet consumed. Every builder verified code can reach is of this shape:
/// `start_runner` is the only producer and `builder_result` consumes the
/// builder by value.
pub uninterp spec fn job_wf(b: IncrementalBuilder) -> bool;

/// The job's progress metric is defined in every state the job can reach:
/// its grid is non-empty (the metric divides by the pixel count during the
/// first internal stage) and at least one pixel survives keying (during the
/// second internal stage it divides by the count of distinct live cluster
/// areas, which is empty exactly when every pixel was key-discarded).
pub uninterp spec fn progress_total(b: IncrementalBuilder) -> bool;

/// The width and height of the grid the job was started on.
pub uninterp spec fn builder_dims(b: IncrementalBuilder) -> (usize, usize);

/// The engine's own 0-100 progress reading, a deterministic function of the
/// job's state.
pub uninterp spec fn builder_progress_value(b: IncrementalBuilder) -> u32;

/// The configuration the job was started with and keeps for its whole life:
/// diagonal connectivity, hierarchy cap, batch size, minimum and maximum
/// region area, the two color-similarity settings, the deepen threshold,
/// the hollow-neighbour bound, and the key color's four channels.
pub uninterp spec fn builder_config(b: IncrementalBuilder) -> (
    bool,
    u32,
    i32,
    usize,
    usize,
    i32,
    i32,
    i32,
    usize,
    (u8, u8, u8, u8),
);

/// The width and height of the grid a finished result was computed on.
pub uninterp spec fn cluster_dims(c: Clusters) -> (usize, usize);

/// The ordered list of output cluster identifiers of a finished clustering
/// result, in the engine's emission order.
pub uninterp spec fn cluster_ids(c: Clusters) -> Seq<u32>;

/// The representative ("residue") color of one cluster of a result, as its
/// four raw channels (red, green, blue, alpha).
pub uninterp spec fn residue_rgba(c: Clusters, id: u32) -> (u8, u8, u8, u8);

/// The compound path the engine extracts for one cluster of a result, a
/// deterministic function of the result value, the cluster identifier, the
/// simplification mode and the geometric parameters.
pub uninterp spec fn extracted_path(
    c: Clusters,
    id: u32,
    mode: SimplifyMode,
    corner_threshold: u32,
    length_threshold: u32,
    max_iterations: usize,
    splice_threshold: u32,
) -> CompoundPath;

/// The four channels of a library color value, for comparing against
/// `residue_rgba`.
pub open spec fn rgba_channels(c: Rgba) -> (u8, u8, u8, u8) {
    (c.r, c.g, c.b, c.a)
}

/// Relies on `visioncortex::color_clusters::HIERARCHICAL_MAX`, the engine's
/// maximum supported hierarchy depth, defined as `u32::MAX`.
#[verifier::external_body]
pub fn engine_hierarchical_max() -> (h: u32)
    ensures
        h == u32::MAX,
{
    HIERARCHICAL_MAX
}

/// Relies on `visioncortex::color_clusters::Runner::{new, start}`: builds a
/// clustering job over a copy of the image's RGBA buffer. The key color is
/// always paired with `KeyingAction::Discard`, so pixels of that color are
/// excluded from the final output; the engine ignores keying altogether when
/// the key is the all-zero default, which is what the no-keying path passes.
///
/// The requires mirror what the engine's source demands: `Runner::builder`
/// asserts `is_same_color_a < 8` and later shifts channels right by it, so
/// it must not be negative either; and the progress metric multiplies its
/// step counter (bounded by the pixel count) by 50 in `u32`, so the grid
/// must keep that product in range — which also keeps each dimension within
/// `u32`, as the builder's internal fields require. A job over a non-empty
/// grid with a surviving pixel (one different from an active key, or any
/// pixel when keying is off) keeps its progress metric defined through every
/// step, since the engine's table of live cluster areas then starts
/// non-empty and only ever grows.
#[verifier::external_body]
pub(crate) fn start_runner(
    img: &Image,
    diagonal: bool,
    hierarchical: u32,
    batch_size: i32,
    good_min_area: usize,
    good_max_area: usize,
    is_same_color_a: i32,
    is_same_color_b: i32,
    deepen_diff: i32,
    hollow_neighbours: usize,
    key: Rgba,
) -> (b: IncrementalBuilder)
    requires
        img.wf(),
        0 <= is_same_color_a < 8,
        50 * img.width * img.height <= u32::MAX,
    ensures
        job_wf(b),
        builder_config(b) == (
            diagonal,
            hierarchical,
            batch_size,
            good_min_area,
            good_max_area,
            is_same_color_a,
            is_same_color_b,
            deepen_diff,
            hollow_neighbours,
            rgba_channels(key),
        ),
        img.width >= 1 && img.height >= 1 ==> builder_dims(b) == (img.width, img.height),
        (img.width >= 1 && img.height >= 1 && (key == (Rgba { r: 0, g: 0, b: 0, a: 0 })
            || exists|x: int, y: int|
                0 <= x < img.width && 0 <= y < img.height && #[trigger] img.spec_pixel(x, y)
                    != key)) ==> progress_total(b),
{
    let image = ColorImage { pixels: img.data.clone(), width: img.width, height: img.height };
    let key_color = Color::new_rgba(key.r, key.g, key.b, key.a);
    let config = RunnerConfig {
        diagonal, hierarchical, batch_size, good_min_area, good_max_area,
        is_same_color_a, is_same_color_b, deepen_diff, hollow_neighbours,
        key_color, keying_action: KeyingAction::Discard,
    };
    Runner::new(config, image).start()
}

/// Relies on `IncrementalBuilder::tick`: advances the clustering job by one
/// bounded batch of work and reports whether the job has finished. A
/// well-formed job stays well-formed and keeps its grid; stepping never
/// makes a defined progress metric undefined (the engine's table of live
/// cluster areas never shrinks).
#[verifier::external_body]
pub(crate) fn builder_step(b: &mut IncrementalBuilder) -> (done: bool)
    requires
        job_wf(*old(b)),
    ensures
        job_wf(*final(b)),
        builder_dims(*final(b)) == builder_dims(*old(b)),
        builder_config(*final(b)) == builder_config(*old(b)),
        progress_total(*old(b)) ==> progress_total(*final(b)),
{
    b.tick()
}

/// Relies on `IncrementalBuilder::progress`: the job's own coarse 0-100
/// metric, a deterministic function of the job state. It is only defined —
/// the source divides by the pixel count and by the live-area count — on a
/// job whose `progress_total` holds, so that is required here.
#[verifier::external_body]
pub(crate) fn builder_progress(b: &IncrementalBuilder) -> (p: u32)
    requires
        job_wf(*b),
        progress_total(*b),
    ensures
        p == builder_progress_value(*b),
{
    b.progress()
}

/// Relies on `IncrementalBuilder::result`: moves the finished clustering
/// result out of the job. The job is taken by value, so a spent job cannot
/// be stepped or read again from verified code (the engine would panic on
/// its emptied internal state). The result keeps the job's grid.
#[verifier::external_body]
pub(crate) fn builder_result(b: IncrementalBuilder) -> (c: Clusters)
    requires
        job_wf(b),
    ensures
        cluster_dims(c) == builder_dims(b),
{
    let mut b = b;
    b.result()
}

/// Relies on `Clusters::output_len`: the length of the result's ordered
/// output identifier list.
#[verifier::external_body]
pub(crate) fn cluster_count(c: &Clusters) -> (n: usize)
    ensures
        n == cluster_ids(*c).len(),
{
    c.output_len()
}

/// Relies on `Clusters::view` and `ClustersView::to_color_image`: renders the
/// finished result into a flattened image of the result's own grid, each
/// cluster's area painted with its representative color.
/// `ColorImage::new_w_h` allocates exactly four bytes per pixel, so the
/// returned image satisfies the buffer invariant; the size bound keeps that
/// allocation's arithmetic in range.
#[verifier::external_body]
pub(crate) fn clusters_to_image(c: &Clusters) -> (img: Image)
    requires
        50 * cluster_dims(*c).0 * cluster_dims(*c).1 <= u32::MAX,
    ensures
        img.wf(),
        img.width == cluster_dims(*c).0,
        img.height == cluster_dims(*c).1,
{
    let rendered = c.view().to_color_image();
    Image { width: rendered.width, height: rendered.height, data: rendered.pixels }
}

/// Relies on `Clusters::view`, `ClustersView::get_cluster`,
/// `Cluster::to_compound_path` and `Cluster::residue_color`, which are pure
/// functions of the result value and the passed parameters: reads the
/// identifier at position `i` of the result's output order, extracts that
/// cluster's simplified compound path with exactly the given mode and
/// thresholds, and returns the identifier, the path and the cluster's
/// residue color (output clusters hold at least one pixel, so the residue
/// average is defined). The geometric thresholds are whole numbers, widened
/// exactly to the engine's floating parameters.
#[verifier::external_body]
pub(crate) fn extract_cluster(
    c: &Clusters,
    i: usize,
    mode: SimplifyMode,
    corner_threshold: u32,
    length_threshold: u32,
    max_iterations: usize,
    splice_threshold: u32,
) -> (r: (u32, CompoundPath, Rgba))
    requires
        i < cluster_ids(*c).len(),
    ensures
        r.0 == cluster_ids(*c)[i as int],
        r.1 == extracted_path(
            *c,
            r.0,
            mode,
            corner_threshold,
            length_threshold,
            max_iterations,
            splice_threshold,
        ),
        rgba_channels(r.2) == residue_rgba(*c, r.0),
{
    let view = c.view();
    let index = view.clusters_output[i];
    let cluster = view.get_cluster(index);
    let engine_mode = match mode {
        SimplifyMode::NoSimplify => PathSimplifyMode::None,
        SimplifyMode::Polygon => PathSimplifyMode::Polygon,
        SimplifyMode::Spline => PathSimplifyMode::Spline,
    };
    let path = cluster.to_compound_path(&view, false, engine_mode, corner_threshold.into(),
        length_threshold.into(), max_iterations, splice_threshold.into());
    let color = cluster.residue_color();
    (index.0, path, Rgba { r: color.r, g: color.g, b: color.b, a: color.a })
}

} // verus!

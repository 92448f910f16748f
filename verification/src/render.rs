//! The composer: from an angle and the loaded artwork to a scene.
//!
//! Elements are laid down back to front, and later ones cover earlier ones:
//! the sky band, the band below the horizon, the stars or the sun, the
//! landscape layers in the order of the artwork, the bottom strip, the
//! vignette.

use vstd::prelude::*;
use vstd::string::*;
use crate::colors::Color;
use crate::gradient::GradientTable;
use crate::interpolation::{
    curve_value, lemma_between_samples, lemma_sample_in_range, sample_index, sample_offset,
    Interpolation,
};
use crate::scene::{
    gradient_views, node_views, Gradient, GradientId, GradientView, Node, NodeView, Paint, Path,
    PathView, Scene, SceneView, Stop,
};
use crate::shape::{copy_outline, rect_outline, rect_path, PathSegment, UNIT};
use crate::transform::{identity_matrix, sun_rotation, sun_rotation_of, Matrix, Transform};

verus! {

/// One part of the sun artwork: its outline, its colour, and the opacity of
/// the group it is wrapped in, if any (in millionths).
#[derive(Debug, PartialEq, Eq)]
pub struct SunPath {
    pub d: Vec<PathSegment>,
    pub opacity: Option<i32>,
    pub fill: Color,
}

/// One shape of the landscape. The part of `id` before its first dash is
/// the number of the layer whose gradient colours it.
#[derive(Debug, PartialEq, Eq)]
pub struct LandPath {
    pub d: Vec<PathSegment>,
    pub id: String,
    pub transform: Matrix,
}

/// Everything that is loaded once and shared by all scenes.
#[derive(Debug)]
pub struct Assets {
    /// The outline of each star.
    pub stars: Vec<Vec<PathSegment>>,
    /// The parts of the sun, back to front.
    pub sun: Vec<SunPath>,
    /// The shapes of the landscape, back to front.
    pub landscape: Vec<LandPath>,
    /// Colour of the top of the sky.
    pub sky_zenith: GradientTable,
    /// Colour of the middle of the sky.
    pub sky_mid: GradientTable,
    /// Colour of the sky at the horizon.
    pub sky_horizon: GradientTable,
    /// The tables of landscape layers 1 to 11, in that order.
    pub layers: Vec<GradientTable>,
}

/// Number of landscape layers.
pub const LAYER_COUNT: usize = 11;

/// Width of a scene in pixels.
pub const SCENE_WIDTH: i32 = 1600;

/// Height of a scene in pixels.
pub const SCENE_HEIGHT: i32 = 900;

/// Whether the eleven tables in `layers` are all complete.
pub open spec fn layers_wf(layers: Seq<GradientTable>) -> bool {
    &&& layers.len() == 11
    &&& forall|k: int| 0 <= k < 11 ==> (#[trigger] layers[k]).wf()
}

impl Assets {
    /// All fourteen tables are complete.
    pub open spec fn wf(&self) -> bool {
        &&& self.sky_zenith.wf()
        &&& self.sky_mid.wf()
        &&& self.sky_horizon.wf()
        &&& layers_wf(self.layers@)
    }
}

/// Stars are out from dusk to dawn.
pub open spec fn stars_visible(angle: int) -> bool {
    angle <= 95 || angle >= 270
}

/// The sun is up strictly between the two.
pub open spec fn sun_visible(angle: int) -> bool {
    95 < angle < 270
}

/// Whether the part of `id` before its first dash is the one character `digit`.
pub open spec fn names_digit(id: Seq<char>, digit: char) -> bool {
    &&& id.len() >= 1
    &&& id[0] == digit
    &&& (id.len() == 1 || id[1] == '-')
}

/// Whether the part of `id` before its first dash is `10`.
pub open spec fn names_ten(id: Seq<char>) -> bool {
    &&& id.len() >= 2
    &&& id[0] == '1'
    &&& id[1] == '0'
    &&& (id.len() == 2 || id[2] == '-')
}

/// The layer, 1 to 11, that an identifier names: the number before its first
/// dash. Anything that is not one of the numbers 1 to 10 names layer 11.
pub open spec fn layer_of(id: Seq<char>) -> int {
    if names_digit(id, '1') {
        1
    } else if names_digit(id, '2') {
        2
    } else if names_digit(id, '3') {
        3
    } else if names_digit(id, '4') {
        4
    } else if names_digit(id, '5') {
        5
    } else if names_digit(id, '6') {
        6
    } else if names_digit(id, '7') {
        7
    } else if names_digit(id, '8') {
        8
    } else if names_digit(id, '9') {
        9
    } else if names_ten(id) {
        10
    } else {
        11
    }
}

/// Samples of the offset of the zenith stop over the day, in millionths.
pub open spec fn zenith_samples() -> Seq<i32> {
    seq![
        0i32, 0, 0, 0, 0, 0, 0, 0, 0, 0, 0, 0, 0, 0, 0, 120_000, 210_000, 210_000,
        70_000, 70_000, 0, 0, 0, 0,
    ]
}

/// Samples of the offset of the middle stop over the day, in millionths.
pub open spec fn mid_samples() -> Seq<i32> {
    seq![
        660_000i32, 620_000, 520_000, 520_000, 520_000, 520_000, 580_000, 660_000,
        690_000, 550_000, 570_000, 770_000, 780_000, 780_000, 740_000, 740_000,
        740_000, 740_000, 550_000, 560_000, 580_000, 580_000, 580_000, 580_000,
        580_000, 680_000,
    ]
}

/// An opaque stop.
pub open spec fn opaque_stop(offset: int, c: Color) -> Stop {
    Stop { offset: offset as i32, color: c, opacity: UNIT as i32 }
}

/// The three stops that the sky and its reflection share at `angle`.
pub open spec fn sky_stops(angle: int, assets: Assets) -> Seq<Stop> {
    seq![
        opaque_stop(curve_value(zenith_samples(), angle, 360), assets.sky_zenith@[angle]),
        opaque_stop(curve_value(mid_samples(), angle, 360), assets.sky_mid@[angle]),
        opaque_stop(UNIT as int, assets.sky_horizon@[angle]),
    ]
}

/// The colour of the vignette.
pub open spec fn vignette_color() -> Color {
    Color { r: 0, g: 14, b: 39 }
}

/// The two stops of the vignette: clear up to 0.65, then darkening to 0.3.
pub open spec fn vignette_stops() -> Seq<Stop> {
    seq![
        Stop { offset: 650_000, color: vignette_color(), opacity: 0 },
        Stop { offset: 1_000_000, color: vignette_color(), opacity: 300_000 },
    ]
}

/// The gradients of the scene at `angle`: the sky ramp running down from the
/// top, the same ramp running up from below the horizon, and the vignette.
pub open spec fn scene_defs(angle: int, assets: Assets) -> Seq<GradientView> {
    seq![
        GradientView::Linear {
            id: GradientId::Sky,
            x1: 0,
            y1: 0,
            x2: 0,
            y2: 450,
            stops: sky_stops(angle, assets),
        },
        GradientView::Linear {
            id: GradientId::Reflection,
            x1: 0,
            y1: 740,
            x2: 0,
            y2: 520,
            stops: sky_stops(angle, assets),
        },
        GradientView::Radial {
            id: GradientId::Vignette,
            cx: 800,
            cy: 1000,
            r: 1400,
            fx: 800,
            fy: 1000,
            stops: vignette_stops(),
        },
    ]
}

/// An untransformed rectangle, in whole pixels, with its fill.
pub open spec fn band(x: int, y: int, width: int, height: int, fill: Paint) -> NodeView {
    NodeView::Path(
        PathView {
            data: rect_outline(x, y, width, height),
            transform: Transform::Matrix(identity_matrix()),
            fill,
        },
    )
}

/// A star: its outline, untransformed, in white.
pub open spec fn star_view(star: Seq<PathSegment>) -> PathView {
    PathView {
        data: star,
        transform: Transform::Matrix(identity_matrix()),
        fill: Paint::Color(Color { r: 255, g: 255, b: 255 }),
    }
}

/// The path of one part of the sun at `angle`: its outline in its own
/// colour, turned about the pivot.
pub open spec fn sun_path_view(sun: SunPath, angle: int) -> PathView {
    PathView {
        data: sun.d@,
        transform: Transform::Rotate(sun_rotation_of(angle)),
        fill: Paint::Color(sun.fill),
    }
}

/// One part of the sun at `angle`: its path, inside a group where the part
/// has an opacity.
pub open spec fn sun_view(sun: SunPath, angle: int) -> NodeView {
    match sun.opacity {
        Some(opacity) => NodeView::Group { opacity, child: sun_path_view(sun, angle) },
        None => NodeView::Path(sun_path_view(sun, angle)),
    }
}

/// One shape of the landscape at `angle`: its outline under its own fixed
/// transform, in the colour its layer has at that angle.
pub open spec fn land_view(land: LandPath, angle: int, layers: Seq<GradientTable>) -> PathView {
    PathView {
        data: land.d@,
        transform: Transform::Matrix(land.transform),
        fill: Paint::Color(layers[layer_of(land.id@) - 1]@[angle]),
    }
}

/// The first `count` stars as nodes.
pub open spec fn star_nodes(stars: Seq<Vec<PathSegment>>, count: int) -> Seq<NodeView> {
    Seq::new(count as nat, |k: int| NodeView::Path(star_view(stars[k]@)))
}

/// The first `count` parts of the sun as nodes.
pub open spec fn sun_nodes(sun: Seq<SunPath>, angle: int, count: int) -> Seq<NodeView> {
    Seq::new(count as nat, |k: int| sun_view(sun[k], angle))
}

/// The first `count` shapes of the landscape as nodes.
pub open spec fn land_nodes(
    landscape: Seq<LandPath>,
    angle: int,
    layers: Seq<GradientTable>,
    count: int,
) -> Seq<NodeView> {
    Seq::new(count as nat, |k: int| NodeView::Path(land_view(landscape[k], angle, layers)))
}

/// The two bands every scene starts with.
pub open spec fn background_nodes() -> Seq<NodeView> {
    seq![
        band(0, 0, 1600, 540, Paint::Link(GradientId::Sky)),
        band(0, 540, 1600, 360, Paint::Link(GradientId::Reflection)),
    ]
}

/// What stands between the bands and the landscape at `angle`: all the
/// stars, or all the parts of the sun.
pub open spec fn celestial_nodes(angle: int, assets: Assets) -> Seq<NodeView> {
    if stars_visible(angle) {
        star_nodes(assets.stars@, assets.stars@.len() as int)
    } else {
        sun_nodes(assets.sun@, angle, assets.sun@.len() as int)
    }
}

/// How many elements stand between the bands and the landscape at `angle`.
pub open spec fn celestial_count(angle: int, assets: Assets) -> int {
    if stars_visible(angle) {
        assets.stars@.len() as int
    } else {
        assets.sun@.len() as int
    }
}

/// The two overlays every scene ends with: the bottom strip, in the colour
/// of the last layer, and the vignette.
pub open spec fn overlay_nodes(angle: int, assets: Assets) -> Seq<NodeView> {
    seq![
        band(0, 714, 1600, 186, Paint::Color(assets.layers@[10]@[angle])),
        band(0, 0, 1600, 900, Paint::Link(GradientId::Vignette)),
    ]
}

/// The elements of the scene at `angle`, back to front.
pub open spec fn scene_nodes(angle: int, assets: Assets) -> Seq<NodeView> {
    background_nodes() + celestial_nodes(angle, assets) + land_nodes(
        assets.landscape@,
        angle,
        assets.layers@,
        assets.landscape@.len() as int,
    ) + overlay_nodes(angle, assets)
}

/// The scene at `angle`.
pub open spec fn scene_of(angle: int, assets: Assets) -> SceneView {
    SceneView { defs: scene_defs(angle, assets), nodes: scene_nodes(angle, assets) }
}

/// The curve of the zenith stop.
pub fn zenith_curve() -> (out: Interpolation)
    ensures
        out@ == zenith_samples(),
{
    let data: Vec<i32> = vec![
        0i32, 0, 0, 0, 0, 0, 0, 0, 0, 0, 0, 0, 0, 0, 0, 120_000, 210_000, 210_000,
        70_000, 70_000, 0, 0, 0, 0,
    ];
    assert(data@ =~= zenith_samples());
    Interpolation::new(data)
}

/// The curve of the middle stop.
pub fn mid_curve() -> (out: Interpolation)
    ensures
        out@ == mid_samples(),
{
    let data: Vec<i32> = vec![
        660_000i32, 620_000, 520_000, 520_000, 520_000, 520_000, 580_000, 660_000,
        690_000, 550_000, 570_000, 770_000, 780_000, 780_000, 740_000, 740_000,
        740_000, 740_000, 550_000, 560_000, 580_000, 580_000, 580_000, 580_000,
        580_000, 680_000,
    ];
    assert(data@ =~= mid_samples());
    Interpolation::new(data)
}

/// Whether the stars are part of the scene at `angle`.
pub fn shows_stars(angle: usize) -> (shown: bool)
    ensures
        shown == stars_visible(angle as int),
{
    angle <= 95 || angle >= 270
}

/// Whether the sun is part of the scene at `angle`.
pub fn shows_sun(angle: usize) -> (shown: bool)
    ensures
        shown == sun_visible(angle as int),
{
    angle > 95 && angle < 270
}

/// An opaque gradient stop at `offset` millionths.
pub fn color(offset: i32, r: u8, g: u8, b: u8) -> (out: Stop)
    ensures
        out == opaque_stop(offset as int, Color { r, g, b }),
{
    Stop { offset, color: Color { r, g, b }, opacity: UNIT as i32 }
}

/// The layer, 1 to 11, that `id` names.
pub fn layer_index(id: &str) -> (layer: usize)
    ensures
        layer == layer_of(id@),
        1 <= layer <= 11,
{
    let len: usize = id.unicode_len();
    if len == 0 {
        return 11;
    }
    let first: char = id.get_char(0);
    if len == 1 || id.get_char(1) == '-' {
        match first {
            '1' => 1,
            '2' => 2,
            '3' => 3,
            '4' => 4,
            '5' => 5,
            '6' => 6,
            '7' => 7,
            '8' => 8,
            '9' => 9,
            _ => 11,
        }
    } else {
        let second: char = id.get_char(1);
        if first == '1' && second == '0' && (len == 2 || id.get_char(2) == '-') {
            10
        } else {
            11
        }
    }
}

/// A star as a path: untransformed and white.
pub fn convert_star(star: &Vec<PathSegment>) -> (out: Path)
    ensures
        out@ == star_view(star@),
{
    Path {
        data: copy_outline(star),
        transform: Transform::Matrix(Matrix::identity()),
        fill: Paint::Color(Color { r: 255, g: 255, b: 255 }),
    }
}

/// The path of one part of the sun at `angle`.
pub fn sun_node(sun: &SunPath, angle: usize) -> (out: Path)
    requires
        angle < 360,
    ensures
        out@ == sun_path_view(*sun, angle as int),
{
    Path {
        data: copy_outline(&sun.d),
        transform: Transform::Rotate(sun_rotation(angle)),
        fill: Paint::Color(sun.fill),
    }
}

/// One part of the sun at `angle`, wrapped in a group if it has an opacity.
pub fn convert_sun(sun: &SunPath, angle: usize) -> (out: Node)
    requires
        angle < 360,
    ensures
        out@ == sun_view(*sun, angle as int),
{
    match sun.opacity {
        Some(opacity) => Node::Group { opacity, child: sun_node(sun, angle) },
        None => Node::Path(sun_node(sun, angle)),
    }
}

/// One shape of the landscape at `angle`, coloured from its layer's table.
pub fn convert_landscape(land: &LandPath, angle: usize, layers: &Vec<GradientTable>) -> (out: Path)
    requires
        angle < 360,
        layers_wf(layers@),
    ensures
        out@ == land_view(*land, angle as int, layers@),
{
    let layer: usize = layer_index(land.id.as_str());
    let c: Color = layers[layer - 1].get(angle);
    Path {
        data: copy_outline(&land.d),
        transform: Transform::Matrix(land.transform),
        fill: Paint::Color(c),
    }
}

proof fn lemma_node_views_push(nodes: Seq<Node>, node: Node)
    ensures
        node_views(nodes.push(node)) =~= node_views(nodes).push(node@),
{
}

fn band_node(x: i32, y: i32, width: i32, height: i32, fill: Paint) -> (out: Node)
    ensures
        out@ == band(x as int, y as int, width as int, height as int, fill),
{
    Node::Path(
        Path {
            data: rect_path(x, y, width, height),
            transform: Transform::Matrix(Matrix::identity()),
            fill,
        },
    )
}

fn sky_ramp(angle: usize, assets: &Assets) -> (out: Vec<Stop>)
    requires
        angle < 360,
        assets.wf(),
    ensures
        out@ == sky_stops(angle as int, *assets),
{
    let zenith: Color = assets.sky_zenith.get(angle);
    let mid: Color = assets.sky_mid.get(angle);
    let horizon: Color = assets.sky_horizon.get(angle);
    let first: i32 = zenith_curve().interpolate(angle as u32, 360);
    let second: i32 = mid_curve().interpolate(angle as u32, 360);
    let mut out: Vec<Stop> = Vec::with_capacity(3);
    out.push(color(first, zenith.r, zenith.g, zenith.b));
    out.push(color(second, mid.r, mid.g, mid.b));
    out.push(color(UNIT as i32, horizon.r, horizon.g, horizon.b));
    assert(out@ =~= sky_stops(angle as int, *assets));
    out
}

fn vignette_ramp() -> (out: Vec<Stop>)
    ensures
        out@ == vignette_stops(),
{
    let mut out: Vec<Stop> = Vec::with_capacity(2);
    out.push(Stop { offset: 650_000, color: Color { r: 0, g: 14, b: 39 }, opacity: 0 });
    out.push(Stop { offset: 1_000_000, color: Color { r: 0, g: 14, b: 39 }, opacity: 300_000 });
    assert(out@ =~= vignette_stops());
    out
}

fn gradients(angle: usize, assets: &Assets) -> (out: Vec<Gradient>)
    requires
        angle < 360,
        assets.wf(),
    ensures
        gradient_views(out@) == scene_defs(angle as int, *assets),
{
    let mut out: Vec<Gradient> = Vec::with_capacity(3);
    out.push(
        Gradient::Linear {
            id: GradientId::Sky,
            x1: 0,
            y1: 0,
            x2: 0,
            y2: 450,
            stops: sky_ramp(angle, assets),
        },
    );
    out.push(
        Gradient::Linear {
            id: GradientId::Reflection,
            x1: 0,
            y1: 740,
            x2: 0,
            y2: 520,
            stops: sky_ramp(angle, assets),
        },
    );
    out.push(
        Gradient::Radial {
            id: GradientId::Vignette,
            cx: 800,
            cy: 1000,
            r: 1400,
            fx: 800,
            fy: 1000,
            stops: vignette_ramp(),
        },
    );
    assert(gradient_views(out@) =~= scene_defs(angle as int, *assets));
    out
}

/// Composes the scene at `angle` from the artwork and the tables.
pub fn render(angle: usize, assets: &Assets) -> (scene: Scene)
    requires
        angle < 360,
        assets.wf(),
    ensures
        scene@ == scene_of(angle as int, *assets),
{
    let defs: Vec<Gradient> = gradients(angle, assets);
    let mut nodes: Vec<Node> = Vec::new();
    let sky: Node = band_node(0, 0, 1600, 540, Paint::Link(GradientId::Sky));
    let reflection: Node = band_node(0, 540, 1600, 360, Paint::Link(GradientId::Reflection));
    nodes.push(sky);
    nodes.push(reflection);
    assert(node_views(nodes@) =~= background_nodes());

    if shows_stars(angle) {
        let mut i: usize = 0;
        while i < assets.stars.len()
            invariant
                i <= assets.stars.len(),
                node_views(nodes@) =~= background_nodes() + star_nodes(assets.stars@, i as int),
            decreases assets.stars.len() - i,
        {
            let elem: Path = convert_star(&assets.stars[i]);
            let ghost before: Seq<Node> = nodes@;
            nodes.push(Node::Path(elem));
            proof {
                lemma_node_views_push(before, Node::Path(elem));
                assert(star_nodes(assets.stars@, i + 1) =~= star_nodes(assets.stars@, i as int).push(
                    NodeView::Path(elem@),
                ));
            }
            i = i + 1;
        }
    }
    if shows_sun(angle) {
        let mut i: usize = 0;
        while i < assets.sun.len()
            invariant
                angle < 360,
                i <= assets.sun.len(),
                node_views(nodes@) =~= background_nodes() + sun_nodes(
                    assets.sun@,
                    angle as int,
                    i as int,
                ),
            decreases assets.sun.len() - i,
        {
            let elem: Node = convert_sun(&assets.sun[i], angle);
            let ghost before: Seq<Node> = nodes@;
            nodes.push(elem);
            proof {
                lemma_node_views_push(before, elem);
                assert(sun_nodes(assets.sun@, angle as int, i + 1) =~= sun_nodes(
                    assets.sun@,
                    angle as int,
                    i as int,
                ).push(elem@));
            }
            i = i + 1;
        }
    }
    assert(node_views(nodes@) =~= background_nodes() + celestial_nodes(angle as int, *assets));

    let ghost head: Seq<NodeView> = node_views(nodes@);
    let mut i: usize = 0;
    while i < assets.landscape.len()
        invariant
            angle < 360,
            assets.wf(),
            i <= assets.landscape.len(),
            node_views(nodes@) =~= head + land_nodes(
                assets.landscape@,
                angle as int,
                assets.layers@,
                i as int,
            ),
        decreases assets.landscape.len() - i,
    {
        let elem: Path = convert_landscape(&assets.landscape[i], angle, &assets.layers);
        let ghost before: Seq<Node> = nodes@;
        nodes.push(Node::Path(elem));
        proof {
            lemma_node_views_push(before, Node::Path(elem));
            assert(land_nodes(assets.landscape@, angle as int, assets.layers@, i + 1)
                =~= land_nodes(assets.landscape@, angle as int, assets.layers@, i as int).push(
                NodeView::Path(elem@),
            ));
        }
        i = i + 1;
    }

    let bottom_color: Color = assets.layers[LAYER_COUNT - 1].get(angle);
    let ghost body: Seq<NodeView> = node_views(nodes@);
    let bottom: Node = band_node(0, 714, 1600, 186, Paint::Color(bottom_color));
    let vignette: Node = band_node(0, 0, 1600, 900, Paint::Link(GradientId::Vignette));
    let ghost before: Seq<Node> = nodes@;
    nodes.push(bottom);
    nodes.push(vignette);
    proof {
        lemma_node_views_push(before, bottom);
        lemma_node_views_push(before.push(bottom), vignette);
        assert(node_views(nodes@) =~= body + overlay_nodes(angle as int, *assets));
    }
    Scene { defs, nodes }
}

/// The fill of a node: that of its path, or of the path inside it.
pub open spec fn node_fill(node: NodeView) -> Paint {
    match node {
        NodeView::Path(path) => path.fill,
        NodeView::Group { child, .. } => child.fill,
    }
}

/// The name a gradient is defined under.
pub open spec fn gradient_id(gradient: GradientView) -> GradientId {
    match gradient {
        GradientView::Linear { id, .. } => id,
        GradientView::Radial { id, .. } => id,
    }
}

/// The ramp of the sky is a proper one at every angle: its three offsets
/// lie between nought and one and ascend, the zenith stop at no more than
/// 0.21 and the middle stop between 0.52 and 0.78.
pub proof fn lemma_sky_stops_ascend(angle: int, assets: Assets)
    requires
        0 <= angle < 360,
    ensures
        ({
            let stops = sky_stops(angle, assets);
            &&& stops.len() == 3
            &&& 0 <= stops[0].offset <= 210_000
            &&& 520_000 <= stops[1].offset <= 780_000
            &&& stops[2].offset == UNIT
            &&& stops[0].offset < stops[1].offset < stops[2].offset
        }),
{
    let zenith = zenith_samples();
    let mid = mid_samples();
    assert(zenith.len() == 24 && mid.len() == 26);
    assert forall|k: int| 0 <= k < 24 implies 0 <= #[trigger] zenith[k] <= 210_000 by {}
    assert forall|k: int| 0 <= k < 26 implies 520_000 <= #[trigger] mid[k] <= 780_000 by {}
    lemma_sample_in_range(24, angle, 360);
    lemma_sample_in_range(26, angle, 360);
    let zk = sample_index(24, angle, 360);
    let mk = sample_index(26, angle, 360);
    assert(0 <= zenith[zk] <= 210_000);
    assert(520_000 <= mid[mk] <= 780_000);
    if sample_offset(24, angle, 360) != 0 {
        lemma_between_samples(zenith, angle, 360);
        assert(0 <= zenith[zk + 1] <= 210_000);
    }
    if sample_offset(26, angle, 360) != 0 {
        lemma_between_samples(mid, angle, 360);
        assert(520_000 <= mid[mk + 1] <= 780_000);
    }
}

/// No fill points into the void: whatever gradient an element of the scene
/// links to is one the scene defines, and the three it defines are distinct.
pub proof fn lemma_links_are_defined(angle: int, assets: Assets, k: int)
    requires
        0 <= angle < 360,
        0 <= k < scene_nodes(angle, assets).len(),
    ensures
        ({
            let defs = scene_defs(angle, assets);
            &&& defs.len() == 3
            &&& gradient_id(defs[0]) == GradientId::Sky
            &&& gradient_id(defs[1]) == GradientId::Reflection
            &&& gradient_id(defs[2]) == GradientId::Vignette
            &&& node_fill(scene_nodes(angle, assets)[k]) matches Paint::Link(id) ==> exists|d: int|
                0 <= d < 3 && gradient_id(#[trigger] defs[d]) == id
        }),
{
    let defs = scene_defs(angle, assets);
    assert(gradient_id(defs[0]) == GradientId::Sky);
    assert(gradient_id(defs[1]) == GradientId::Reflection);
    assert(gradient_id(defs[2]) == GradientId::Vignette);
}

/// At every angle the scene shows the stars or the sun, never both and
/// never neither: the sun strictly between 95 and 270, the stars elsewhere.
pub proof fn lemma_sun_or_stars(angle: int)
    ensures
        sun_visible(angle) <==> 95 < angle < 270,
        stars_visible(angle) <==> angle <= 95 || angle >= 270,
        stars_visible(angle) <==> !sun_visible(angle),
{
}

/// The order of a scene is fixed: the two bands, then every star or every
/// part of the sun, then every shape of the landscape in the order of the
/// artwork, then the bottom strip and the vignette. Nothing else is in it.
pub proof fn lemma_scene_order(angle: int, assets: Assets)
    requires
        0 <= angle < 360,
    ensures
        ({
            let nodes = scene_nodes(angle, assets);
            let stars = assets.stars@;
            let sun = assets.sun@;
            let land = assets.landscape@;
            let sky: int = celestial_count(angle, assets);
            let rest: int = 2 + sky + land.len();
            &&& nodes.len() == 2 + sky + land.len() + 2
            &&& sky == celestial_nodes(angle, assets).len()
            &&& nodes[0] == band(0, 0, 1600, 540, Paint::Link(GradientId::Sky))
            &&& nodes[1] == band(0, 540, 1600, 360, Paint::Link(GradientId::Reflection))
            &&& stars_visible(angle) ==> forall|k: int|
                0 <= k < stars.len() ==> #[trigger] nodes[2 + k] == NodeView::Path(
                    star_view(stars[k]@),
                )
            &&& sun_visible(angle) ==> forall|k: int|
                0 <= k < sun.len() ==> #[trigger] nodes[2 + k] == sun_view(sun[k], angle)
            &&& forall|k: int|
                0 <= k < land.len() ==> #[trigger] nodes[2 + sky + k] == NodeView::Path(
                    land_view(land[k], angle, assets.layers@),
                )
            &&& nodes[rest] == band(
                0,
                714,
                1600,
                186,
                Paint::Color(assets.layers@[10]@[angle]),
            )
            &&& nodes[rest + 1] == band(
                0,
                0,
                1600,
                900,
                Paint::Link(GradientId::Vignette),
            )
        }),
{
}

} // verus!

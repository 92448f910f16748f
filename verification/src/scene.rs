//! The scene description: what the composer hands to a rasteriser.

use vstd::prelude::*;
use crate::colors::Color;
use crate::shape::PathSegment;
use crate::transform::Transform;

verus! {

/// The three gradients a scene defines.
#[derive(Clone, Copy, Debug, PartialEq, Eq, Structural)]
pub enum GradientId {
    /// The ramp of the sky band.
    Sky,
    /// The same ramp, run upwards, for the band below the horizon.
    Reflection,
    /// The dark halo laid over everything.
    Vignette,
}

/// How a shape is filled.
#[derive(Clone, Copy, Debug, PartialEq, Eq, Structural)]
pub enum Paint {
    /// With one colour.
    Color(Color),
    /// With one of the scene's gradients.
    Link(GradientId),
}

/// One stop of a gradient. `offset` and `opacity` are in millionths.
#[derive(Clone, Copy, Debug, PartialEq, Eq, Structural)]
pub struct Stop {
    pub offset: i32,
    pub color: Color,
    pub opacity: i32,
}

/// A gradient definition in user space, padded beyond its ends. Positions
/// are in whole pixels.
#[derive(Debug, PartialEq, Eq)]
pub enum Gradient {
    Linear { id: GradientId, x1: i32, y1: i32, x2: i32, y2: i32, stops: Vec<Stop> },
    Radial { id: GradientId, cx: i32, cy: i32, r: i32, fx: i32, fy: i32, stops: Vec<Stop> },
}

/// A filled outline with its transform.
#[derive(Debug, PartialEq, Eq)]
pub struct Path {
    pub data: Vec<PathSegment>,
    pub transform: Transform,
    pub fill: Paint,
}

/// A drawable element: a path, or a path inside a group of reduced opacity
/// (in millionths).
#[derive(Debug, PartialEq, Eq)]
pub enum Node {
    Path(Path),
    Group { opacity: i32, child: Path },
}

/// A composed scene: its gradients, and its elements from back to front.
#[derive(Debug, PartialEq, Eq)]
pub struct Scene {
    pub defs: Vec<Gradient>,
    pub nodes: Vec<Node>,
}

/// What a gradient definition holds.
pub enum GradientView {
    Linear { id: GradientId, x1: i32, y1: i32, x2: i32, y2: i32, stops: Seq<Stop> },
    Radial { id: GradientId, cx: i32, cy: i32, r: i32, fx: i32, fy: i32, stops: Seq<Stop> },
}

/// What a path holds.
pub struct PathView {
    pub data: Seq<PathSegment>,
    pub transform: Transform,
    pub fill: Paint,
}

/// What a node holds.
pub enum NodeView {
    Path(PathView),
    Group { opacity: i32, child: PathView },
}

/// What a scene holds.
pub struct SceneView {
    pub defs: Seq<GradientView>,
    pub nodes: Seq<NodeView>,
}

impl View for Gradient {
    type V = GradientView;

    open spec fn view(&self) -> GradientView {
        match *self {
            Gradient::Linear { id, x1, y1, x2, y2, stops } => GradientView::Linear {
                id,
                x1,
                y1,
                x2,
                y2,
                stops: stops@,
            },
            Gradient::Radial { id, cx, cy, r, fx, fy, stops } => GradientView::Radial {
                id,
                cx,
                cy,
                r,
                fx,
                fy,
                stops: stops@,
            },
        }
    }
}

impl View for Path {
    type V = PathView;

    open spec fn view(&self) -> PathView {
        PathView { data: self.data@, transform: self.transform, fill: self.fill }
    }
}

impl View for Node {
    type V = NodeView;

    open spec fn view(&self) -> NodeView {
        match *self {
            Node::Path(path) => NodeView::Path(path@),
            Node::Group { opacity, child } => NodeView::Group { opacity, child: child@ },
        }
    }
}

/// The views of a run of nodes, in order.
pub open spec fn node_views(nodes: Seq<Node>) -> Seq<NodeView> {
    Seq::new(nodes.len(), |i: int| nodes[i]@)
}

/// The views of a run of gradients, in order.
pub open spec fn gradient_views(defs: Seq<Gradient>) -> Seq<GradientView> {
    Seq::new(defs.len(), |i: int| defs[i]@)
}

impl View for Scene {
    type V = SceneView;

    open spec fn view(&self) -> SceneView {
        SceneView { defs: gradient_views(self.defs@), nodes: node_views(self.nodes@) }
    }
}

} // verus!

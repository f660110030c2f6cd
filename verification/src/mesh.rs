//! Mesh data.

pub use self::control_point::{ControlPointIndex, ControlPoints, Position};
pub use self::polygon_vertex_index::{
    IntoCpiWithPolyVert, PolygonIndex, PolygonVertex, PolygonVertexIndex, PolygonVertices,
    RawPolygonVertices,
};
pub use self::triangle_vertex_index::{
    IntoCpiWithTriVert, IntoPvWithTriVert, TriangleIndex, TriangleVertexIndex, TriangleVertices,
};

pub mod control_point;
pub mod polygon_vertex_index;
pub mod triangle_vertex_index;

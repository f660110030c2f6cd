use fbxcel_dom::error::{Error, ErrorKind};
use fbxcel_dom::mesh::{
    ControlPointIndex, ControlPoints, IntoCpiWithPolyVert, IntoCpiWithTriVert, IntoPvWithTriVert,
    PolygonIndex, PolygonVertex, PolygonVertexIndex, PolygonVertices, Position, RawPolygonVertices,
    TriangleIndex, TriangleVertexIndex, TriangleVertices,
};

fn decode_raw(raw: &[i32]) -> Result<PolygonVertices, Error> {
    PolygonVertices::new(&RawPolygonVertices::new(raw.to_vec()))
}

fn cpi(index: u32) -> ControlPointIndex {
    ControlPointIndex::new(index)
}

/// A quad, a triangle and a pentagon.
fn three_polygons() -> PolygonVertices {
    decode_raw(&[0, 1, 2, !3, 4, 5, !6, 7, 8, 9, 10, !11]).unwrap()
}

#[test]
fn one_quad_decodes_to_one_polygon() {
    let pv = decode_raw(&[0, 1, 2, !3]).unwrap();
    assert_eq!(pv.polygon_count(), 1);
    assert_eq!(pv.len(), 4);
    let vertices = pv.vertices_of(PolygonIndex::new(0)).unwrap();
    let points: Vec<u32> = vertices.iter().map(|v| v.control_point.to_u32()).collect();
    assert_eq!(points, vec![0, 1, 2, 3]);
    assert_eq!(pv.vertices_of(PolygonIndex::new(1)), None);
}

#[test]
fn one_quad_has_two_fan_triangles() {
    let pv = decode_raw(&[0, 1, 2, !3]).unwrap();
    let triangles = TriangleVertices::new(&pv);
    assert_eq!(triangles.triangle_count(), 2);
    assert_eq!(triangles.len(), 6);
    assert_eq!(
        triangles.control_points_of_triangle(TriangleIndex::new(0)),
        Some([cpi(0), cpi(1), cpi(2)])
    );
    assert_eq!(
        triangles.control_points_of_triangle(TriangleIndex::new(1)),
        Some([cpi(0), cpi(2), cpi(3)])
    );
    assert_eq!(triangles.control_points_of_triangle(TriangleIndex::new(2)), None);
}

#[test]
fn polygon_of_two_vertices_is_malformed() {
    let e = decode_raw(&[0, !1]).unwrap_err();
    assert_eq!(e, Error::ShortPolygon { start: 0, len: 2 });
    assert_eq!(e.kind(), ErrorKind::MalformedIndexBuffer);
}

#[test]
fn short_polygons_are_rejected_wherever_they_stand() {
    assert_eq!(decode_raw(&[!0]).unwrap_err(), Error::ShortPolygon { start: 0, len: 1 });
    assert_eq!(
        decode_raw(&[0, 1, !2, !3]).unwrap_err(),
        Error::ShortPolygon { start: 3, len: 1 }
    );
    assert_eq!(
        decode_raw(&[0, 1, !2, 3, !4, 5, 6, !7]).unwrap_err(),
        Error::ShortPolygon { start: 3, len: 2 }
    );
    // the first short polygon is the one that is reported
    assert_eq!(
        decode_raw(&[0, !1, !2]).unwrap_err(),
        Error::ShortPolygon { start: 0, len: 2 }
    );
    // and it is reported before the missing end
    assert_eq!(
        decode_raw(&[0, !1, 2, 3]).unwrap_err(),
        Error::ShortPolygon { start: 0, len: 2 }
    );
}

#[test]
fn buffer_that_ends_inside_a_polygon_is_malformed() {
    let e = decode_raw(&[0, 1, 2]).unwrap_err();
    assert_eq!(e, Error::UnterminatedPolygon { start: 0 });
    assert_eq!(e.kind(), ErrorKind::MalformedIndexBuffer);
    assert_eq!(
        decode_raw(&[0, 1, !2, 3]).unwrap_err(),
        Error::UnterminatedPolygon { start: 3 }
    );
    assert_eq!(decode_raw(&[5]).unwrap_err(), Error::UnterminatedPolygon { start: 0 });
}

#[test]
fn empty_buffer_has_no_polygons() {
    let pv = decode_raw(&[]).unwrap();
    assert_eq!(pv.polygon_count(), 0);
    assert_eq!(pv.len(), 0);
    assert_eq!(pv.polygon_of(PolygonVertexIndex::new(0)), None);
    assert_eq!(pv.control_point_of(PolygonVertexIndex::new(0)), None);
    assert_eq!(pv.vertices_of(PolygonIndex::new(0)), None);
    let triangles = TriangleVertices::new(&pv);
    assert_eq!(triangles.triangle_count(), 0);
    assert_eq!(triangles.len(), 0);
    assert_eq!(triangles.polygon_vertex_index(TriangleVertexIndex::new(0)), None);
    assert_eq!(triangles.polygon_of_triangle(TriangleIndex::new(0)), None);
}

#[test]
fn complement_marks_the_last_vertex() {
    // !x is -(x + 1)
    assert_eq!(!3i32, -4);
    let pv = decode_raw(&[7, 8, -10]).unwrap();
    assert_eq!(pv.control_point_of(PolygonVertexIndex::new(2)), Some(cpi(9)));
    let pv = decode_raw(&[0, 0, -1]).unwrap();
    assert_eq!(pv.control_point_of(PolygonVertexIndex::new(2)), Some(cpi(0)));
    let pv = decode_raw(&[i32::MAX, 0, i32::MIN]).unwrap();
    assert_eq!(pv.control_point_of(PolygonVertexIndex::new(0)), Some(cpi(0x7fff_ffff)));
    assert_eq!(pv.control_point_of(PolygonVertexIndex::new(2)), Some(cpi(0x7fff_ffff)));
}

#[test]
fn raw_buffer_decodes_entry_by_entry() {
    let raw = RawPolygonVertices::new(vec![4, 5, !6, 7]);
    assert_eq!(raw.len(), 4);
    assert_eq!(raw.get(PolygonVertexIndex::new(0)), Some(cpi(4)));
    assert_eq!(raw.get(PolygonVertexIndex::new(2)), Some(cpi(6)));
    assert_eq!(raw.get(PolygonVertexIndex::new(3)), Some(cpi(7)));
    assert_eq!(raw.get(PolygonVertexIndex::new(4)), None);
    assert_eq!(raw.is_polygon_end(PolygonVertexIndex::new(1)), Some(false));
    assert_eq!(raw.is_polygon_end(PolygonVertexIndex::new(2)), Some(true));
    assert_eq!(raw.is_polygon_end(PolygonVertexIndex::new(4)), None);
}

#[test]
fn polygon_boundaries_are_where_the_negative_entries_are() {
    let pv = three_polygons();
    assert_eq!(pv.polygon_count(), 3);
    assert_eq!(pv.len(), 12);
    let expected_polygon = [0, 0, 0, 0, 1, 1, 1, 2, 2, 2, 2, 2];
    for (i, p) in expected_polygon.iter().enumerate() {
        let index = PolygonVertexIndex::new(i);
        assert_eq!(pv.polygon_of(index), Some(PolygonIndex::new(*p)));
        assert_eq!(pv.control_point_of(index), Some(cpi(i as u32)));
        assert_eq!(
            pv.polygon_vertex(index),
            Some(PolygonVertex {
                index,
                polygon: PolygonIndex::new(*p),
                control_point: cpi(i as u32),
            })
        );
    }
    assert_eq!(pv.polygon_of(PolygonVertexIndex::new(12)), None);
    assert_eq!(pv.control_point_of(PolygonVertexIndex::new(12)), None);
    assert_eq!(pv.polygon_vertex(PolygonVertexIndex::new(12)), None);
    assert_eq!(pv.first_vertex_of(PolygonIndex::new(0)), Some(PolygonVertexIndex::new(0)));
    assert_eq!(pv.first_vertex_of(PolygonIndex::new(1)), Some(PolygonVertexIndex::new(4)));
    assert_eq!(pv.first_vertex_of(PolygonIndex::new(2)), Some(PolygonVertexIndex::new(7)));
    assert_eq!(pv.first_vertex_of(PolygonIndex::new(3)), None);
}

#[test]
fn vertices_of_a_polygon_are_in_order() {
    let pv = decode_raw(&[9, 8, !7, 3, 3, 5, !3]).unwrap();
    let second = pv.vertices_of(PolygonIndex::new(1)).unwrap();
    assert_eq!(second.len(), 4);
    for (k, (vertex, point)) in second.iter().zip([3, 3, 5, 3]).enumerate() {
        assert_eq!(vertex.index, PolygonVertexIndex::new(3 + k));
        assert_eq!(vertex.polygon, PolygonIndex::new(1));
        assert_eq!(vertex.control_point, cpi(point));
        // what the polygons hand out is in range
        assert_eq!(pv.polygon_vertex(vertex.index), Some(*vertex));
    }
    let first = pv.vertices_of(PolygonIndex::new(0)).unwrap();
    let points: Vec<u32> = first.iter().map(|v| v.control_point.to_u32()).collect();
    assert_eq!(points, vec![9, 8, 7]);
}

#[test]
fn polygon_with_n_vertices_has_n_minus_two_triangles() {
    let pv = three_polygons();
    let triangles = TriangleVertices::new(&pv);
    // 2 + 1 + 3
    assert_eq!(triangles.triangle_count(), 6);
    assert_eq!(triangles.len(), 18);
    let expected_polygon = [0, 0, 1, 2, 2, 2];
    for (t, p) in expected_polygon.iter().enumerate() {
        assert_eq!(
            triangles.polygon_of_triangle(TriangleIndex::new(t)),
            Some(PolygonIndex::new(*p))
        );
    }
    assert_eq!(triangles.polygon_of_triangle(TriangleIndex::new(6)), None);
}

#[test]
fn triangle_k_has_the_corners_zero_k_plus_one_k_plus_two() {
    let pv = three_polygons();
    let triangles = TriangleVertices::new(&pv);
    let expected: [[usize; 3]; 6] =
        [[0, 1, 2], [0, 2, 3], [4, 5, 6], [7, 8, 9], [7, 9, 10], [7, 10, 11]];
    for (t, corners) in expected.iter().enumerate() {
        let vertices = triangles.triangle(TriangleIndex::new(t)).unwrap();
        for j in 0..3 {
            assert_eq!(vertices[j], TriangleVertexIndex::new(3 * t + j));
            assert_eq!(vertices[j].triangle_index(), TriangleIndex::new(t));
            assert_eq!(vertices[j].corner(), j);
            assert_eq!(
                triangles.polygon_vertex_index(vertices[j]),
                Some(PolygonVertexIndex::new(corners[j]))
            );
            assert_eq!(triangles.control_point_index(vertices[j]), Some(cpi(corners[j] as u32)));
        }
    }
    assert_eq!(triangles.triangle(TriangleIndex::new(6)), None);
    assert_eq!(triangles.polygon_vertex_index(TriangleVertexIndex::new(18)), None);
    assert_eq!(triangles.control_point_index(TriangleVertexIndex::new(18)), None);
    assert_eq!(triangles.polygon_vertex(TriangleVertexIndex::new(18)), None);
}

#[test]
fn triangle_vertex_refers_to_the_control_point_and_not_to_its_position() {
    let pv = decode_raw(&[10, 20, 30, !40]).unwrap();
    let triangles = TriangleVertices::new(&pv);
    assert_eq!(
        triangles.control_points_of_triangle(TriangleIndex::new(1)),
        Some([cpi(10), cpi(30), cpi(40)])
    );
    assert_eq!(
        triangles.polygon_vertex(TriangleVertexIndex::new(5)),
        Some(PolygonVertex {
            index: PolygonVertexIndex::new(3),
            polygon: PolygonIndex::new(0),
            control_point: cpi(40),
        })
    );
    assert_eq!(triangles.polygon_vertices().len(), 4);
}

#[test]
fn conversions_between_the_index_spaces_agree() {
    let pv = decode_raw(&[5, 6, 7, !8, 1, 2, !3]).unwrap();
    let triangles = TriangleVertices::new(&pv);
    for v in 0..triangles.len() {
        let tv = TriangleVertexIndex::new(v);
        let vertex = tv.polygon_vertex(&triangles).unwrap();
        let direct = IntoCpiWithTriVert::control_point_index(tv, &triangles).unwrap();
        assert_eq!(vertex.control_point, direct);
        assert_eq!(IntoCpiWithTriVert::control_point_index(vertex, &triangles), Some(direct));
        assert_eq!(
            IntoCpiWithTriVert::control_point_index(vertex.index, &triangles),
            Some(direct)
        );
        assert_eq!(IntoCpiWithPolyVert::control_point_index(vertex.index, &pv), Some(direct));
        assert_eq!(IntoCpiWithPolyVert::control_point_index(vertex, &pv), Some(direct));
        assert_eq!(vertex.index.polygon_vertex(&triangles), Some(vertex));
        assert_eq!(vertex.polygon_vertex(&triangles), Some(vertex));
    }
    // a control point index is one already
    assert_eq!(IntoCpiWithPolyVert::control_point_index(cpi(77), &pv), Some(cpi(77)));
    assert_eq!(IntoCpiWithTriVert::control_point_index(cpi(77), &triangles), Some(cpi(77)));
    // what is out of range names nothing
    let beyond = TriangleVertexIndex::new(triangles.len());
    assert_eq!(beyond.polygon_vertex(&triangles), None);
    assert_eq!(IntoCpiWithTriVert::control_point_index(beyond, &triangles), None);
    let beyond = PolygonVertexIndex::new(pv.len());
    assert_eq!(beyond.polygon_vertex(&triangles), None);
    assert_eq!(IntoCpiWithTriVert::control_point_index(beyond, &triangles), None);
    assert_eq!(IntoCpiWithPolyVert::control_point_index(beyond, &pv), None);
}

#[test]
fn triangle_vertex_index_is_three_times_the_triangle_plus_the_corner() {
    assert_eq!(
        TriangleVertexIndex::from_triangle(TriangleIndex::new(4), 2),
        Some(TriangleVertexIndex::new(14))
    );
    assert_eq!(TriangleVertexIndex::from_triangle(TriangleIndex::new(4), 3), None);
    assert_eq!(TriangleVertexIndex::from_triangle(TriangleIndex::new(usize::MAX), 0), None);
    assert_eq!(TriangleVertexIndex::from_triangle(TriangleIndex::new(usize::MAX / 3), 2), None);
    assert_eq!(TriangleVertexIndex::new(14).to_usize(), 14);
    assert_eq!(TriangleIndex::new(4).to_usize(), 4);
    assert_eq!(PolygonIndex::new(4).to_usize(), 4);
    assert_eq!(PolygonVertexIndex::new(4).to_usize(), 4);
}

#[test]
fn many_triangles_find_their_polygon() {
    // polygons of 3, 4, 5, ... 40 vertices
    let mut raw = Vec::new();
    let mut sizes = Vec::new();
    let mut next = 0;
    for size in 3..=40 {
        sizes.push(size);
        for k in 0..size {
            raw.push(if k + 1 == size { !next } else { next });
            next += 1;
        }
    }
    let pv = decode_raw(&raw).unwrap();
    assert_eq!(pv.polygon_count(), sizes.len());
    let triangles = TriangleVertices::new(&pv);
    let mut t = 0;
    let mut first = 0;
    for (p, size) in sizes.iter().enumerate() {
        for k in 0..(size - 2) {
            assert_eq!(
                triangles.polygon_of_triangle(TriangleIndex::new(t)),
                Some(PolygonIndex::new(p))
            );
            assert_eq!(
                triangles.control_points_of_triangle(TriangleIndex::new(t)),
                Some([
                    cpi(first as u32),
                    cpi((first + k + 1) as u32),
                    cpi((first + k + 2) as u32)
                ])
            );
            t += 1;
        }
        for k in 0..*size {
            assert_eq!(
                pv.polygon_of(PolygonVertexIndex::new(first + k)),
                Some(PolygonIndex::new(p))
            );
        }
        first += size;
    }
    assert_eq!(triangles.triangle_count(), t);
}

#[test]
fn control_points_are_three_coordinates_each() {
    let coordinates: Vec<u64> =
        [0.0f64, 1.0, 2.0, 3.5, -4.5, 5.5, 6.0].iter().map(|c| c.to_bits()).collect();
    let points = ControlPoints::new(coordinates);
    // the seventh coordinate belongs to no point
    assert_eq!(points.len(), 2);
    let second = points.get(cpi(1)).unwrap();
    assert_eq!(f64::from_bits(second.x), 3.5);
    assert_eq!(f64::from_bits(second.y), -4.5);
    assert_eq!(f64::from_bits(second.z), 5.5);
    assert_eq!(
        points.get(cpi(0)),
        Some(Position { x: 0.0f64.to_bits(), y: 1.0f64.to_bits(), z: 2.0f64.to_bits() })
    );
    assert_eq!(points.get(cpi(2)), None);
    assert_eq!(points.get(cpi(u32::MAX)), None);
    assert_eq!(ControlPoints::new(Vec::new()).get(cpi(0)), None);
}

#[test]
fn repeated_mesh_queries_give_the_same_result() {
    let pv = three_polygons();
    let again = three_polygons();
    let triangles = TriangleVertices::new(&pv);
    for i in 0..=pv.len() {
        let index = PolygonVertexIndex::new(i);
        assert_eq!(pv.polygon_vertex(index), pv.polygon_vertex(index));
        assert_eq!(pv.polygon_vertex(index), again.polygon_vertex(index));
    }
    for v in 0..=triangles.len() {
        let index = TriangleVertexIndex::new(v);
        assert_eq!(triangles.polygon_vertex(index), triangles.polygon_vertex(index));
    }
}

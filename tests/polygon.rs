use rs_calc::polygon::{polygon_index_buffer, triangulate_polygon};

fn shoelace(points: &[(f64, f64)]) -> f64 {
    let n = points.len();
    let mut twice = 0.0;
    for i in 0..n {
        let (x0, y0) = points[i];
        let (x1, y1) = points[(i + 1) % n];
        twice += x0 * y1 - x1 * y0;
    }
    twice / 2.0
}

#[test]
fn too_few_vertices_give_no_triangle() {
    assert!(triangulate_polygon(0).is_empty());
    assert!(triangulate_polygon(1).is_empty());
    assert!(triangulate_polygon(2).is_empty());
}

#[test]
fn triangle_is_one_triangle() {
    assert_eq!(triangulate_polygon(3), vec![0, 1, 2]);
}

#[test]
fn quad_is_two_triangles() {
    assert_eq!(triangulate_polygon(4), vec![0, 1, 3, 1, 2, 3]);
}

#[test]
fn pentagon_fan() {
    assert_eq!(triangulate_polygon(5), vec![0, 1, 4, 1, 3, 4, 1, 2, 3]);
}

#[test]
fn octagon_fan_alternates_front_and_back() {
    assert_eq!(
        triangulate_polygon(8),
        vec![0, 1, 7, 1, 6, 7, 1, 2, 6, 2, 5, 6, 2, 3, 5, 3, 4, 5]
    );
}

#[test]
fn triangle_count_is_vertex_count_minus_two() {
    for n in 3usize..40 {
        let indices = triangulate_polygon(n);
        assert_eq!(indices.len(), 3 * (n - 2));
        for t in indices.chunks(3) {
            assert!(0 <= t[0] && t[0] < t[1] && t[1] < t[2] && (t[2] as usize) < n);
        }
    }
}

#[test]
fn regular_octagon_areas_add_up() {
    let n = 8;
    let points: Vec<(f64, f64)> = (0..n)
        .map(|i| {
            let a = std::f64::consts::PI * 2.0 * (i as f64) / (n as f64);
            (a.cos(), a.sin())
        })
        .collect();
    let indices = triangulate_polygon(n);
    assert_eq!(indices.len() / 3, 6);
    let mut sum = 0.0;
    for t in indices.chunks(3) {
        let tri = [points[t[0] as usize], points[t[1] as usize], points[t[2] as usize]];
        let area = shoelace(&tri);
        assert!(area > 0.0);
        sum += area;
    }
    assert!((sum - shoelace(&points)).abs() < 1e-9);
}

#[test]
fn index_buffer_holds_fan_bytes() {
    let buffer = polygon_index_buffer(5);
    assert_eq!(buffer.index_count, 9);
    let expected: Vec<u8> = triangulate_polygon(5)
        .iter()
        .flat_map(|i| i.to_ne_bytes())
        .collect();
    assert_eq!(buffer.bytes.len(), 36);
    assert_eq!(buffer.bytes, expected);
}

#[test]
fn index_buffer_of_degenerate_polygon_is_empty() {
    let buffer = polygon_index_buffer(2);
    assert_eq!(buffer.index_count, 0);
    assert!(buffer.bytes.is_empty());
}

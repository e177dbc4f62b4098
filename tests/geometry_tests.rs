use draw3d::geometry::{Geometry, GeometryError, GeometryType};
use draw3d::shapes::{fan_indices, grid_indices, Draw, ParametricSurface, PolyLine, Polygon};
use draw3d::vertex::{vertex_buffer_words, Vertex, COLOR_OFFSET, VERTEX_STRIDE, VERTEX_WORDS};

fn vtx(x: f32, y: f32) -> Vertex {
    Vertex::new(
        [x.to_bits(), y.to_bits(), 0.0f32.to_bits()],
        [0.5f32.to_bits(), 0.0f32.to_bits(), 0.5f32.to_bits()],
    )
}

fn vertices(n: usize) -> Vec<Vertex> {
    (0..n).map(|i| vtx(i as f32, 0.0)).collect()
}

#[test]
fn vertex_words_are_position_then_color() {
    let v = Vertex::new([1, 2, 3], [4, 5, 6]);
    let w = Vertex::new([7, 8, 9], [10, 11, 12]);
    assert_eq!(vertex_buffer_words(&[v, w]), vec![1, 2, 3, 4, 5, 6, 7, 8, 9, 10, 11, 12]);
    assert_eq!(VERTEX_WORDS, 6);
    assert_eq!(VERTEX_STRIDE, 24);
    assert_eq!(COLOR_OFFSET, 12);
}

#[test]
fn mesh_keeps_its_data() {
    let vs = vertices(3);
    let g = Geometry::new_mesh(&vs, &[0, 1, 2]).unwrap();
    assert_eq!(g.geometry_type(), GeometryType::Mesh);
    assert_eq!(g.num_indices(), 3);
    assert_eq!(g.vertices(), vs.as_slice());
    assert_eq!(g.indices(), &[0, 1, 2]);
}

#[test]
fn line_is_tagged_line() {
    let g = Geometry::new_line(&vertices(2), &[0, 1]).unwrap();
    assert_eq!(g.geometry_type(), GeometryType::Line);
    assert_eq!(g.num_indices(), 2);
}

#[test]
fn index_past_last_vertex_is_refused() {
    let r = Geometry::new_mesh(&vertices(3), &[0, 1, 3]);
    assert_eq!(r.err(), Some(GeometryError::IndexOutOfRange));
    let r = Geometry::new_line(&[], &[0]);
    assert_eq!(r.err(), Some(GeometryError::IndexOutOfRange));
}

#[test]
fn buffer_bytes_follow_machine_order() {
    let g = Geometry::new_line(&[Vertex::new([0x0403_0201, 5, 6], [7, 8, 9]), vtx(1.0, 0.0)], &[1, 0x0100])
        .err();
    assert_eq!(g, Some(GeometryError::IndexOutOfRange));
    let vs = [Vertex::new([0x0403_0201, 5, 6], [7, 8, 9]), vtx(1.0, 0.0)];
    let g = Geometry::new_line(&vs, &[1, 0]).unwrap();
    let vb = g.vertex_bytes();
    assert_eq!(&vb[0..4], &0x0403_0201u32.to_ne_bytes());
    assert_eq!(&vb[20..24], &9u32.to_ne_bytes());
    assert_eq!(g.index_bytes(), [1u32.to_ne_bytes(), 0u32.to_ne_bytes()].concat());
}

#[test]
fn empty_geometry_is_accepted() {
    let g = Geometry::new_line(&[], &[]).unwrap();
    assert_eq!(g.num_indices(), 0);
    assert!(g.vertex_bytes().is_empty());
}

#[test]
fn buffer_bytes_have_exact_sizes() {
    let vs = vertices(4);
    let g = Geometry::new_mesh(&vs, &[0, 1, 2, 0, 2, 3]).unwrap();
    let vb = g.vertex_bytes();
    assert_eq!(vb.len(), 96);
    assert_eq!(g.index_bytes().len(), 24);
    let first = u32::from_ne_bytes([vb[0], vb[1], vb[2], vb[3]]);
    assert_eq!(first, 0.0f32.to_bits());
    let color = u32::from_ne_bytes([vb[12], vb[13], vb[14], vb[15]]);
    assert_eq!(color, 0.5f32.to_bits());
    let second_x = u32::from_ne_bytes([vb[24], vb[25], vb[26], vb[27]]);
    assert_eq!(second_x, 1.0f32.to_bits());
    let ib = g.index_bytes();
    assert_eq!(u32::from_ne_bytes([ib[8], ib[9], ib[10], ib[11]]), 2);
}

#[test]
fn pentagon_fans_from_first_vertex() {
    let p = Polygon::new(vertices(5)).unwrap();
    let g = p.draw();
    assert_eq!(g.geometry_type(), GeometryType::Mesh);
    assert_eq!(g.indices(), &[0, 1, 2, 0, 2, 3, 0, 3, 4]);
    assert_eq!(g.vertices().len(), 5);
}

#[test]
fn fan_has_n_minus_two_triangles_in_range() {
    for n in 3..40usize {
        let idx = fan_indices(n);
        assert_eq!(idx.len(), 3 * (n - 2));
        assert!(idx.iter().all(|&i| (i as usize) < n));
    }
    assert_eq!(fan_indices(3), vec![0, 1, 2]);
}

#[test]
fn polygon_needs_three_vertices() {
    assert_eq!(Polygon::new(vertices(2)).err(), Some(GeometryError::TooFewVertices));
    assert_eq!(Polygon::new(vec![]).err(), Some(GeometryError::TooFewVertices));
    assert_eq!(Polygon::new(vertices(3)).unwrap().draw().indices(), &[0, 1, 2]);
}

#[test]
fn grid_of_three_by_two() {
    let idx = grid_indices(3, 2);
    assert_eq!(idx.len(), (3 * 2 - 2) * 6);
    assert_eq!(&idx[0..6], &[0, 3, 1, 0, 2, 3]);
    assert_eq!(&idx[6..12], &[1, 4, 2, 1, 3, 4]);
    assert_eq!(&idx[12..18], &[2, 5, 3, 2, 4, 5]);
    assert_eq!(&idx[18..24], &[3, 5, 4, 3, 5, 5]);
}

#[test]
fn surface_has_grid_counts() {
    for (l1, l2) in [(2usize, 2usize), (3, 4), (21, 11)] {
        let s = ParametricSurface::new(vertices(l1 * l2), l1, l2).unwrap();
        let g = s.draw();
        assert_eq!(g.geometry_type(), GeometryType::Mesh);
        assert_eq!(g.vertices().len(), l1 * l2);
        assert_eq!(g.num_indices() as usize, (l1 * l2 - l2) * 2 * 3);
        assert!(g.indices().iter().all(|&i| (i as usize) < l1 * l2));
        let n = g.indices().len();
        assert_eq!(g.indices()[n - 5], (l1 * l2 - 1) as u32);
    }
}

#[test]
fn degenerate_grids_are_refused() {
    assert_eq!(ParametricSurface::new(vertices(3), 1, 3).err(), Some(GeometryError::DegenerateGrid));
    assert_eq!(ParametricSurface::new(vertices(3), 3, 1).err(), Some(GeometryError::DegenerateGrid));
    assert_eq!(
        ParametricSurface::new(vertices(5), 2, 3).err(),
        Some(GeometryError::SampleCountMismatch)
    );
}

#[test]
fn polyline_pushes_extend_the_strip() {
    let mut line = PolyLine::new(vertices(3)).unwrap();
    assert_eq!(line.len(), 3);
    assert_eq!(line.draw().indices(), &[0, 1, 1, 2]);
    for k in 1..=4usize {
        line.push(vtx(10.0, k as f32));
        assert_eq!(line.len(), 3 + k);
        let g = line.draw();
        assert_eq!(g.indices().len(), 2 * (3 + k - 1));
        for (s, pair) in g.indices().chunks(2).enumerate() {
            assert_eq!(pair, &[s as u32, s as u32 + 1]);
        }
    }
    assert_eq!(line.draw().geometry_type(), GeometryType::Line);
}

#[test]
fn polyline_from_nothing() {
    let mut line = PolyLine::new(vec![]).unwrap();
    assert_eq!(line.len(), 0);
    assert!(line.draw().indices().is_empty());
    line.push(vtx(0.0, 0.0));
    assert!(line.draw().indices().is_empty());
    line.push(vtx(1.0, 0.0));
    assert_eq!(line.draw().indices(), &[0, 1]);
}

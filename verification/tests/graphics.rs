use paddle::geometry::{Circle, Fixed, Line, Rectangle, Transform, Triangle, Vector};
use paddle::graphics::abstract_mesh::AbstractMesh;
use paddle::graphics::image::{Image, ImageError, PixelFormat};
use paddle::graphics::stacking::sort_by_z;
use paddle::graphics::tessellation::{circle_point_list, Tessellate, CIRCLE_X, CIRCLE_Y};
use paddle::graphics::texture_config::TextureConfig;
use paddle::graphics::{AbstractTriangle, AbstractVertex, Background, Color};

fn fx(raw: i64) -> Fixed {
    Fixed::from_raw(raw)
}

fn v(x: i64, y: i64) -> Vector {
    Vector::from_ints(x, y)
}

fn red() -> Background {
    Background::Col(Color::rgb(255, 0, 0))
}

fn positions(mesh: &AbstractMesh) -> Vec<Vector> {
    (0..mesh.vertex_count()).map(|i| mesh.vertex(i).pos).collect()
}

fn indices(mesh: &AbstractMesh) -> Vec<(usize, usize, usize)> {
    (0..mesh.triangle_count()).map(|i| mesh.triangle(i).indices).collect()
}

#[test]
fn color_constructors() {
    assert_eq!(Color::rgba(1, 2, 3, 4), Color { r: 1, g: 2, b: 3, a: 4 });
    assert_eq!(Color::rgb(1, 2, 3), Color { r: 1, g: 2, b: 3, a: 255 });
    assert_eq!(Color::white(), Color { r: 255, g: 255, b: 255, a: 255 });
}

#[test]
fn background_of_a_colour() {
    let bkg = red();
    assert_eq!(bkg.color(), Color::rgb(255, 0, 0));
    assert!(bkg.image().is_none());
    assert_eq!(bkg.texture_transform(), Transform::identity());
}

#[test]
fn background_of_an_image() {
    let image = Image::new(9, 256, 128, Rectangle::new(v(64, 32), v(128, 64)));
    let bkg = Background::Img(image);
    assert_eq!(bkg.color(), Color::white());
    assert_eq!(bkg.image(), Some(image));
    let t = bkg.texture_transform();
    assert_eq!(t.apply(v(0, 0)), Vector::new(fx(250_000), fx(250_000)));
    assert_eq!(t.apply(v(1, 1)), Vector::new(fx(750_000), fx(750_000)));
    assert_eq!(t.apply(v(1, 0)), Vector::new(fx(750_000), fx(250_000)));
}

#[test]
fn image_area_and_subimage() {
    let image = Image::new(9, 256, 128, Rectangle::new(v(64, 32), v(128, 64)));
    assert_eq!(image.area(), Rectangle::new(v(64, 32), v(128, 64)));
    let sub = image.subimage(Rectangle::new(v(10, 5), v(20, 10)));
    assert_eq!(sub.area(), Rectangle::new(v(74, 37), v(20, 10)));
    assert_eq!(sub.source, 9);
    assert_eq!(sub.source_width, 256);
    assert_eq!(sub.source_height, 128);
}

#[test]
fn image_projection_maps_a_region_onto_the_image() {
    let image = Image::new(9, 256, 128, Rectangle::new(v(64, 32), v(128, 64)));
    let t = image.projection(Rectangle::new(v(10, 10), v(20, 20)));
    assert_eq!((t.xx.raw, t.xy.raw, t.tx.raw), (25_000, 0, 0));
    assert_eq!((t.yx.raw, t.yy.raw, t.ty.raw), (0, 25_000, 0));
    assert_eq!(t.apply(v(10, 10)), Vector::new(fx(250_000), fx(250_000)));
    assert_eq!(t.apply(v(30, 30)), Vector::new(fx(750_000), fx(750_000)));
}

#[test]
fn images_are_equal_if_texture_and_region_are() {
    let region = Rectangle::new(v(0, 0), v(8, 8));
    let a = Image::new(1, 16, 16, region);
    let b = Image::new(1, 16, 16, region);
    let other_texture = Image::new(2, 16, 16, region);
    let other_region = a.subimage(Rectangle::new(v(1, 1), v(2, 2)));
    assert!(a == b);
    assert!(a != other_texture);
    assert!(a != other_region);
}

#[test]
fn image_error_wraps_an_io_error() {
    let err = std::io::Error::new(std::io::ErrorKind::NotFound, "no such image");
    let wrapped = ImageError::from(err);
    match wrapped {
        ImageError::IOError(inner) => assert_eq!(inner.kind(), std::io::ErrorKind::NotFound),
    }
}

#[test]
fn texture_config_builders() {
    let config = TextureConfig::default();
    assert!(config.filter);
    assert_eq!(config.format, PixelFormat::RGB);
    let config = config.without_filter().with_rgba();
    assert!(!config.filter);
    assert_eq!(config.format, PixelFormat::RGBA);
}

#[test]
fn rectangle_yields_four_vertices_and_two_triangles() {
    let mut mesh = AbstractMesh::new();
    Rectangle::new(v(100, 50), v(1, 1)).tessellate(&mut mesh, red());
    assert_eq!(mesh.vertex_count(), 4);
    assert_eq!(mesh.triangle_count(), 2);
    assert_eq!(positions(&mesh), vec![v(100, 50), v(101, 50), v(101, 51), v(100, 51)]);
    assert_eq!(indices(&mesh), vec![(0, 1, 2), (2, 3, 0)]);
    for i in 0..2 {
        assert_eq!(mesh.triangle(i).z, 0);
    }
    let unit = [v(0, 0), v(1, 0), v(1, 1), v(0, 1)];
    for i in 0..4 {
        assert_eq!(mesh.vertex(i).tex_pos, unit[i]);
        assert_eq!(mesh.vertex(i).col, Color::rgb(255, 0, 0));
    }
}

#[test]
fn rectangle_of_odd_size_keeps_its_corners() {
    let mut mesh = AbstractMesh::new();
    let rect = Rectangle::new(Vector::new(fx(3), fx(-7)), Vector::new(fx(5), fx(9)));
    rect.tessellate(&mut mesh, red());
    assert_eq!(
        positions(&mesh),
        vec![
            Vector::new(fx(3), fx(-7)),
            Vector::new(fx(8), fx(-7)),
            Vector::new(fx(8), fx(2)),
            Vector::new(fx(3), fx(2)),
        ]
    );
}

#[test]
fn unit_square_triangles_cover_an_area_of_one() {
    let mut mesh = AbstractMesh::new();
    Rectangle::new(v(0, 0), v(1, 1)).tessellate(&mut mesh, red());
    let mut doubled: i128 = 0;
    for i in 0..mesh.triangle_count() {
        let t = mesh.triangle(i).indices;
        let (a, b, c) = (mesh.vertex(t.0).tex_pos, mesh.vertex(t.1).tex_pos, mesh.vertex(t.2).tex_pos);
        let cross = (b.x.raw - a.x.raw) as i128 * (c.y.raw - a.y.raw) as i128
            - (c.x.raw - a.x.raw) as i128 * (b.y.raw - a.y.raw) as i128;
        doubled += cross.abs();
    }
    assert_eq!(doubled, 2 * 1_000_000 * 1_000_000);
}

#[test]
fn rectangle_with_an_image_gets_texture_coordinates() {
    let image = Image::new(9, 256, 128, Rectangle::new(v(64, 32), v(128, 64)));
    let mut mesh = AbstractMesh::new();
    Rectangle::new(v(0, 0), v(10, 10)).tessellate(&mut mesh, Background::Img(image));
    assert_eq!(mesh.vertex(0).tex_pos, Vector::new(fx(250_000), fx(250_000)));
    assert_eq!(mesh.vertex(2).tex_pos, Vector::new(fx(750_000), fx(750_000)));
    assert_eq!(mesh.vertex(2).pos, v(10, 10));
    assert_eq!(mesh.vertex(0).col, Color::white());
    assert_eq!(mesh.triangle(0).paint.image(), Some(image));
}

#[test]
fn second_shape_refers_to_its_own_vertices() {
    let mut mesh = AbstractMesh::new();
    Rectangle::new(v(0, 0), v(1, 1)).tessellate(&mut mesh, red());
    Triangle::new(v(0, 0), v(4, 0), v(0, 4)).tessellate(&mut mesh, red());
    assert_eq!(mesh.vertex_count(), 7);
    assert_eq!(indices(&mesh), vec![(0, 1, 2), (2, 3, 0), (4, 5, 6)]);
}

#[test]
fn circle_table_has_64_points_on_the_unit_circle() {
    let points = circle_point_list();
    assert_eq!(points.len(), 64);
    assert_eq!(points[0], v(1, 0));
    assert_eq!(points[63], v(1, 0));
    assert_eq!(points[21], Vector::new(fx(-500_000), fx(866_025)));
    for i in 0..64 {
        assert_eq!(points[i].x.raw, CIRCLE_X[i]);
        assert_eq!(points[i].y.raw, CIRCLE_Y[i]);
        let n = (CIRCLE_X[i] as i128).pow(2) + (CIRCLE_Y[i] as i128).pow(2);
        assert!((n - 1_000_000_000_000).abs() < 2_000_000, "point {} is off the circle", i);
    }
}

#[test]
fn circle_yields_64_triangles_whatever_its_radius() {
    for radius in [0, 1, 2, 1000] {
        let mut mesh = AbstractMesh::new();
        Circle::new(v(10, 10), Fixed::from_int(radius)).tessellate(&mut mesh, red());
        assert_eq!(mesh.vertex_count(), 64);
        assert_eq!(mesh.triangle_count(), 64);
    }
}

#[test]
fn circle_is_a_fan_around_its_first_point() {
    let mut mesh = AbstractMesh::new();
    Rectangle::new(v(0, 0), v(1, 1)).tessellate(&mut mesh, red());
    Circle::new(v(10, 10), Fixed::from_int(2)).tessellate(&mut mesh, red());
    assert_eq!(mesh.vertex(4).pos, v(12, 10));
    assert_eq!(mesh.vertex(4 + 21).pos, Vector::new(fx(9_000_000), fx(11_732_050)));
    assert_eq!(mesh.triangle(2).indices, (4, 4, 5));
    assert_eq!(mesh.triangle(2 + 17).indices, (4, 4 + 17, 4 + 18));
    assert_eq!(mesh.triangle(2 + 63).indices, (4, 4 + 63, 4));
    for i in 0..mesh.triangle_count() {
        let t = mesh.triangle(i).indices;
        assert!(t.0 < mesh.vertex_count() && t.1 < mesh.vertex_count() && t.2 < mesh.vertex_count());
    }
}

#[test]
fn scaling_the_radius_scales_the_offsets() {
    let center = v(10, -10);
    let mut small = AbstractMesh::new();
    let mut large = AbstractMesh::new();
    Circle::new(center, Fixed::from_int(1)).tessellate(&mut small, red());
    Circle::new(center, Fixed::from_int(3)).tessellate(&mut large, red());
    for i in 0..64 {
        let a = small.vertex(i).pos.minus(center);
        let b = large.vertex(i).pos.minus(center);
        assert_eq!(b.x.raw, 3 * a.x.raw);
        assert_eq!(b.y.raw, 3 * a.y.raw);
    }
}

#[test]
fn scaling_a_fractional_radius_scales_the_offsets_within_rounding() {
    let center = v(0, 0);
    let k = 7;
    let mut small = AbstractMesh::new();
    let mut large = AbstractMesh::new();
    Circle::new(center, fx(1_234_567)).tessellate(&mut small, red());
    Circle::new(center, fx(k * 1_234_567)).tessellate(&mut large, red());
    for i in 0..64 {
        let a = small.vertex(i).pos;
        let b = large.vertex(i).pos;
        assert!(k * a.x.raw <= b.x.raw && b.x.raw <= k * a.x.raw + k - 1);
        assert!(k * a.y.raw <= b.y.raw && b.y.raw <= k * a.y.raw + k - 1);
    }
}

#[test]
fn triangle_yields_its_corners() {
    let mut mesh = AbstractMesh::new();
    Triangle::new(v(1, 1), v(5, 1), v(1, 4)).tessellate(&mut mesh, red());
    assert_eq!(positions(&mesh), vec![v(1, 1), v(5, 1), v(1, 4)]);
    assert_eq!(indices(&mesh), vec![(0, 1, 2)]);
}

#[test]
fn line_is_an_unrotated_rectangle() {
    let mut mesh = AbstractMesh::new();
    Line::new(v(0, 0), v(3, 4)).with_thickness(Fixed::from_int(2)).tessellate(&mut mesh, red());
    assert_eq!(positions(&mesh), vec![v(0, 1), v(5, 1), v(5, 3), v(0, 3)]);
    assert_eq!(indices(&mesh), vec![(0, 1, 2), (2, 3, 0)]);
}

#[test]
fn vector_is_a_unit_square_at_its_position() {
    let mut mesh = AbstractMesh::new();
    v(7, 8).tessellate(&mut mesh, red());
    assert_eq!(positions(&mesh), vec![v(7, 8), v(8, 8), v(8, 9), v(7, 9)]);
}

#[test]
fn offsets_are_the_sums_of_the_earlier_batches() {
    let mut mesh = AbstractMesh::new();
    let sizes = [3usize, 1, 5, 2];
    let mut expected = 0;
    let mut last: Option<usize> = None;
    for size in sizes {
        let points: Vec<Vector> = (0..size).map(|i| v(i as i64, 0)).collect();
        let offset = mesh.add_positioned_vertices(
            &points,
            Transform::identity(),
            Transform::identity(),
            red(),
        );
        assert_eq!(offset, expected);
        if let Some(previous) = last {
            assert!(previous < offset);
        }
        last = Some(offset);
        expected += size;
    }
    assert_eq!(mesh.vertex_count(), 11);
}

#[test]
fn empty_batch_repeats_the_offset() {
    let mut mesh = AbstractMesh::new();
    let first = mesh.add_positioned_vertices(&vec![v(0, 0)], Transform::identity(), Transform::identity(), red());
    let second = mesh.add_positioned_vertices(&vec![], Transform::identity(), Transform::identity(), red());
    let third = mesh.add_positioned_vertices(&vec![v(1, 1)], Transform::identity(), Transform::identity(), red());
    assert_eq!((first, second, third), (0, 1, 1));
}

#[test]
fn added_vertices_are_positioned_textured_and_tinted() {
    let mut mesh = AbstractMesh::new();
    mesh.add_positioned_vertices(
        &vec![v(1, 2)],
        Transform::translate(v(10, 20)),
        Transform::scale(Vector::new(fx(500_000), fx(250_000))),
        red(),
    );
    let vertex = mesh.vertex(0);
    assert_eq!(vertex.pos, v(11, 22));
    assert_eq!(vertex.tex_pos, Vector::new(fx(500_000), fx(500_000)));
    assert_eq!(vertex.col, Color::rgb(255, 0, 0));
    let same = AbstractVertex::new(
        v(1, 2),
        Transform::translate(v(10, 20)),
        Transform::scale(Vector::new(fx(500_000), fx(250_000))),
        red(),
    );
    assert_eq!(same.pos, vertex.pos);
    assert_eq!(same.moved(Transform::translate(v(1, 1))).pos, v(12, 23));
}

#[test]
fn pushed_triangle_is_relative_to_its_offset() {
    let mut mesh = AbstractMesh::new();
    let points = vec![v(0, 0), v(1, 0), v(0, 1)];
    mesh.add_positioned_vertices(&points, Transform::identity(), Transform::identity(), red());
    let offset = mesh.add_positioned_vertices(&points, Transform::identity(), Transform::identity(), red());
    mesh.push_triangle(offset, (2, 1, 0), red());
    assert_eq!(mesh.triangle(0).indices, (5, 4, 3));
    assert_eq!(mesh.triangle(0).z, 0);
    assert_eq!(AbstractTriangle::new(3, (2, 1, 0), red()).indices, (5, 4, 3));
}

#[test]
fn merge_places_and_stacks_the_other_mesh() {
    let mut target = AbstractMesh::new();
    Rectangle::new(v(0, 0), v(1, 1)).tessellate(&mut target, red());
    let mut other = AbstractMesh::new();
    Triangle::new(v(0, 0), v(1, 0), v(0, 1)).tessellate(&mut other, red());
    target.merge(&other, Transform::translate(v(10, 10)), 7);
    assert_eq!(target.vertex_count(), 7);
    assert_eq!(target.vertex(4).pos, v(10, 10));
    assert_eq!(target.vertex(5).pos, v(11, 10));
    assert_eq!(target.triangle(2).indices, (4, 5, 6));
    assert_eq!(target.triangle(2).z, 7);
    assert_eq!(target.triangle(0).z, 0);
    assert_eq!(other.vertex_count(), 3);
}

#[test]
fn clear_empties_the_mesh() {
    let mut mesh = AbstractMesh::new();
    Rectangle::new(v(0, 0), v(1, 1)).tessellate(&mut mesh, red());
    mesh.clear();
    assert_eq!(mesh.vertex_count(), 0);
    assert_eq!(mesh.triangle_count(), 0);
}

fn keyed(z: i16, tag: usize) -> AbstractTriangle {
    AbstractTriangle { indices: (tag, tag, tag), z, paint: red() }
}

#[test]
fn sorting_by_z_is_stable() {
    let input = vec![keyed(5, 0), keyed(0, 1), keyed(5, 2), keyed(-1, 3), keyed(0, 4), keyed(5, 5)];
    let out = sort_by_z(&input);
    let order: Vec<(i16, usize)> = out.iter().map(|t| (t.z, t.indices.0)).collect();
    assert_eq!(order, vec![(-1, 3), (0, 1), (0, 4), (5, 0), (5, 2), (5, 5)]);
}

#[test]
fn sorting_nothing_or_sorted_input_changes_nothing() {
    assert_eq!(sort_by_z(&vec![]).len(), 0);
    let input = vec![keyed(i16::MIN, 0), keyed(0, 1), keyed(i16::MAX, 2)];
    let order: Vec<usize> = sort_by_z(&input).iter().map(|t| t.indices.0).collect();
    assert_eq!(order, vec![0, 1, 2]);
}

#[test]
fn take_sorted_moves_the_mesh() {
    let mut source = AbstractMesh::new();
    Rectangle::new(v(0, 0), v(1, 1)).tessellate(&mut source, red());
    let mut target = AbstractMesh::new();
    target.take_sorted(&mut source);
    assert_eq!(source.vertex_count(), 0);
    assert_eq!(source.triangle_count(), 0);
    assert_eq!(target.vertex_count(), 4);
    assert_eq!(target.triangle_count(), 2);
}

#[test]
fn truncate_keeps_a_well_formed_prefix() {
    let mut mesh = AbstractMesh::new();
    Rectangle::new(v(0, 0), v(1, 1)).tessellate(&mut mesh, red());
    Triangle::new(v(0, 0), v(4, 0), v(0, 4)).tessellate(&mut mesh, red());
    assert!(!mesh.truncate(8, 3));
    assert!(!mesh.truncate(7, 4));
    assert!(!mesh.truncate(4, 3));
    assert_eq!(mesh.vertex_count(), 7);
    assert!(mesh.truncate(7, 2));
    assert_eq!((mesh.vertex_count(), mesh.triangle_count()), (7, 2));
    assert!(mesh.truncate(4, 2));
    assert_eq!((mesh.vertex_count(), mesh.triangle_count()), (4, 2));
    assert!(mesh.truncate(0, 0));
    assert_eq!((mesh.vertex_count(), mesh.triangle_count()), (0, 0));
}

use geo::{ClosestPoint, LineString, Point, Polygon};
use geo_proximity::distance::{
    closest_boundary_point, first_max_index, pairwise_distance_matrix, rank_by_key, Closest, DistanceError,
    DistanceMethod,
};

#[test]
fn first_of_equal_largest_keys_wins() {
    assert_eq!(first_max_index(&vec![3, 9, 2, 9, 1]), Ok(1));
    assert_eq!(first_max_index(&vec![5, 5, 5]), Ok(0));
}

#[test]
fn largest_key_anywhere_is_found() {
    assert_eq!(first_max_index(&vec![1, 2, 3, 4]), Ok(3));
    assert_eq!(first_max_index(&vec![u64::MAX, 0]), Ok(0));
    assert_eq!(first_max_index(&vec![42]), Ok(0));
}

#[test]
fn no_keys_is_an_empty_geometry() {
    assert_eq!(first_max_index(&Vec::new()), Err(DistanceError::EmptyGeometry));
}

#[test]
fn bit_patterns_of_non_negative_distances_order_as_the_distances() {
    let dists = [100389.46826751382_f64, 100529.92635399895, 0.0, 100529.92635399895];
    let keys: Vec<u64> = dists.iter().map(|d| d.to_bits()).collect();
    assert_eq!(first_max_index(&keys), Ok(1));
}

#[test]
fn matrix_pairs_every_source_with_every_target_source_major() {
    let sources = vec!["north".to_string(), "south".to_string()];
    let targets = vec!["a".to_string(), "b".to_string(), "c".to_string()];
    let m = pairwise_distance_matrix(&sources, &targets, |i, j| (i * 10 + j) as f64);
    assert_eq!(m.len(), 6);
    let got: Vec<(String, String, f64)> =
        m.into_iter().map(|t| (t.source, t.target, t.distance)).collect();
    assert_eq!(
        got,
        vec![
            ("north".to_string(), "a".to_string(), 0.0),
            ("north".to_string(), "b".to_string(), 1.0),
            ("north".to_string(), "c".to_string(), 2.0),
            ("south".to_string(), "a".to_string(), 10.0),
            ("south".to_string(), "b".to_string(), 11.0),
            ("south".to_string(), "c".to_string(), 12.0),
        ]
    );
}

#[test]
fn matrix_with_no_targets_is_empty() {
    let sources = vec!["north".to_string()];
    let m = pairwise_distance_matrix(&sources, &Vec::new(), |_, _| 1.0_f64);
    assert!(m.is_empty());
}

#[test]
fn distance_methods_are_distinct() {
    assert_ne!(DistanceMethod::Haversine, DistanceMethod::Geodesic);
    let m = DistanceMethod::Geodesic;
    assert_eq!(m, m.clone());
}

#[test]
fn closest_point_of_degenerate_triangle_is_its_first_vertex() {
    let point = Point::new(325113.4269645748, 673695.0127932389);
    let polygon = Polygon::new(
        LineString::from(vec![
            (325113.5269645548, 673695.0227932289),
            (325113.5269645948, 673695.0227932489),
            (325113.5269646148, 673695.0227932689),
            (325113.5269645548, 673695.0227932289),
        ]),
        vec![],
    );
    let found = match polygon.closest_point(&point) {
        geo::Closest::Intersection(p) => Closest::Intersection(p),
        geo::Closest::SinglePoint(p) => Closest::SinglePoint(p),
        geo::Closest::Indeterminate => Closest::Indeterminate,
    };
    assert_eq!(
        closest_boundary_point(polygon.exterior().0.len(), found),
        Ok(Point::new(325113.5269645548, 673695.0227932289))
    );
}

#[test]
fn closest_point_errors_instead_of_a_sentinel() {
    assert_eq!(closest_boundary_point(0, Closest::SinglePoint((1.0, 2.0))), Err(DistanceError::EmptyGeometry));
    assert_eq!(closest_boundary_point::<(f64, f64)>(4, Closest::Indeterminate), Err(DistanceError::Indeterminate));
    assert_eq!(closest_boundary_point(4, Closest::Intersection((1.0, 2.0))), Ok((1.0, 2.0)));
}

#[test]
fn ranking_is_ascending_and_stable() {
    assert_eq!(rank_by_key(&vec![30, 10, 20, 10, 5]), vec![4, 1, 3, 2, 0]);
    assert_eq!(rank_by_key(&vec![7, 7, 7]), vec![0, 1, 2]);
    assert!(rank_by_key(&Vec::new()).is_empty());
}

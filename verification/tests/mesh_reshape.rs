//! Reshaping flat point lists into triangles.

use clgeom::mesh::triangles_from_points;

#[test]
fn reshape_rejects_length_not_multiple_of_three() {
    let points: Vec<[f32; 3]> = vec![[0.0, 0.0, 0.0]; 4];
    let err = triangles_from_points(&points).unwrap_err();
    assert_eq!(err.message, "Buffer length is not a multiple of 3.");
    assert!(err.message.contains("not a multiple of 3"));
}

#[test]
fn reshape_rejects_single_point() {
    let points: Vec<[f32; 3]> = vec![[1.0, 2.0, 3.0]];
    assert!(triangles_from_points(&points).is_err());
}

#[test]
fn reshape_groups_points_in_order() {
    let points: Vec<[f32; 3]> = vec![
        [0.0, 0.1, 0.2],
        [1.0, 1.1, 1.2],
        [2.0, 2.1, 2.2],
        [3.0, 3.1, 3.2],
        [4.0, 4.1, 4.2],
        [5.0, 5.1, 5.2],
    ];
    let triangles = triangles_from_points(&points).unwrap();
    assert_eq!(triangles.len(), 2);
    assert_eq!(triangles[0].0, [0.0, 0.1, 0.2]);
    assert_eq!(triangles[0].1, [1.0, 1.1, 1.2]);
    assert_eq!(triangles[0].2, [2.0, 2.1, 2.2]);
    assert_eq!(triangles[1].0, [3.0, 3.1, 3.2]);
    assert_eq!(triangles[1].1, [4.0, 4.1, 4.2]);
    assert_eq!(triangles[1].2, [5.0, 5.1, 5.2]);
}

#[test]
fn reshape_accepts_empty_list() {
    let points: Vec<[f32; 3]> = vec![];
    let triangles = triangles_from_points(&points).unwrap();
    assert!(triangles.is_empty());
}

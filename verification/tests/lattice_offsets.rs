use raytrace_core::lattice::{offset_lattice, LatticeOffset};

#[test]
fn lattice_point_counts() {
    assert_eq!(offset_lattice(0).len(), 1);
    assert_eq!(offset_lattice(1).len(), 1);
    assert_eq!(offset_lattice(2).len(), 4);
    assert_eq!(offset_lattice(3).len(), 9);
    assert_eq!(offset_lattice(7).len(), 49);
}

#[test]
fn zero_layers_degenerates_to_pixel_center() {
    let offsets = offset_lattice(0);
    assert_eq!(offsets, vec![LatticeOffset { x_num: 1, y_num: 1, denom: 2 }]);
}

#[test]
fn one_layer_is_the_pixel_center() {
    let offsets = offset_lattice(1);
    assert_eq!(offsets, vec![LatticeOffset { x_num: 1, y_num: 1, denom: 2 }]);
}

#[test]
fn two_layers_exact_points() {
    let offsets = offset_lattice(2);
    assert_eq!(
        offsets,
        vec![
            LatticeOffset { x_num: 1, y_num: 1, denom: 4 },
            LatticeOffset { x_num: 3, y_num: 1, denom: 4 },
            LatticeOffset { x_num: 1, y_num: 3, denom: 4 },
            LatticeOffset { x_num: 3, y_num: 3, denom: 4 },
        ]
    );
}

#[test]
fn three_layers_exact_points() {
    let offsets = offset_lattice(3);
    let expected: Vec<LatticeOffset> = vec![
        LatticeOffset { x_num: 1, y_num: 1, denom: 6 },
        LatticeOffset { x_num: 3, y_num: 1, denom: 6 },
        LatticeOffset { x_num: 5, y_num: 1, denom: 6 },
        LatticeOffset { x_num: 1, y_num: 3, denom: 6 },
        LatticeOffset { x_num: 3, y_num: 3, denom: 6 },
        LatticeOffset { x_num: 5, y_num: 3, denom: 6 },
        LatticeOffset { x_num: 1, y_num: 5, denom: 6 },
        LatticeOffset { x_num: 3, y_num: 5, denom: 6 },
        LatticeOffset { x_num: 5, y_num: 5, denom: 6 },
    ];
    assert_eq!(offsets, expected);
}

#[test]
fn all_points_lie_inside_the_footprint() {
    for layers in 0..12usize {
        for offset in offset_lattice(layers) {
            assert!(0 < offset.x_num && offset.x_num < offset.denom);
            assert!(0 < offset.y_num && offset.y_num < offset.denom);
        }
    }
}

#[test]
fn mean_offset_is_the_pixel_center() {
    // Twice the numerator sum equals count times denominator, i.e. the mean
    // of the fractions is exactly one half on each axis.
    for layers in 0..12usize {
        let offsets = offset_lattice(layers);
        let denom = offsets[0].denom;
        let sum_x: usize = offsets.iter().map(|o| o.x_num).sum();
        let sum_y: usize = offsets.iter().map(|o| o.y_num).sum();
        assert_eq!(2 * sum_x, offsets.len() * denom);
        assert_eq!(2 * sum_y, offsets.len() * denom);
    }
}

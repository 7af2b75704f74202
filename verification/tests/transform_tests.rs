use squaremc::geometry::SCALE;
use squaremc::transform::fold_back;

#[test]
fn fold_back_corners_stay_defined() {
    // the four corners of the (u, v) unit square; wherever the folded x
    // reaches an edge of [0, 1], y is exactly zero, so the guarded integrand
    // stays finite
    let c00 = fold_back(0, 0);
    assert_eq!((c00.x2, c00.y2), (0, 0));

    let c10 = fold_back(SCALE, 0);
    assert_eq!((c10.x2, c10.y2), (SCALE, SCALE));

    let c01 = fold_back(0, SCALE);
    assert_eq!((c01.x2, c01.y2), (2 * SCALE, 0));

    let c11 = fold_back(SCALE, SCALE);
    assert_eq!((c11.x2, c11.y2), (2 * SCALE, 0));
}

#[test]
fn fold_back_lower_triangle() {
    // u + v <= 1: (x, y) = (u/2 + v, u/2), here (0.6, 0.2)
    let fp = fold_back(400_000, 400_000);
    assert_eq!(fp.x2, 1_200_000);
    assert_eq!(fp.y2, 400_000);
}

#[test]
fn fold_back_upper_triangle() {
    // u + v > 1: (x, y) = (u/2 + v - 1/2, (1 - u)/2), here (0.7, 0.1)
    let fp = fold_back(800_000, 800_000);
    assert_eq!(fp.x2, 1_400_000);
    assert_eq!(fp.y2, 200_000);
}

#[test]
fn fold_back_edge_carries_zero_y() {
    // x = 0 and x = 1 are reached only with y = 0
    let lo = fold_back(0, 0);
    assert_eq!(lo.x2, 0);
    assert_eq!(lo.y2, 0);
    let hi = fold_back(0, SCALE);
    assert_eq!(hi.x2, 2 * SCALE);
    assert_eq!(hi.y2, 0);
}

#[test]
fn fold_back_stays_in_unit_square() {
    let mut u: i64 = 0;
    while u <= SCALE {
        let mut v: i64 = 0;
        while v <= SCALE {
            let fp = fold_back(u, v);
            assert!(0 <= fp.x2 && fp.x2 <= 2 * SCALE);
            assert!(0 <= fp.y2 && fp.y2 <= 2 * SCALE);
            v += 250_000;
        }
        u += 250_000;
    }
}

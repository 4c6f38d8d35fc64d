use xr_core::proj::{infinite_projection_unreversed, Fov, Rat, XRProjection};

fn fov_45() -> Fov {
    // tangents of {-45, 45, 45, -45} degrees in thousandths
    Fov { tan_left: -1000, tan_right: 1000, tan_up: 1000, tan_down: -1000 }
}

fn rat_value_is(r: &Rat, num: i128, den: i128) -> bool {
    // exact fraction comparison by cross multiplication
    r.num * den == num * r.den
}

#[test]
fn infinite_projection_pre_reversal_depth_row() {
    // near 0.1: before depth reversal m22 == -1 and m23 == -0.1
    let m = infinite_projection_unreversed(&fov_45(), 100);
    assert!(rat_value_is(&m.m22, -1, 1));
    assert!(rat_value_is(&m.m23, -1, 10));
    assert_eq!(m.m23.num, -100);
    assert_eq!(m.m23.den, 1000);
}

#[test]
fn infinite_projection_upper_rows_symmetric() {
    // symmetric 45-degree spans: scale 1, no skew
    let m = infinite_projection_unreversed(&fov_45(), 100);
    assert!(rat_value_is(&m.m00, 1, 1));
    assert!(rat_value_is(&m.m11, 1, 1));
    assert!(rat_value_is(&m.m02, 0, 1));
    assert!(rat_value_is(&m.m12, 0, 1));
    assert!(rat_value_is(&m.m32, -1, 1));
}

#[test]
fn reversed_infinite_projection_depth_row() {
    // far at or below near requests the infinite far plane; after depth
    // reversal: m22 == 0 and m23 == near
    let p = XRProjection::new(100, -1000, fov_45());
    let m = p.get_projection_matrix();
    assert!(rat_value_is(&m.m22, 0, 1));
    assert!(rat_value_is(&m.m23, 1, 10));
    assert!(rat_value_is(&m.m32, -1, 1));
    assert!(rat_value_is(&m.m33, 0, 1));
    assert!(rat_value_is(&m.m00, 1, 1));
}

#[test]
fn frustum_corners_order_and_scaling() {
    // near 1 and far 10 with symmetric 45-degree spans: near-plane points
    // scaled by 1, far-plane by 10, in bottom-right, top-right, top-left,
    // bottom-left order
    let p = XRProjection::new(1000, 10_000, fov_45());
    let c = p.get_frustum_corners(1000, 10_000);
    assert_eq!(c.len(), 8);
    let signs: [(i128, i128); 4] = [(1, -1), (1, 1), (-1, 1), (-1, -1)];
    for (i, (sx, sy)) in signs.iter().copied().enumerate() {
        // near plane: coordinates (+-1, +-1, 1)
        assert!(rat_value_is(&c[i].x, sx, 1));
        assert!(rat_value_is(&c[i].y, sy, 1));
        assert!(rat_value_is(&c[i].z, 1, 1));
        // far plane: coordinates (+-10, +-10, 10)
        assert!(rat_value_is(&c[i + 4].x, 10 * sx, 1));
        assert!(rat_value_is(&c[i + 4].y, 10 * sy, 1));
        assert!(rat_value_is(&c[i + 4].z, 10, 1));
    }
}

#[test]
fn finite_projection_depth_row() {
    // far above near: the standard finite off-axis form for a [0,1] depth
    // convention, m22 == -far/(far-near) and m23 == -(far*near)/(far-near)
    let p = XRProjection::new(100, 1_000_000, fov_45());
    let m = p.get_projection_matrix();
    // near 0.1, far 1000: m22 == -1000/999.9, m23 == -100/999.9
    assert!(rat_value_is(&m.m22, -1_000_000, 999_900));
    assert!(rat_value_is(&m.m23, -100_000_000, 999_900_000));
    assert!(rat_value_is(&m.m32, -1, 1));
    assert!(rat_value_is(&m.m33, 0, 1));
    assert!(rat_value_is(&m.m00, 1, 1));
}

#[test]
fn infinite_sentinel_at_boundary() {
    // far exactly equal to near is still the infinite-far sentinel
    let p = XRProjection::new(100, 100, fov_45());
    let m = p.get_projection_matrix();
    assert!(rat_value_is(&m.m22, 0, 1));
    assert!(rat_value_is(&m.m23, 1, 10));
}

#[test]
fn far_accessor_and_update_noop() {
    let mut p = XRProjection::new(100, 55_000, fov_45());
    assert_eq!(p.far(), 55_000);
    p.update(1920, 1080);
    assert_eq!(p.far(), 55_000);
    assert_eq!(p.near, 100);
}

#[test]
fn default_projection_clip_planes() {
    let p = XRProjection::default();
    assert_eq!(p.near, 100);
    assert_eq!(p.far, 1_000_000);
}

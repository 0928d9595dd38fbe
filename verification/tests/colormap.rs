use particles::colormap::create_linear_colormap;
use particles::colormap::ColorMap;
use particles::colormap::StdColors;
use particles::colors::RGBAColor;

fn rgb(r: u8, g: u8, b: u8) -> RGBAColor {
    RGBAColor::new(r, g, b)
}

#[test]
fn colors_are_opaque() {
    assert_eq!(rgb(1, 2, 3), RGBAColor { r: 1, g: 2, b: 3, a: 255 });
    assert_eq!(RGBAColor::from(StdColors::ORANGE), rgb(255, 128, 0));
    assert_eq!(RGBAColor::new_with_alpha(1, 2, 3, 4).a, 4);
}

#[test]
fn linear_ramp_hits_both_ends() {
    let map = ColorMap::create_linear(rgb(0, 0, 128), rgb(0, 255, 255), 128);
    assert_eq!(map.len(), 128);
    assert_eq!(map[0], rgb(0, 0, 128));
    assert_eq!(map[127], rgb(0, 255, 255));
    assert_eq!(map[1], rgb(0, 2, 129));
    assert_eq!(map[64], rgb(0, 128, 192));
}

#[test]
fn linear_ramp_can_fall() {
    let map = create_linear_colormap(rgb(255, 10, 0), rgb(0, 10, 3), 4);
    assert_eq!(
        map,
        vec![rgb(255, 10, 0), rgb(170, 10, 1), rgb(85, 10, 2), rgb(0, 10, 3)]
    );
}

#[test]
fn short_ramps_hold_the_start_alone() {
    let start = RGBAColor::new_with_alpha(9, 8, 7, 6);
    assert_eq!(ColorMap::create_linear(start, rgb(1, 1, 1), 0), vec![start]);
    assert_eq!(ColorMap::create_linear(start, rgb(1, 1, 1), 1), vec![start]);
    assert_eq!(
        ColorMap::create_linear(start, rgb(1, 1, 1), 2),
        vec![rgb(9, 8, 7), rgb(1, 1, 1)]
    );
}

#[test]
fn two_ramp_palettes() {
    let p = ColorMap::pf1();
    assert_eq!(p.len(), 256);
    assert_eq!(p[0], rgb(0, 0, 0));
    assert_eq!(p[1], rgb(0, 0, 128));
    assert_eq!(p[127], rgb(0, 252, 254));
    assert_eq!(p[128], rgb(0, 255, 255));
    assert_eq!(p[255], rgb(0, 128, 0));
    let p = ColorMap::pf2();
    assert_eq!(p.len(), 256);
    assert_eq!(p[0], rgb(0, 0, 0));
    assert_eq!(p[1], rgb(128, 0, 0));
    assert_eq!(p[128], rgb(0, 0, 128));
    assert_eq!(p[255], rgb(0, 255, 255));
    let p = ColorMap::pf3();
    assert_eq!(p.len(), 256);
    assert_eq!(p[0], rgb(0, 0, 0));
    assert_eq!(p[1], rgb(0, 255, 255));
    assert_eq!(p[255], rgb(0, 0, 128));
}

#[test]
fn grid_palettes() {
    let p = ColorMap::pf4();
    assert_eq!(p.len(), 256);
    assert_eq!(p[0], rgb(0, 0, 0));
    assert_eq!(p[16], rgb(0, 0, 0));
    assert_eq!(p[17], rgb(255, 255, 0));
    assert_eq!(p[18], rgb(243, 255, 0));
    assert_eq!(p[31], rgb(87, 255, 0));
    assert_eq!(p[32], rgb(0, 0, 0));
    assert_eq!(p[33], rgb(255, 239, 0));
    assert_eq!(p[255], rgb(87, 31, 0));
    let q = ColorMap::pf5();
    assert_eq!(q.len(), 256);
    for i in 0..256 {
        assert_eq!((q[i].b, q[i].g, q[i].r), (p[i].r, p[i].g, 0));
    }
}

#[test]
fn quadrant_palette() {
    let p = ColorMap::pf6();
    assert_eq!(p.len(), 256);
    assert_eq!(p[0], rgb(0, 0, 0));
    assert_eq!(p[1], rgb(0, 2, 129));
    assert_eq!(p[127], rgb(0, 254, 255));
    assert_eq!(p[128], rgb(0, 255, 255));
    assert_eq!(p[129], rgb(3, 253, 253));
    assert_eq!(p[255], rgb(255, 1, 1));
}

#[test]
fn striped_palette() {
    let p = ColorMap::pf7();
    assert_eq!(p.len(), 256);
    assert_eq!(p[0], rgb(0, 0, 0));
    assert_eq!(p[1], rgb(0, 0, 128));
    assert_eq!(p[2], rgb(255, 255, 0));
    assert_eq!(p[255], rgb(0, 0, 128));
}

#[test]
fn band_palette() {
    let p = ColorMap::pf8();
    assert_eq!(p.len(), 256);
    assert_eq!(p[0], rgb(0, 0, 0));
    assert_eq!(p[64], rgb(255, 255, 255));
    for block in 0..4 {
        let at = |r: usize| p[64 * block + r];
        assert_eq!(at(1), rgb(128, 0, 0));
        assert_eq!(at(3), rgb(128, 0, 0));
        assert_eq!(at(4), rgb(192, 0, 0));
        assert_eq!(at(18), rgb(255, 192, 192));
        assert_eq!(at(19), rgb(255, 255, 255));
        assert_eq!(at(32), rgb(255, 255, 255));
        assert_eq!(at(33), rgb(128, 64, 0));
        assert_eq!(at(42), rgb(255, 160, 64));
        assert_eq!(at(43), rgb(255, 160, 64));
        assert_eq!(at(44), rgb(255, 160, 64));
        assert_eq!(at(45), rgb(255, 192, 128));
        assert_eq!(at(46), rgb(255, 192, 128));
        assert_eq!(at(47), rgb(255, 224, 192));
        assert_eq!(at(49), rgb(255, 224, 192));
        assert_eq!(at(50), rgb(255, 255, 255));
        assert_eq!(at(63), rgb(255, 255, 255));
    }
}

//! Named colors and palettes of 256 colors.

use crate::colors::RGBAColor;
use vstd::prelude::*;

verus! {

/// Names for common colors, as red, green and blue.
pub struct StdColors {}

impl StdColors {
    pub const RED: (u8, u8, u8) = (255, 0, 0);

    pub const BLUE: (u8, u8, u8) = (0, 0, 255);

    pub const GREEN: (u8, u8, u8) = (0, 255, 0);

    pub const CYAN: (u8, u8, u8) = (0, 255, 255);

    pub const YELLOW: (u8, u8, u8) = (255, 255, 0);

    pub const MAGENTA: (u8, u8, u8) = (255, 0, 255);

    pub const WHITE: (u8, u8, u8) = (255, 255, 255);

    pub const BLACK: (u8, u8, u8) = (0, 0, 0);

    pub const ORANGE: (u8, u8, u8) = (255, 128, 0);

    pub const DK_RED: (u8, u8, u8) = (128, 0, 0);

    pub const DK_BLUE: (u8, u8, u8) = (0, 0, 128);

    pub const DK_GREEN: (u8, u8, u8) = (0, 128, 0);

    pub const DK_CYAN: (u8, u8, u8) = (0, 128, 128);

    pub const DK_YELLOW: (u8, u8, u8) = (128, 128, 0);

    pub const DK_MAGENTA: (u8, u8, u8) = (128, 0, 128);

    pub const DK_GREY: (u8, u8, u8) = (128, 128, 128);

    pub const DK_ORANGE: (u8, u8, u8) = (128, 64, 0);

    pub const VDK_RED: (u8, u8, u8) = (64, 0, 0);

    pub const VDK_BLUE: (u8, u8, u8) = (0, 0, 64);

    pub const VDK_GREEN: (u8, u8, u8) = (0, 64, 0);

    pub const VDK_CYAN: (u8, u8, u8) = (0, 64, 64);

    pub const VDK_YELLOW: (u8, u8, u8) = (128, 64, 0);

    pub const VDK_MAGENTA: (u8, u8, u8) = (64, 0, 64);

    pub const VDK_GREY: (u8, u8, u8) = (64, 64, 64);

    pub const LT_RED: (u8, u8, u8) = (255, 128, 128);

    pub const LT_BLUE: (u8, u8, u8) = (128, 128, 255);

    pub const LT_GREEN: (u8, u8, u8) = (128, 255, 128);

    pub const LT_CYAN: (u8, u8, u8) = (128, 255, 255);

    pub const LT_YELLOW: (u8, u8, u8) = (255, 255, 128);

    pub const LT_MAGENTA: (u8, u8, u8) = (255, 128, 255);

    pub const LT_GREY: (u8, u8, u8) = (192, 192, 192);

    pub const LT_ORANGE: (u8, u8, u8) = (255, 192, 128);

    pub const VLT_GREY: (u8, u8, u8) = (224, 224, 224);
}

/// One channel of the color at `i` in a ramp of `num` colors from `start`
/// to `end`: the share `i / (num - 1)` of the way, rounded down.
pub open spec fn ramp_channel(start: u8, end: u8, i: int, num: int) -> u8 {
    ((start * (num - 1) + i * (end - start)) / (num - 1)) as u8
}

/// The color at `i` in a ramp of `num` colors from `start` to `end`. Only
/// red, green and blue are blended; the ramp is opaque.
pub open spec fn ramp_color(start: RGBAColor, end: RGBAColor, i: int, num: int) -> RGBAColor {
    RGBAColor {
        r: ramp_channel(start.r, end.r, i, num),
        g: ramp_channel(start.g, end.g, i, num),
        b: ramp_channel(start.b, end.b, i, num),
        a: 255,
    }
}

/// The ramp of `num` colors from `start` to `end`, both included; `start`
/// alone where `num` is less than two.
pub open spec fn linear_ramp(start: RGBAColor, end: RGBAColor, num: u32) -> Seq<RGBAColor> {
    if num > 1 {
        Seq::new(num as nat, |i: int| ramp_color(start, end, i, num as int))
    } else {
        seq![start]
    }
}

fn channel_at(start: u8, end: u8, i: u32, num: u32) -> (c: u8)
    requires
        num > 1,
        i < num,
    ensures
        c == ramp_channel(start, end, i as int, num as int),
        i == 0 ==> c == start,
        i == num - 1 ==> c == end,
{
    let span: i64 = (num - 1) as i64;
    let step: i64 = end as i64 - start as i64;
    proof {
        let s = start as int;
        let e = end as int;
        let w = span as int;
        let k = i as int;
        let d = step as int;
        assert(0 <= s * w + k * d <= 255 * w && (k == 0 ==> (s * w + k * d) / w == s) && (k == w ==> (s
            * w + k * d) / w == e) && -0x7fff_ffff_ffff <= k * d <= 0x7fff_ffff_ffff && 0 <= s * w
            <= 0x7fff_ffff_ffff && 0 <= (s * w + k * d) / w <= 255) by (nonlinear_arith)
            requires
                0 <= s <= 255,
                -255 <= d <= 255,
                0 <= s + d <= 255,
                e == s + d,
                0 <= k <= w,
                0 < w < 0x1_0000_0000,
        ;
    }
    let n: i64 = (start as i64) * span + (i as i64) * step;
    (n / span) as u8
}

/// The ramp of `num` colors from `start` to `end`, both included; `start`
/// alone where `num` is less than two.
pub fn create_linear_colormap(start: RGBAColor, end: RGBAColor, num: u32) -> (map: Vec<RGBAColor>)
    ensures
        map@ == linear_ramp(start, end, num),
{
    if num > 1 {
        let mut map: Vec<RGBAColor> = Vec::new();
        let mut i: u32 = 0;
        while i < num
            invariant
                num > 1,
                i <= num,
                map@.len() == i,
                forall|k: int| 0 <= k < i ==> #[trigger] map@[k] == ramp_color(start, end, k, num as int),
            decreases num - i,
        {
            map.push(
                RGBAColor::new(
                    channel_at(start.r, end.r, i, num),
                    channel_at(start.g, end.g, i, num),
                    channel_at(start.b, end.b, i, num),
                ),
            );
            i += 1;
        }
        assert(map@ =~= linear_ramp(start, end, num));
        map
    } else {
        let mut map: Vec<RGBAColor> = Vec::new();
        map.push(start);
        assert(map@ =~= linear_ramp(start, end, num));
        map
    }
}

fn filled(color: RGBAColor, n: usize) -> (palette: Vec<RGBAColor>)
    ensures
        palette@.len() == n,
        forall|i: int| 0 <= i < n ==> #[trigger] palette@[i] == color,
{
    let mut palette: Vec<RGBAColor> = Vec::new();
    while palette.len() < n
        invariant
            palette@.len() <= n,
            forall|i: int| 0 <= i < palette@.len() ==> #[trigger] palette@[i] == color,
        decreases n - palette@.len(),
    {
        palette.push(color);
    }
    palette
}

fn append_prefix(palette: &mut Vec<RGBAColor>, colors: &Vec<RGBAColor>, n: usize)
    requires
        n <= colors@.len(),
    ensures
        final(palette)@ == old(palette)@ + colors@.take(n as int),
{
    let mut i: usize = 0;
    while i < n
        invariant
            i <= n,
            n <= colors@.len(),
            palette@ == old(palette)@ + colors@.take(i as int),
        decreases n - i,
    {
        palette.push(colors[i]);
        assert(colors@.take(i + 1) =~= colors@.take(i as int).push(colors@[i as int]));
        assert(palette@ =~= old(palette)@ + colors@.take(i + 1));
        i += 1;
    }
}

/// Black, then the first `n` colors of the ramp of 128 from `a` to `b`,
/// then the ramp of `m` from `c` to `d`.
pub open spec fn two_ramps(
    a: RGBAColor,
    b: RGBAColor,
    n: int,
    c: RGBAColor,
    d: RGBAColor,
) -> Seq<RGBAColor> {
    seq![RGBAColor::rgb(StdColors::BLACK)] + linear_ramp(a, b, 128).take(n) + linear_ramp(
        c,
        d,
        128,
    )
}

fn build_two_ramps(a: RGBAColor, b: RGBAColor, c: RGBAColor, d: RGBAColor) -> (palette: Vec<
    RGBAColor,
>)
    ensures
        palette@ == two_ramps(a, b, 127, c, d),
        palette@.len() == 256,
{
    let mut palette: Vec<RGBAColor> = Vec::new();
    palette.push(RGBAColor::from(StdColors::BLACK));
    let first = ColorMap::create_linear(a, b, 128);
    append_prefix(&mut palette, &first, 127);
    let second = ColorMap::create_linear(c, d, 128);
    append_prefix(&mut palette, &second, 128);
    assert(second@.take(128) =~= second@);
    assert(palette@ =~= two_ramps(a, b, 127, c, d));
    palette
}

/// The color at `idx` of the palettes that step one channel down the rows
/// and another down the columns of a grid of 15 by 15 cells, 16 to a row,
/// which starts at 17; `across` is the channel stepped within a row and
/// `down` the one stepped from row to row.
pub open spec fn grid_steps(idx: int) -> Option<(u8, u8)> {
    let k = idx - 17;
    if 17 <= idx < 256 && k / 16 < 15 && k % 16 < 15 {
        Some(((255 - 12 * (k % 16)) as u8, (255 - 16 * (k / 16)) as u8))
    } else {
        None
    }
}

/// The color at `idx` of the palette of red and green steps.
pub open spec fn pf4_color(idx: int) -> RGBAColor {
    match grid_steps(idx) {
        Some((across, down)) => RGBAColor { r: across, g: down, b: 0, a: 255 },
        None => RGBAColor::rgb(StdColors::BLACK),
    }
}

/// The color at `idx` of the palette of blue and green steps.
pub open spec fn pf5_color(idx: int) -> RGBAColor {
    match grid_steps(idx) {
        Some((across, down)) => RGBAColor { r: 0, g: down, b: across, a: 255 },
        None => RGBAColor::rgb(StdColors::BLACK),
    }
}

/// The color at `idx` of the quadrant palette: black, then green rising to
/// cyan, then cyan fading to red.
pub open spec fn pf6_color(idx: int) -> RGBAColor {
    if 1 <= idx <= 128 {
        RGBAColor {
            r: 0,
            g: (if 2 * idx < 255 {
                2 * idx
            } else {
                255
            }) as u8,
            b: (if 128 + idx < 255 {
                128 + idx
            } else {
                255
            }) as u8,
            a: 255,
        }
    } else if 129 <= idx <= 255 {
        let i = idx - 128;
        RGBAColor { r: (2 * i + 1) as u8, g: (255 - 2 * i) as u8, b: (255 - 2 * i) as u8, a: 255 }
    } else {
        RGBAColor::rgb(StdColors::BLACK)
    }
}

/// The color at `idx` of the striped palette: black, then dark blue at odd
/// places and yellow at even ones.
pub open spec fn pf7_color(idx: int) -> RGBAColor {
    if idx == 0 {
        RGBAColor::rgb(StdColors::BLACK)
    } else if idx % 2 == 0 {
        RGBAColor::rgb(StdColors::YELLOW)
    } else {
        RGBAColor::rgb(StdColors::DK_BLUE)
    }
}

/// The color that the band palette holds at the place `r` of each of its
/// four blocks of 64 colors.
pub open spec fn band_color(r: int) -> RGBAColor {
    if 1 <= r <= 3 {
        RGBAColor { r: 128, g: 0, b: 0, a: 255 }
    }     else if 4 <= r <= 6 {
        RGBAColor { r: 192, g: 0, b: 0, a: 255 }
    }     else if 7 <= r <= 9 {
        RGBAColor { r: 255, g: 0, b: 0, a: 255 }
    }     else if 10 <= r <= 12 {
        RGBAColor { r: 255, g: 64, b: 64, a: 255 }
    }     else if 13 <= r <= 15 {
        RGBAColor { r: 255, g: 128, b: 128, a: 255 }
    }     else if 16 <= r <= 18 {
        RGBAColor { r: 255, g: 192, b: 192, a: 255 }
    }     else if 33 <= r <= 35 {
        RGBAColor { r: 128, g: 64, b: 0, a: 255 }
    }     else if 36 <= r <= 38 {
        RGBAColor { r: 192, g: 96, b: 0, a: 255 }
    }     else if 39 <= r <= 41 {
        RGBAColor { r: 255, g: 128, b: 0, a: 255 }
    }     else if 42 <= r <= 44 {
        RGBAColor { r: 255, g: 160, b: 64, a: 255 }
    }     else if 45 <= r <= 46 {
        RGBAColor { r: 255, g: 192, b: 128, a: 255 }
    }     else if 47 <= r <= 49 {
        RGBAColor { r: 255, g: 224, b: 192, a: 255 }
    } else {
        RGBAColor::rgb(StdColors::WHITE)
    }
}

/// The color that one pass over the band palette writes at the place `o`
/// of a block, if it writes one there.
pub open spec fn band_write(o: int) -> Option<RGBAColor> {
    if o == 1 {
        Some(RGBAColor { r: 128, g: 0, b: 0, a: 255 })
    }     else if o == 4 {
        Some(RGBAColor { r: 192, g: 0, b: 0, a: 255 })
    }     else if o == 7 {
        Some(RGBAColor { r: 255, g: 0, b: 0, a: 255 })
    }     else if o == 10 {
        Some(RGBAColor { r: 255, g: 64, b: 64, a: 255 })
    }     else if o == 13 {
        Some(RGBAColor { r: 255, g: 128, b: 128, a: 255 })
    }     else if o == 16 {
        Some(RGBAColor { r: 255, g: 192, b: 192, a: 255 })
    }     else if o == 33 {
        Some(RGBAColor { r: 128, g: 64, b: 0, a: 255 })
    }     else if o == 36 {
        Some(RGBAColor { r: 192, g: 96, b: 0, a: 255 })
    }     else if o == 39 {
        Some(RGBAColor { r: 255, g: 128, b: 0, a: 255 })
    }     else if o == 42 {
        Some(RGBAColor { r: 255, g: 160, b: 64, a: 255 })
    }     else if o == 44 {
        Some(RGBAColor { r: 255, g: 192, b: 128, a: 255 })
    }     else if o == 47 {
        Some(RGBAColor { r: 255, g: 224, b: 192, a: 255 })
    } else {
        None
    }
}

/// The color at the place `r` of a block after `j` passes, each one place
/// further on than the one before: the last one written there, or white.
pub open spec fn band_so_far(r: int, j: int) -> RGBAColor {
    if j >= 3 && band_write(r - 2) is Some {
        band_write(r - 2)->0
    } else if j >= 2 && band_write(r - 1) is Some {
        band_write(r - 1)->0
    } else if j >= 1 && band_write(r) is Some {
        band_write(r)->0
    } else {
        RGBAColor::rgb(StdColors::WHITE)
    }
}

/// Three passes leave the bands of the palette.
proof fn lemma_bands(r: int)
    requires
        0 <= r < 64,
    ensures
        band_so_far(r, 3) == band_color(r),
{
}

/// The color at `idx` of the band palette: black, then four blocks of
/// bands on white.
pub open spec fn pf8_color(idx: int) -> RGBAColor {
    if idx == 0 {
        RGBAColor::rgb(StdColors::BLACK)
    } else {
        band_color(idx % 64)
    }
}

/// Whether `palette` holds 256 colors, the one at each place given by
/// `color`.
pub open spec fn is_palette(palette: Seq<RGBAColor>, color: spec_fn(int) -> RGBAColor) -> bool {
    &&& palette.len() == 256
    &&& forall|i: int| 0 <= i < 256 ==> #[trigger] palette[i] == color(i)
}

/// Makers of palettes.
pub struct ColorMap {}

impl ColorMap {
    /// The ramp of `num` colors from `start` to `end`, both included;
    /// `start` alone where `num` is less than two.
    pub fn create_linear(start: RGBAColor, end: RGBAColor, num: u32) -> (map: Vec<RGBAColor>)
        ensures
            map@ == linear_ramp(start, end, num),
    {
        create_linear_colormap(start, end, num)
    }

    /// Creates a palette: Dark Blue -> Cyan -> Green.
    pub fn pf1() -> (palette: Vec<RGBAColor>)
        ensures
            palette@.len() == 256,
            palette@ == two_ramps(
                RGBAColor::rgb(StdColors::DK_BLUE),
                RGBAColor::rgb(StdColors::CYAN),
                127,
                RGBAColor::rgb(StdColors::CYAN),
                RGBAColor::rgb(StdColors::DK_GREEN),
            ),
    {
        build_two_ramps(
            RGBAColor::from(StdColors::DK_BLUE),
            RGBAColor::from(StdColors::CYAN),
            RGBAColor::from(StdColors::CYAN),
            RGBAColor::from(StdColors::DK_GREEN),
        )
    }

    /// Creates a palette: Dark Red -> Yellow, then Dark Blue -> Cyan.
    pub fn pf2() -> (palette: Vec<RGBAColor>)
        ensures
            palette@.len() == 256,
            palette@ == two_ramps(
                RGBAColor::rgb(StdColors::DK_RED),
                RGBAColor::rgb(StdColors::YELLOW),
                127,
                RGBAColor::rgb(StdColors::DK_BLUE),
                RGBAColor::rgb(StdColors::CYAN),
            ),
    {
        build_two_ramps(
            RGBAColor::from(StdColors::DK_RED),
            RGBAColor::from(StdColors::YELLOW),
            RGBAColor::from(StdColors::DK_BLUE),
            RGBAColor::from(StdColors::CYAN),
        )
    }

    /// Cyan -> dark blue, for the star drawing algorithm.
    pub fn pf3() -> (palette: Vec<RGBAColor>)
        ensures
            palette@.len() == 256,
            palette@ == seq![RGBAColor::rgb(StdColors::BLACK)] + linear_ramp(
                RGBAColor::rgb(StdColors::CYAN),
                RGBAColor::rgb(StdColors::DK_BLUE),
                255,
            ),
    {
        let mut palette: Vec<RGBAColor> = Vec::new();
        palette.push(RGBAColor::from(StdColors::BLACK));
        let ramp = ColorMap::create_linear(
            RGBAColor::from(StdColors::CYAN),
            RGBAColor::from(StdColors::DK_BLUE),
            255,
        );
        append_prefix(&mut palette, &ramp, 255);
        assert(ramp@.take(255) =~= ramp@);
        palette
    }

    /// Steps red and green down in 15 steps, used by the bands coloring
    /// scheme.
    pub fn pf4() -> (palette: Vec<RGBAColor>)
        ensures
            is_palette(palette@, |i: int| pf4_color(i)),
    {
        let mut palette = filled(RGBAColor::from(StdColors::BLACK), 256);
        let mut i: usize = 0;
        while i < 15
            invariant
                i <= 15,
                palette@.len() == 256,
                forall|idx: int|
                    0 <= idx < 256 ==> #[trigger] palette@[idx] == if (idx - 17) / 16 < i {
                        pf4_color(idx)
                    } else {
                        RGBAColor::rgb(StdColors::BLACK)
                    },
            decreases 15 - i,
        {
            let green: usize = 255 - 16 * i;
            let mut j: usize = 0;
            while j < 15
                invariant
                    i < 15,
                    j <= 15,
                    green == 255 - 16 * i,
                    palette@.len() == 256,
                    forall|idx: int|
                        0 <= idx < 256 ==> #[trigger] palette@[idx] == if (idx - 17) / 16 < i || ((idx
                            - 17) / 16 == i && (idx - 17) % 16 < j) {
                            pf4_color(idx)
                        } else {
                            RGBAColor::rgb(StdColors::BLACK)
                        },
                decreases 15 - j,
            {
                let red: usize = 255 - 12 * j;
                let idx: usize = 16 * i + j + 17;
                palette[idx] = RGBAColor::new(red as u8, green as u8, 0);
                j += 1;
            }
            i += 1;
        }
        palette
    }

    /// Steps blue and green down in 15 steps, used by the bands coloring
    /// scheme.
    pub fn pf5() -> (palette: Vec<RGBAColor>)
        ensures
            is_palette(palette@, |i: int| pf5_color(i)),
    {
        let mut palette = filled(RGBAColor::from(StdColors::BLACK), 256);
        let mut i: usize = 0;
        while i < 15
            invariant
                i <= 15,
                palette@.len() == 256,
                forall|idx: int|
                    0 <= idx < 256 ==> #[trigger] palette@[idx] == if (idx - 17) / 16 < i {
                        pf5_color(idx)
                    } else {
                        RGBAColor::rgb(StdColors::BLACK)
                    },
            decreases 15 - i,
        {
            let green: usize = 255 - 16 * i;
            let mut j: usize = 0;
            while j < 15
                invariant
                    i < 15,
                    j <= 15,
                    green == 255 - 16 * i,
                    palette@.len() == 256,
                    forall|idx: int|
                        0 <= idx < 256 ==> #[trigger] palette@[idx] == if (idx - 17) / 16 < i || ((idx
                            - 17) / 16 == i && (idx - 17) % 16 < j) {
                            pf5_color(idx)
                        } else {
                            RGBAColor::rgb(StdColors::BLACK)
                        },
                decreases 15 - j,
            {
                let blue: usize = 255 - 12 * j;
                let idx: usize = 16 * i + j + 17;
                palette[idx] = RGBAColor::new(0, green as u8, blue as u8);
                j += 1;
            }
            i += 1;
        }
        palette
    }

    /// Four colors for the quadrants scheme, 256 colors in all.
    pub fn pf6() -> (palette: Vec<RGBAColor>)
        ensures
            is_palette(palette@, |i: int| pf6_color(i)),
    {
        let mut palette = filled(RGBAColor::from(StdColors::BLACK), 256);
        let mut i: u32 = 1;
        while i < 129
            invariant
                1 <= i <= 129,
                palette@.len() == 256,
                forall|idx: int|
                    0 <= idx < 256 ==> #[trigger] palette@[idx] == if idx < i {
                        pf6_color(idx)
                    } else {
                        RGBAColor::rgb(StdColors::BLACK)
                    },
            decreases 129 - i,
        {
            let green: u32 = if 2 * i < 255 {
                2 * i
            } else {
                255
            };
            let blue: u32 = if 128 + i < 255 {
                128 + i
            } else {
                255
            };
            palette[i as usize] = RGBAColor::new(0, green as u8, blue as u8);
            i += 1;
        }
        let mut k: u32 = 1;
        while k < 128
            invariant
                1 <= k <= 128,
                palette@.len() == 256,
                forall|idx: int|
                    0 <= idx < 256 ==> #[trigger] palette@[idx] == if idx < 128 + k {
                        pf6_color(idx)
                    } else {
                        RGBAColor::rgb(StdColors::BLACK)
                    },
            decreases 128 - k,
        {
            palette[(128 + k) as usize] = RGBAColor::new(
                (2 * k + 1) as u8,
                (255 - 2 * k) as u8,
                (255 - 2 * k) as u8,
            );
            k += 1;
        }
        palette
    }

    /// Yellow and blue bands, 256 colors.
    pub fn pf7() -> (palette: Vec<RGBAColor>)
        ensures
            is_palette(palette@, |i: int| pf7_color(i)),
    {
        let yellow_blue = [RGBAColor::from(StdColors::YELLOW), RGBAColor::from(StdColors::DK_BLUE)];
        let mut palette: Vec<RGBAColor> = Vec::new();
        palette.push(RGBAColor::from(StdColors::BLACK));
        let mut i: usize = 1;
        while i < 256
            invariant
                1 <= i <= 256,
                palette@.len() == i,
                yellow_blue@[0] == RGBAColor::rgb(StdColors::YELLOW),
                yellow_blue@[1] == RGBAColor::rgb(StdColors::DK_BLUE),
                forall|idx: int| 0 <= idx < i ==> #[trigger] palette@[idx] == pf7_color(idx),
            decreases 256 - i,
        {
            palette.push(yellow_blue[i % 2]);
            i += 1;
        }
        palette
    }

    /// Thin red bands, 256 colors.
    pub fn pf8() -> (palette: Vec<RGBAColor>)
        ensures
            is_palette(palette@, |i: int| pf8_color(i)),
    {
        let mut palette = filled(RGBAColor::from(StdColors::WHITE), 256);
        palette[0] = RGBAColor::from(StdColors::BLACK);
        let mut i: usize = 0;
        while i < 4
            invariant
                i <= 4,
                palette@.len() == 256,
                forall|idx: int|
                    0 <= idx < 256 ==> #[trigger] palette@[idx] == if idx == 0 {
                        RGBAColor::rgb(StdColors::BLACK)
                    } else if idx / 64 < i {
                        pf8_color(idx)
                    } else {
                        RGBAColor::rgb(StdColors::WHITE)
                    },
            decreases 4 - i,
        {
            let ghost before = palette@;
            let mut j: usize = 0;
            while j < 3
                invariant
                    i < 4,
                    j <= 3,
                    palette@.len() == 256,
                    before.len() == 256,
                    forall|idx: int|
                        0 <= idx < 256 && idx / 64 != i ==> #[trigger] palette@[idx] == before[idx],
                    forall|idx: int|
                        0 <= idx < 256 && idx / 64 == i ==> #[trigger] palette@[idx] == if idx == 0 {
                            RGBAColor::rgb(StdColors::BLACK)
                        } else {
                            band_so_far(idx % 64, j as int)
                        },
                decreases 3 - j,
            {
            palette[64 * i + j + 1] = RGBAColor::new(128, 0, 0);
            palette[64 * i + j + 4] = RGBAColor::new(192, 0, 0);
            palette[64 * i + j + 7] = RGBAColor::new(255, 0, 0);
            palette[64 * i + j + 10] = RGBAColor::new(255, 64, 64);
            palette[64 * i + j + 13] = RGBAColor::new(255, 128, 128);
            palette[64 * i + j + 16] = RGBAColor::new(255, 192, 192);
            palette[64 * i + j + 33] = RGBAColor::new(128, 64, 0);
            palette[64 * i + j + 36] = RGBAColor::new(192, 96, 0);
            palette[64 * i + j + 39] = RGBAColor::new(255, 128, 0);
            palette[64 * i + j + 42] = RGBAColor::new(255, 160, 64);
            palette[64 * i + j + 44] = RGBAColor::new(255, 192, 128);
            palette[64 * i + j + 47] = RGBAColor::new(255, 224, 192);
                j += 1;
            }
            proof {
                assert forall|idx: int| 0 <= idx < 256 && idx / 64 == i && idx != 0 implies #[trigger] palette@[idx]
                    == pf8_color(idx) by {
                    lemma_bands(idx % 64);
                }
            }
            i += 1;
        }
        palette
    }
}

} // verus!

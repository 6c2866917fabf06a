use vstd::prelude::*;

verus! {

/// A bar that shows `value` out of `max_value`.
pub struct ProgressBar {
    pub value: i64,
    pub max_value: i64,
    pub step: i64,
}

/// Part of the bar's image that is shown, from its left edge: the full
/// `height`, and a width of exactly `shown / out_of` pixels.
#[derive(Clone, Copy, Debug, PartialEq, Eq, Structural)]
pub struct VisibleRect {
    pub shown: u128,
    pub out_of: u64,
    pub height: u32,
}

/// Driver of the bars: computes, once per frame, what each bar shows.
pub struct ProgressBarPlugin;

impl ProgressBar {
    /// A full bar: both the value and the maximum are `progress`.
    pub fn new(progress: i64) -> (r: ProgressBar)
        ensures
            r.value == progress,
            r.max_value == progress,
            r.step == 0,
    {
        ProgressBar { value: progress, max_value: progress, step: 0 }
    }
}

impl ProgressBarPlugin {
    /// Part of the image that `bar` shows this frame, for an image of
    /// `image_size` (width, height) pixels, or `None` while the image is not
    /// loaded. A bar without a positive maximum has no ratio to show and is
    /// left as it was (`None`).
    pub fn update(bar: &ProgressBar, image_size: Option<(u32, u32)>) -> (r: Option<VisibleRect>)
        ensures
            r == (match image_size {
                Some((w, h)) if bar.max_value > 0 => Some(
                    VisibleRect {
                        shown: shown_share(w as int, bar.value as int, bar.max_value as int) as u128,
                        out_of: bar.max_value as u64,
                        height: h,
                    },
                ),
                _ => None,
            }),
    {
        match image_size {
            Some((w, h)) => {
                if bar.max_value > 0 {
                    Some(
                        VisibleRect {
                            shown: bar_share(w, bar.value, bar.max_value),
                            out_of: bar.max_value as u64,
                            height: h,
                        },
                    )
                } else {
                    None
                }
            },
            None => None,
        }
    }
}

/// `value` held within `0 ..= max_value`.
pub open spec fn clamped(value: int, max_value: int) -> int {
    if value < 0 {
        0
    } else if value > max_value {
        max_value
    } else {
        value
    }
}

/// Numerator of the width shown of an image `image_width` pixels wide, over
/// the denominator `max_value`: `shown_share / max_value` is exactly
/// `image_width * clamp(value / max_value, 0, 1)`.
pub open spec fn shown_share(image_width: int, value: int, max_value: int) -> int {
    image_width * clamped(value, max_value)
}

/// Numerator, over `max_value`, of the pixels of an `image_width`-wide image
/// that a bar at `value` of `max_value` shows.
pub fn bar_share(image_width: u32, value: i64, max_value: i64) -> (r: u128)
    requires
        max_value > 0,
    ensures
        r == shown_share(image_width as int, value as int, max_value as int),
        r <= image_width * max_value,
{
    let shown: i64 = if value < 0 {
        0
    } else if value > max_value {
        max_value
    } else {
        value
    };
    proof {
        assert(0 <= image_width as int * shown as int <= image_width as int * max_value as int
            <= 0xffff_ffff * 0x7fff_ffff_ffff_ffff) by (nonlinear_arith)
            requires
                0 <= image_width <= 0xffff_ffff,
                0 <= shown <= max_value <= 0x7fff_ffff_ffff_ffff,
        ;
    }
    image_width as u128 * shown as u128
}

/// The shown width never shrinks as the value grows.
pub proof fn lemma_width_monotone_in_value(image_width: u32, v1: i64, v2: i64, max_value: i64)
    requires
        max_value > 0,
        v1 <= v2,
    ensures
        shown_share(image_width as int, v1 as int, max_value as int) <= shown_share(
            image_width as int,
            v2 as int,
            max_value as int,
        ),
{
    let w = image_width as int;
    let s1 = clamped(v1 as int, max_value as int);
    let s2 = clamped(v2 as int, max_value as int);
    assert(w * s1 <= w * s2) by (nonlinear_arith)
        requires
            0 <= w,
            s1 <= s2,
    ;
}

/// The shown width never grows as the maximum grows: with the shares over
/// their own maxima, `share1 / m1 >= share2 / m2`.
pub proof fn lemma_width_antitone_in_max(image_width: u32, value: i64, m1: i64, m2: i64)
    requires
        0 < m1 <= m2,
    ensures
        shown_share(image_width as int, value as int, m1 as int) * m2 >= shown_share(
            image_width as int,
            value as int,
            m2 as int,
        ) * m1,
{
    let w = image_width as int;
    let v = value as int;
    let a = m1 as int;
    let b = m2 as int;
    let s1 = clamped(v, a);
    let s2 = clamped(v, b);
    assert(w * s1 * b >= w * s2 * a) by (nonlinear_arith)
        requires
            0 <= w,
            0 < a <= b,
            s1 == (if v < 0 { 0 } else if v > a { a } else { v }),
            s2 == (if v < 0 { 0 } else if v > b { b } else { v }),
    ;
}

/// An empty or negative value shows nothing.
pub proof fn lemma_width_empty(image_width: u32, value: i64, max_value: i64)
    requires
        max_value > 0,
        value <= 0,
    ensures
        shown_share(image_width as int, value as int, max_value as int) == 0,
{
    assert(image_width as int * 0 == 0);
}

/// A value at or above the maximum shows the whole image: the share is
/// `image_width` times the maximum.
pub proof fn lemma_width_full(image_width: u32, value: i64, max_value: i64)
    requires
        max_value > 0,
        value >= max_value,
    ensures
        shown_share(image_width as int, value as int, max_value as int) == image_width
            * max_value,
{
}

} // verus!

use rs_cpurenderer::fixed::Fixed;
use rs_cpurenderer::math::Vec2;
use rs_cpurenderer::renderer::{cohen_sutherland_line_clip, compute_outcode, Bresenham};

fn fx(v: f64) -> Fixed {
    Fixed::from_raw((v * 65536.0) as i32)
}

fn p(x: f64, y: f64) -> Vec2 {
    Vec2::new(fx(x), fx(y))
}

fn pixels(p1: Vec2, p2: Vec2, min: Vec2, max: Vec2) -> Option<Vec<(i32, i32)>> {
    let mut line = Bresenham::new(&p1, &p2, &min, &max)?;
    let mut out = Vec::new();
    while let Some(pixel) = line.next() {
        out.push(pixel);
    }
    Some(out)
}

#[test]
fn outcodes() {
    let min = p(0.0, 0.0);
    let max = p(10.0, 10.0);
    assert_eq!(compute_outcode(&p(5.0, 5.0), &min, &max), 0);
    assert_eq!(compute_outcode(&p(0.0, 10.0), &min, &max), 0);
    assert_eq!(compute_outcode(&p(-1.0, 5.0), &min, &max), 1);
    assert_eq!(compute_outcode(&p(11.0, 5.0), &min, &max), 2);
    assert_eq!(compute_outcode(&p(5.0, -1.0), &min, &max), 4);
    assert_eq!(compute_outcode(&p(5.0, 11.0), &min, &max), 8);
    assert_eq!(compute_outcode(&p(-1.0, 11.0), &min, &max), 9);
    assert_eq!(compute_outcode(&p(11.0, -1.0), &min, &max), 6);
}

#[test]
fn a_segment_inside_is_kept_as_it_is() {
    let min = p(0.0, 0.0);
    let max = p(10.0, 10.0);
    let a = p(1.5, 2.25);
    let b = p(10.0, 0.0);
    assert_eq!(cohen_sutherland_line_clip(&a, &b, &min, &max), Some((a, b)));
    assert_eq!(cohen_sutherland_line_clip(&b, &a, &min, &max), Some((b, a)));
    assert_eq!(cohen_sutherland_line_clip(&a, &a, &min, &max), Some((a, a)));
}

#[test]
fn clipping_is_idempotent() {
    let min = p(0.0, 0.0);
    let max = p(10.0, 10.0);
    let segments = [
        (p(-5.0, 2.0), p(20.0, 2.0)),
        (p(-3.0, -4.0), p(14.0, 12.5)),
        (p(5.0, 20.0), p(6.0, -20.0)),
        (p(-1.0, 5.0), p(5.0, 11.0)),
    ];
    for (a, b) in segments {
        let (c, d) = cohen_sutherland_line_clip(&a, &b, &min, &max).unwrap();
        assert_eq!(cohen_sutherland_line_clip(&c, &d, &min, &max), Some((c, d)));
    }
}

#[test]
fn ends_beyond_the_same_side_give_none() {
    let min = p(0.0, 0.0);
    let max = p(10.0, 10.0);
    assert_eq!(cohen_sutherland_line_clip(&p(-5.0, 2.0), &p(-1.0, 8.0), &min, &max), None);
    assert_eq!(cohen_sutherland_line_clip(&p(11.0, -2.0), &p(12.0, 30.0), &min, &max), None);
    assert_eq!(cohen_sutherland_line_clip(&p(-5.0, -2.0), &p(30.0, -0.5), &min, &max), None);
    assert_eq!(cohen_sutherland_line_clip(&p(-5.0, 12.0), &p(30.0, 10.5), &min, &max), None);
}

#[test]
fn a_segment_past_a_corner_gives_none_without_a_shared_side() {
    let min = p(0.0, 0.0);
    let max = p(10.0, 10.0);
    // left of the rectangle and above it: the outcodes 1 and 8 share no bit
    let a = p(-5.0, 6.0);
    let b = p(4.0, 15.0);
    assert_eq!(compute_outcode(&a, &min, &max) & compute_outcode(&b, &min, &max), 0);
    assert_eq!(cohen_sutherland_line_clip(&a, &b, &min, &max), None);
}

#[test]
fn clipped_ends_lie_on_the_border() {
    let min = p(0.0, 0.0);
    let max = p(10.0, 10.0);
    assert_eq!(
        cohen_sutherland_line_clip(&p(-5.0, 2.0), &p(20.0, 2.0), &min, &max),
        Some((p(0.0, 2.0), p(10.0, 2.0)))
    );
    assert_eq!(
        cohen_sutherland_line_clip(&p(-2.0, -2.0), &p(12.0, 12.0), &min, &max),
        Some((p(0.0, 0.0), p(10.0, 10.0)))
    );
    assert_eq!(
        cohen_sutherland_line_clip(&p(5.0, -5.0), &p(5.0, 5.0), &min, &max),
        Some((p(5.0, 0.0), p(5.0, 5.0)))
    );
    // x = 2 + 4 * (10 - 4) / 12 = 4
    assert_eq!(
        cohen_sutherland_line_clip(&p(2.0, 4.0), &p(6.0, 16.0), &min, &max),
        Some((p(2.0, 4.0), p(4.0, 10.0)))
    );
}

#[test]
fn an_empty_rectangle_keeps_nothing() {
    let a = p(1.0, 1.0);
    assert_eq!(cohen_sutherland_line_clip(&a, &a, &p(0.0, 0.0), &p(-1.0, 5.0)), None);
    assert_eq!(cohen_sutherland_line_clip(&p(-3.0, 1.0), &p(3.0, 20.0), &p(0.0, 10.0), &p(5.0, 0.0)), None);
}

#[test]
fn bresenham_clip() {
    let line = pixels(p(-5.0, 2.0), p(20.0, 2.0), p(0.0, 0.0), p(10.0, 10.0)).unwrap();
    let expected: Vec<(i32, i32)> = (0..=10).map(|x| (x, 2)).collect();
    assert_eq!(line, expected);
}

#[test]
fn bresenham_visits_both_ends() {
    let min = p(0.0, 0.0);
    let max = p(20.0, 20.0);
    assert_eq!(
        pixels(p(0.0, 0.0), p(2.0, 1.0), min, max).unwrap(),
        vec![(0, 0), (1, 1), (2, 1)]
    );
    assert_eq!(
        pixels(p(2.0, 1.0), p(0.0, 0.0), min, max).unwrap(),
        vec![(2, 1), (1, 0), (0, 0)]
    );
    assert_eq!(
        pixels(p(1.0, 1.0), p(4.0, 4.0), min, max).unwrap(),
        vec![(1, 1), (2, 2), (3, 3), (4, 4)]
    );
    // steep: the major axis is y
    assert_eq!(
        pixels(p(3.0, 0.0), p(4.0, 4.0), min, max).unwrap(),
        vec![(3, 0), (3, 1), (4, 2), (4, 3), (4, 4)]
    );
    assert_eq!(
        pixels(p(5.0, 7.0), p(5.0, 4.0), min, max).unwrap(),
        vec![(5, 7), (5, 6), (5, 5), (5, 4)]
    );
    // a point
    assert_eq!(pixels(p(3.5, 3.5), p(3.5, 3.5), min, max).unwrap(), vec![(3, 3)]);
}

#[test]
fn bresenham_of_a_segment_off_the_rectangle() {
    assert!(pixels(p(-5.0, 2.0), p(-1.0, 8.0), p(0.0, 0.0), p(10.0, 10.0)).is_none());
    let mut none = Bresenham::new(&p(30.0, 2.0), &p(31.0, 8.0), &p(0.0, 0.0), &p(10.0, 10.0));
    assert!(none.is_none());
    assert!(none.as_mut().and_then(|b| b.next()).is_none());
}

#[test]
fn bresenham_stays_in_the_rectangle() {
    let min = p(0.0, 0.0);
    let max = p(15.0, 9.0);
    let ends = [
        p(-20.0, -3.0),
        p(40.0, 4.5),
        p(7.0, 30.0),
        p(3.25, -17.0),
        p(0.0, 0.0),
        p(15.0, 9.0),
        p(-1.0, 10.0),
        p(16.0, -1.0),
        p(8.5, 4.5),
    ];
    for a in ends {
        for b in ends {
            if let Some(line) = pixels(a, b, min, max) {
                assert!(!line.is_empty());
                for (x, y) in &line {
                    assert!(0 <= *x && *x <= 15 && 0 <= *y && *y <= 9, "{:?} {:?}", a, b);
                }
                // one pixel for each step along the major axis
                let (x0, y0) = line[0];
                let (x1, y1) = line[line.len() - 1];
                let major = (x1 - x0).abs().max((y1 - y0).abs());
                assert_eq!(line.len() as i32, major + 1);
                for w in line.windows(2) {
                    assert!((w[1].0 - w[0].0).abs() <= 1 && (w[1].1 - w[0].1).abs() <= 1);
                }
            }
        }
    }
}

#[test]
fn bresenham_backwards_between_the_same_ends() {
    let min = p(0.0, 0.0);
    let max = p(31.0, 31.0);
    let ends = [p(0.0, 0.0), p(31.0, 5.0), p(7.0, 30.0), p(13.0, 13.0), p(2.0, 29.0), p(30.0, 1.0)];
    for a in ends {
        for b in ends {
            let forward = pixels(a, b, min, max).unwrap();
            let mut backward = pixels(b, a, min, max).unwrap();
            backward.reverse();
            assert_eq!(forward.len(), backward.len());
            assert_eq!(forward[0], backward[0]);
            assert_eq!(forward[forward.len() - 1], backward[backward.len() - 1]);
            for (f, b) in forward.iter().zip(backward.iter()) {
                assert!((f.0 - b.0).abs() <= 1 && (f.1 - b.1).abs() <= 1);
            }
        }
    }
    // along an axis and along a diagonal the two runs are the same
    for (a, b) in [(p(2.0, 5.0), p(20.0, 5.0)), (p(4.0, 3.0), p(4.0, 28.0)), (p(1.0, 2.0), p(20.0, 21.0))] {
        let forward = pixels(a, b, min, max).unwrap();
        let mut backward = pixels(b, a, min, max).unwrap();
        backward.reverse();
        assert_eq!(forward, backward);
    }
}

#[test]
fn bresenham_steps_one_pixel_along_the_longer_side() {
    let min = p(0.0, 0.0);
    let max = p(40.0, 40.0);
    let ends = [
        ((1.0, 2.0), (30.0, 9.0)),
        ((30.0, 9.0), (1.0, 2.0)),
        ((4.0, 38.0), (11.0, 3.0)),
        ((11.0, 3.0), (4.0, 38.0)),
        ((0.0, 0.0), (40.0, 40.0)),
        ((40.0, 0.0), (0.0, 40.0)),
        ((7.0, 7.0), (7.0, 31.0)),
        ((33.0, 12.0), (2.0, 12.0)),
    ];
    for ((x0, y0), (x1, y1)) in ends {
        let line = pixels(p(x0, y0), p(x1, y1), min, max).unwrap();
        let steep = (y1 - y0).abs() > (x1 - x0).abs();
        let (toward_x, toward_y) = ((x1 - x0).signum() as i32, (y1 - y0).signum() as i32);
        assert_eq!(line.first(), Some(&(x0 as i32, y0 as i32)));
        assert_eq!(line.last(), Some(&(x1 as i32, y1 as i32)));
        for pair in line.windows(2) {
            let (dx, dy) = (pair[1].0 - pair[0].0, pair[1].1 - pair[0].1);
            if steep {
                assert_eq!(dy, toward_y);
                assert!(dx == 0 || dx == toward_x);
            } else {
                assert_eq!(dx, toward_x);
                assert!(dy == 0 || dy == toward_y);
            }
        }
    }
}

#[test]
fn bresenham_at_its_end_stays_there() {
    let mut line = Bresenham::new(&p(2.0, 2.0), &p(4.0, 3.0), &p(0.0, 0.0), &p(10.0, 10.0)).unwrap();
    assert_eq!(line.next(), Some((2, 2)));
    assert_eq!(line.next(), Some((3, 3)));
    assert_eq!(line.next(), Some((4, 3)));
    for _ in 0..4 {
        assert_eq!(line.next(), None);
    }
}

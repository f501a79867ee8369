use ray_trace::utils::clamp;
use ray_trace::vector::{axis_named, Axis, Vector};
use std::ops::{Add, Sub};

#[test]
fn clamp_keeps_value_inside_range() {
    assert_eq!(clamp(5, 0, 10), 5);
    assert_eq!(clamp(0, 0, 10), 0);
    assert_eq!(clamp(10, 0, 10), 10);
}

#[test]
fn clamp_limits_value_outside_range() {
    assert_eq!(clamp(-3, 0, 10), 0);
    assert_eq!(clamp(42, 0, 10), 10);
    assert_eq!(clamp(0.5f64, 0.0, 0.999), 0.5);
    assert_eq!(clamp(1.5f64, 0.0, 0.999), 0.999);
}

#[test]
fn axis_names() {
    assert_eq!(axis_named("x"), Some(Axis::X));
    assert_eq!(axis_named("y"), Some(Axis::Y));
    assert_eq!(axis_named("z"), Some(Axis::Z));
}

#[test]
fn unknown_axis_names() {
    assert_eq!(axis_named("w"), None);
    assert_eq!(axis_named("X"), None);
    assert_eq!(axis_named(""), None);
    assert_eq!(axis_named("xy"), None);
    assert_eq!(axis_named("x "), None);
}

#[derive(Debug, Clone, Copy, PartialEq, PartialOrd)]
struct Grid {
    x: i64,
    y: i64,
}

impl Add for Grid {
    type Output = Self;
    fn add(self, o: Self) -> Self {
        Grid { x: self.x + o.x, y: self.y + o.y }
    }
}

impl Sub for Grid {
    type Output = Self;
    fn sub(self, o: Self) -> Self {
        Grid { x: self.x - o.x, y: self.y - o.y }
    }
}

impl Vector for Grid {
    type Scalar = i64;
    fn zero() -> Self {
        Grid { x: 0, y: 0 }
    }
    fn magnitude(&self) -> i64 {
        self.x.abs() + self.y.abs()
    }
    fn normalized(self) -> Self {
        Grid { x: self.x.signum(), y: self.y.signum() }
    }
    fn normalize(&mut self) {
        *self = self.normalized();
    }
    fn sqr_magnitude(&self) -> i64 {
        self.dot(self)
    }
    fn angle(&self, _other: &Self) -> i64 {
        0
    }
    fn clamp_magnitude(self, _max_len: i64) -> Self {
        self
    }
    fn dot(&self, o: &Self) -> i64 {
        self.x * o.x + self.y * o.y
    }
    fn scale(self, o: Self) -> Self {
        Grid { x: self.x * o.x, y: self.y * o.y }
    }
    fn lerp(self, _other: Self, _t: i64) -> Self {
        self
    }
    fn lerp_unclamped(self, _other: Self, _t: i64) -> Self {
        self
    }
    fn reflect(self, _normal: Self) -> Self {
        self
    }
}

#[test]
fn vector_max_and_min_follow_ordering() {
    let a = Grid { x: 1, y: 5 };
    let b = Grid { x: 2, y: 0 };
    assert_eq!(a.max(b), b);
    assert_eq!(a.min(b), a);
    assert_eq!(b.max(a), b);
    assert_eq!(b.min(a), a);
    assert_eq!(a.max(a), a);
}

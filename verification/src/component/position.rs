//! The double-buffered position of an entity.

use vstd::prelude::*;

verus! {

/// Where an entity is, and where it was one tick before.
///
/// The renderer interpolates between the two values, so every ordinary
/// update moves the current value into the previous slot before it writes
/// the new one. A reset writes both slots at once.
#[derive(Clone, Copy, Debug, PartialEq, Eq)]
pub struct PositionComponent {
    x_n: i32,
    y_n: i32,
    x_p: i32,
    y_p: i32,
}

/// The four coordinates of a [`PositionComponent`] as mathematical integers.
pub struct PositionView {
    pub x: int,
    pub y: int,
    pub previous_x: int,
    pub previous_y: int,
}

impl View for PositionComponent {
    type V = PositionView;

    closed spec fn view(&self) -> PositionView {
        PositionView {
            x: self.x_n as int,
            y: self.y_n as int,
            previous_x: self.x_p as int,
            previous_y: self.y_p as int,
        }
    }
}

impl PositionView {
    /// Every coordinate can be stored.
    pub open spec fn in_range(self) -> bool {
        &&& i32::MIN <= self.x <= i32::MAX
        &&& i32::MIN <= self.y <= i32::MAX
        &&& i32::MIN <= self.previous_x <= i32::MAX
        &&& i32::MIN <= self.previous_y <= i32::MAX
    }

    /// The position after an ordinary update of the horizontal coordinate.
    pub open spec fn update_x(self, x: int) -> PositionView {
        PositionView { x, previous_x: self.x, ..self }
    }

    /// The position after an ordinary update of the vertical coordinate.
    pub open spec fn update_y(self, y: int) -> PositionView {
        PositionView { y, previous_y: self.y, ..self }
    }

    /// The position after a reset of the horizontal coordinate.
    pub open spec fn reset_x(self, x: int) -> PositionView {
        PositionView { x, previous_x: x, ..self }
    }

    /// The position after a reset of the vertical coordinate.
    pub open spec fn reset_y(self, y: int) -> PositionView {
        PositionView { y, previous_y: y, ..self }
    }

    /// The position after the horizontal updates `xs`, applied in order.
    pub open spec fn update_x_all(self, xs: Seq<int>) -> PositionView
        decreases xs.len(),
    {
        if xs.len() == 0 {
            self
        } else {
            self.update_x_all(xs.drop_last()).update_x(xs.last())
        }
    }

    /// The position after the vertical updates `ys`, applied in order.
    pub open spec fn update_y_all(self, ys: Seq<int>) -> PositionView
        decreases ys.len(),
    {
        if ys.len() == 0 {
            self
        } else {
            self.update_y_all(ys.drop_last()).update_y(ys.last())
        }
    }
}

impl PositionComponent {
    /// The position with the coordinates `v`.
    pub closed spec fn from_view(v: PositionView) -> PositionComponent {
        PositionComponent { x_n: v.x as i32, y_n: v.y as i32, x_p: v.previous_x as i32, y_p: v.previous_y as i32 }
    }

    /// A position at rest at `(x, y)`: previous and current value agree.
    pub fn new(x: i32, y: i32) -> (r: Self)
        ensures
            r@ == (PositionView { x: x as int, y: y as int, previous_x: x as int, previous_y: y as int }),
    {
        Self { x_n: x, y_n: y, x_p: x, y_p: y }
    }

    /// Moves the current horizontal coordinate into the previous slot and
    /// stores `x` as the current one.
    pub fn update_x(&mut self, x: i32)
        ensures
            final(self)@ == old(self)@.update_x(x as int),
    {
        self.x_p = self.x_n;
        self.x_n = x;
    }

    /// Stores `x` as both the previous and the current horizontal coordinate.
    pub fn reset_x(&mut self, x: i32)
        ensures
            final(self)@ == old(self)@.reset_x(x as int),
    {
        self.x_p = x;
        self.x_n = x;
    }

    /// Moves the current vertical coordinate into the previous slot and
    /// stores `y` as the current one.
    pub fn update_y(&mut self, y: i32)
        ensures
            final(self)@ == old(self)@.update_y(y as int),
    {
        self.y_p = self.y_n;
        self.y_n = y;
    }

    /// Stores `y` as both the previous and the current vertical coordinate.
    pub fn reset_y(&mut self, y: i32)
        ensures
            final(self)@ == old(self)@.reset_y(y as int),
    {
        self.y_p = y;
        self.y_n = y;
    }

    /// The current horizontal coordinate.
    pub fn x(&self) -> (r: i32)
        ensures
            r as int == self@.x,
    {
        self.x_n
    }

    /// The current vertical coordinate.
    pub fn y(&self) -> (r: i32)
        ensures
            r as int == self@.y,
    {
        self.y_n
    }

    /// The horizontal coordinate of one tick before.
    pub fn previous_x(&self) -> (r: i32)
        ensures
            r as int == self@.previous_x,
    {
        self.x_p
    }

    /// The vertical coordinate of one tick before.
    pub fn previous_y(&self) -> (r: i32)
        ensures
            r as int == self@.previous_y,
    {
        self.y_p
    }

    /// The coordinates of a stored position fit the machine type, and a
    /// position is known by its coordinates.
    pub proof fn lemma_view(self)
        ensures
            self@.in_range(),
            self == Self::from_view(self@),
    {
    }

    /// Coordinates that fit the machine type are the coordinates of a
    /// position.
    pub proof fn lemma_from_view(v: PositionView)
        requires
            v.in_range(),
        ensures
            Self::from_view(v)@ == v,
    {
    }
}

/// After the `k`-th of a run of horizontal updates, with `k` at least one,
/// the current coordinate is the `k`-th value written; from the second
/// update on, the previous coordinate is the value written just before it,
/// and after the first it is the coordinate the run started from. The
/// vertical coordinates are untouched.
pub proof fn lemma_double_buffer_x(start: PositionView, xs: Seq<int>, k: int)
    requires
        1 <= k <= xs.len(),
    ensures
        start.update_x_all(xs.take(k)).x == xs[k - 1],
        k >= 2 ==> start.update_x_all(xs.take(k)).previous_x == xs[k - 2],
        k == 1 ==> start.update_x_all(xs.take(k)).previous_x == start.x,
        start.update_x_all(xs.take(k)).y == start.y,
        start.update_x_all(xs.take(k)).previous_y == start.previous_y,
    decreases k,
{
    let prefix = xs.take(k);
    assert(prefix.drop_last() == xs.take(k - 1));
    assert(prefix.last() == xs[k - 1]);
    if k >= 2 {
        lemma_double_buffer_x(start, xs, k - 1);
    } else {
        assert(xs.take(0).len() == 0);
        assert(start.update_x_all(xs.take(0)) == start);
    }
}

/// The same for a run of vertical updates.
pub proof fn lemma_double_buffer_y(start: PositionView, ys: Seq<int>, k: int)
    requires
        1 <= k <= ys.len(),
    ensures
        start.update_y_all(ys.take(k)).y == ys[k - 1],
        k >= 2 ==> start.update_y_all(ys.take(k)).previous_y == ys[k - 2],
        k == 1 ==> start.update_y_all(ys.take(k)).previous_y == start.y,
        start.update_y_all(ys.take(k)).x == start.x,
        start.update_y_all(ys.take(k)).previous_x == start.previous_x,
    decreases k,
{
    let prefix = ys.take(k);
    assert(prefix.drop_last() == ys.take(k - 1));
    assert(prefix.last() == ys[k - 1]);
    if k >= 2 {
        lemma_double_buffer_y(start, ys, k - 1);
    } else {
        assert(ys.take(0).len() == 0);
        assert(start.update_y_all(ys.take(0)) == start);
    }
}

} // verus!

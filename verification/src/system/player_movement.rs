//! Movement of player-controlled units.

use crate::component::player_physics::PlayerPhysicsComponent;
use crate::component::position::{PositionComponent, PositionView};
use crate::resource::player_input::PlayerInput;
use crate::store::storage::Storage;
use crate::units::{clamp, saturate, saturate_spec};
use vstd::prelude::*;

verus! {

/// Acceleration, velocity and position of a unit along one axis.
pub struct AxisState {
    pub a: int,
    pub v: int,
    pub p: int,
}

/// The acceleration along one axis. While a direction is held the unit
/// accelerates that way as hard as it can, the backward direction first. With
/// no direction held it brakes: against its velocity, by no more than would
/// bring it to rest within the tick and by no more than `a_max`.
pub open spec fn axis_acceleration(back: bool, forth: bool, v: int, a_max: int) -> int {
    if back {
        -a_max
    } else if forth {
        a_max
    } else if v < 0 {
        if a_max < -v {
            a_max
        } else {
            -v
        }
    } else if v > 0 {
        if -a_max > -v {
            -a_max
        } else {
            -v
        }
    } else {
        0
    }
}

/// The velocity after the acceleration `a` has acted on `v` for one tick,
/// held to `v_max` in either direction.
pub open spec fn axis_velocity(v: int, a: int, v_max: int) -> int {
    if v + a > v_max {
        v_max
    } else if v + a < -v_max {
        -v_max
    } else {
        v + a
    }
}

/// The position after the velocity `v` has acted on `p` for one tick, held
/// to the range from `p_min` to `p_max`.
pub open spec fn axis_position(p: int, v: int, p_min: int, p_max: int) -> int {
    clamp(p + v, p_min, p_max)
}

/// One tick along one axis: the acceleration follows from the input and
/// the old velocity, the velocity from the new acceleration, the position
/// from the new velocity. Each is stored as far as its type can hold it.
pub open spec fn axis_tick(
    back: bool,
    forth: bool,
    a_max: int,
    v_max: int,
    p_min: int,
    p_max: int,
    v: int,
    p: int,
) -> AxisState {
    let a = saturate_spec(axis_acceleration(back, forth, v, a_max));
    let w = saturate_spec(axis_velocity(v, a, v_max));
    AxisState { a, v: w, p: saturate_spec(axis_position(p, w, p_min, p_max)) }
}

/// The axis after `n` ticks under the same input.
pub open spec fn axis_after(
    back: bool,
    forth: bool,
    a_max: int,
    v_max: int,
    p_min: int,
    p_max: int,
    start: AxisState,
    n: nat,
) -> AxisState
    decreases n,
{
    if n == 0 {
        start
    } else {
        let before = axis_after(back, forth, a_max, v_max, p_min, p_max, start, (n - 1) as nat);
        axis_tick(back, forth, a_max, v_max, p_min, p_max, before.v, before.p)
    }
}

/// The physics of a unit after one tick under `input`.
pub open spec fn moved_physics(input: PlayerInput, physics: PlayerPhysicsComponent, position: PositionView)
    -> PlayerPhysicsComponent {
    let x = axis_tick(
        input.left,
        input.right,
        physics.ax_max as int,
        physics.vx_max as int,
        physics.x_min as int,
        physics.x_max as int,
        physics.vx as int,
        position.x,
    );
    let y = axis_tick(
        input.up,
        input.down,
        physics.ay_max as int,
        physics.vy_max as int,
        physics.y_min as int,
        physics.y_max as int,
        physics.vy as int,
        position.y,
    );
    PlayerPhysicsComponent { ax: x.a as i32, ay: y.a as i32, vx: x.v as i32, vy: y.v as i32, ..physics }
}

/// The position of a unit after one tick under `input`: both coordinates
/// move on by the new velocity, and the old ones become the previous ones.
pub open spec fn moved_position(input: PlayerInput, physics: PlayerPhysicsComponent, position: PositionView)
    -> PositionView {
    let x = axis_tick(
        input.left,
        input.right,
        physics.ax_max as int,
        physics.vx_max as int,
        physics.x_min as int,
        physics.x_max as int,
        physics.vx as int,
        position.x,
    );
    let y = axis_tick(
        input.up,
        input.down,
        physics.ay_max as int,
        physics.vy_max as int,
        physics.y_min as int,
        physics.y_max as int,
        physics.vy as int,
        position.y,
    );
    position.update_x(x.p).update_y(y.p)
}

/// The physics of all entities after a tick: that of every unit, that is of
/// every entity that also has a position, has moved on.
pub open spec fn moved_physics_all(
    input: PlayerInput,
    physics: Map<int, PlayerPhysicsComponent>,
    position: Map<int, PositionComponent>,
) -> Map<int, PlayerPhysicsComponent> {
    Map::new(
        |i: int| physics.contains_key(i),
        |i: int|
            if position.contains_key(i) {
                moved_physics(input, physics[i], position[i]@)
            } else {
                physics[i]
            },
    )
}

/// The positions of all entities after a tick: that of every unit has moved
/// on.
pub open spec fn moved_position_all(
    input: PlayerInput,
    physics: Map<int, PlayerPhysicsComponent>,
    position: Map<int, PositionComponent>,
) -> Map<int, PositionComponent> {
    Map::new(
        |i: int| position.contains_key(i),
        |i: int|
            if physics.contains_key(i) {
                PositionComponent::from_view(moved_position(input, physics[i], position[i]@))
            } else {
                position[i]
            },
    )
}

/// Whether the greatest acceleration and velocity of an axis make sense:
/// neither is negative.
pub open spec fn axis_speed_wf(a_max: int, v_max: int) -> bool {
    &&& 0 <= a_max <= i32::MAX
    &&& 0 <= v_max <= i32::MAX
}

/// Whether the limits of an axis make sense: the greatest acceleration and
/// velocity are not negative, and the range of positions is not empty.
pub open spec fn axis_limits_wf(a_max: int, v_max: int, p_min: int, p_max: int) -> bool {
    &&& axis_speed_wf(a_max, v_max)
    &&& i32::MIN <= p_min <= p_max <= i32::MAX
}

/// Whether the limits of both axes of `physics` make sense.
pub open spec fn physics_limits_wf(physics: PlayerPhysicsComponent) -> bool {
    &&& axis_limits_wf(physics.ax_max as int, physics.vx_max as int, physics.x_min as int, physics.x_max as int)
    &&& axis_limits_wf(physics.ay_max as int, physics.vy_max as int, physics.y_min as int, physics.y_max as int)
}

/// Within sensible limits a tick never runs into the limits of storage: what
/// is stored is the exact result. The velocity stays within `v_max` and the
/// position within its range, whatever they were before.
pub proof fn lemma_axis_tick_exact(
    back: bool,
    forth: bool,
    a_max: int,
    v_max: int,
    p_min: int,
    p_max: int,
    v: int,
    p: int,
)
    requires
        axis_limits_wf(a_max, v_max, p_min, p_max),
        i32::MIN <= v <= i32::MAX,
    ensures
        ({
            let t = axis_tick(back, forth, a_max, v_max, p_min, p_max, v, p);
            &&& t.a == axis_acceleration(back, forth, v, a_max)
            &&& t.v == axis_velocity(v, t.a, v_max)
            &&& t.p == axis_position(p, t.v, p_min, p_max)
            &&& -a_max <= t.a <= a_max
            &&& -v_max <= t.v <= v_max
            &&& p_min <= t.p <= p_max
        }),
{
}

/// Acceleration and velocity take no notice of the position and its range:
/// where the greatest acceleration and velocity make sense, what is stored
/// of them is the exact result, and the velocity stays within `v_max`.
pub proof fn lemma_axis_speed_exact(
    back: bool,
    forth: bool,
    a_max: int,
    v_max: int,
    p_min: int,
    p_max: int,
    v: int,
    p: int,
)
    requires
        axis_speed_wf(a_max, v_max),
        i32::MIN <= v <= i32::MAX,
    ensures
        ({
            let t = axis_tick(back, forth, a_max, v_max, p_min, p_max, v, p);
            &&& t.a == axis_acceleration(back, forth, v, a_max)
            &&& t.v == axis_velocity(v, t.a, v_max)
            &&& -a_max <= t.a <= a_max
            &&& -v_max <= t.v <= v_max
        }),
{
}

/// Braking. With no direction held and the unit in motion, the acceleration
/// points against the velocity and is no greater than the velocity itself or
/// than `a_max`; the new velocity lies between rest and the old velocity, so
/// the unit neither overshoots nor turns round; it is at rest at once where
/// `a_max` suffices, and slower than before wherever `a_max` is not zero.
pub proof fn lemma_braking_tick(a_max: int, v_max: int, p_min: int, p_max: int, v: int, p: int)
    requires
        axis_speed_wf(a_max, v_max),
        -v_max <= v <= v_max,
        v != 0,
    ensures
        ({
            let t = axis_tick(false, false, a_max, v_max, p_min, p_max, v, p);
            &&& v > 0 ==> -v <= t.a <= 0 && -a_max <= t.a
            &&& v < 0 ==> 0 <= t.a <= -v && t.a <= a_max
            &&& t.v == v + t.a
            &&& v > 0 ==> 0 <= t.v <= v
            &&& v < 0 ==> v <= t.v <= 0
            &&& (a_max >= v && a_max >= -v) ==> t.v == 0
            &&& a_max > 0 ==> t.v != v
        }),
{
}

/// The velocity of a unit that started at `v` and has braked for `n` ticks.
pub open spec fn braked_velocity(v: int, a_max: int, n: nat) -> int {
    if v > 0 {
        if v - n * a_max > 0 {
            v - n * a_max
        } else {
            0
        }
    } else {
        if v + n * a_max < 0 {
            v + n * a_max
        } else {
            0
        }
    }
}

/// A unit that is left alone loses `a_max` of its velocity with every tick
/// until it is at rest, and then stays at rest.
pub proof fn lemma_braking_comes_to_rest(
    a_max: int,
    v_max: int,
    p_min: int,
    p_max: int,
    start: AxisState,
    n: nat,
)
    requires
        axis_speed_wf(a_max, v_max),
        -v_max <= start.v <= v_max,
    ensures
        axis_after(false, false, a_max, v_max, p_min, p_max, start, n).v == braked_velocity(start.v, a_max, n),
        (n * a_max >= start.v && n * a_max >= -start.v) ==> axis_after(
            false,
            false,
            a_max,
            v_max,
            p_min,
            p_max,
            start,
            n,
        ).v == 0,
    decreases n,
{
    if n == 0 {
        assert(0 * a_max == 0);
    } else {
        let m = (n - 1) as nat;
        lemma_braking_comes_to_rest(a_max, v_max, p_min, p_max, start, m);
        let before = axis_after(false, false, a_max, v_max, p_min, p_max, start, m);
        assert(n * a_max == m * a_max + a_max) by (nonlinear_arith)
            requires
                n == m + 1,
        ;
        assert(m * a_max >= 0) by (nonlinear_arith)
            requires
                m >= 0,
                a_max >= 0,
        ;
        lemma_axis_speed_exact(false, false, a_max, v_max, p_min, p_max, before.v, before.p);
    }
}

/// A unit that has come to rest stays at rest. Left alone for `n` ticks
/// that take all its velocity, and for any number of ticks more, the unit
/// has no velocity; from the tick after those `n` on it has no acceleration
/// either; and where the range of positions is not empty the position
/// after `n` ticks, if `n` is at least one, is the position ever after.
pub proof fn lemma_axis_rests(
    a_max: int,
    v_max: int,
    p_min: int,
    p_max: int,
    start: AxisState,
    n: nat,
    m: nat,
)
    requires
        axis_speed_wf(a_max, v_max),
        -v_max <= start.v <= v_max,
        n * a_max >= start.v && n * a_max >= -start.v,
        n <= m,
    ensures
        axis_after(false, false, a_max, v_max, p_min, p_max, start, m).v == 0,
        n < m ==> axis_after(false, false, a_max, v_max, p_min, p_max, start, m).a == 0,
        1 <= n && i32::MIN <= p_min <= p_max <= i32::MAX ==> {
            &&& p_min <= axis_after(false, false, a_max, v_max, p_min, p_max, start, m).p <= p_max
            &&& axis_after(false, false, a_max, v_max, p_min, p_max, start, m).p == axis_after(
                false,
                false,
                a_max,
                v_max,
                p_min,
                p_max,
                start,
                n,
            ).p
        },
    decreases m,
{
    assert(m * a_max >= n * a_max) by (nonlinear_arith)
        requires
            m >= n,
            a_max >= 0,
    ;
    lemma_braking_comes_to_rest(a_max, v_max, p_min, p_max, start, m);
    if m > 0 {
        let k = (m - 1) as nat;
        let before = axis_after(false, false, a_max, v_max, p_min, p_max, start, k);
        lemma_braking_comes_to_rest(a_max, v_max, p_min, p_max, start, k);
        assert(k * a_max >= 0) by (nonlinear_arith)
            requires
                k >= 0,
                a_max >= 0,
        ;
        lemma_axis_speed_exact(false, false, a_max, v_max, p_min, p_max, before.v, before.p);
        if n < m {
            lemma_axis_rests(a_max, v_max, p_min, p_max, start, n, k);
        }
    }
}

/// The state of an axis on which the forward direction has been held for
/// `n` ticks, for `n` of at least one: velocity and position are within
/// their limits; the velocity has risen by at least one unit a tick until it
/// reached `v_max`; and from then on the position has risen by at least one
/// unit a tick until it reached `p_max`.
proof fn lemma_pushed_forth(a_max: int, v_max: int, p_min: int, p_max: int, start: AxisState, n: nat)
    requires
        axis_limits_wf(a_max, v_max, p_min, p_max),
        1 <= a_max,
        1 <= v_max,
        i32::MIN <= start.v <= i32::MAX,
        n >= 1,
    ensures
        ({
            let s = axis_after(false, true, a_max, v_max, p_min, p_max, start, n);
            &&& -v_max <= s.v <= v_max
            &&& p_min <= s.p <= p_max
            &&& s.v == v_max || s.v >= -v_max + (n - 1)
            &&& n >= 2 * v_max + 1 ==> s.p == p_max || s.p >= p_min + (n - 2 * v_max - 1)
        }),
    decreases n,
{
    let m = (n - 1) as nat;
    let before = axis_after(false, true, a_max, v_max, p_min, p_max, start, m);
    if m == 0 {
        assert(before == start);
    } else {
        lemma_pushed_forth(a_max, v_max, p_min, p_max, start, m);
    }
    lemma_axis_tick_exact(false, true, a_max, v_max, p_min, p_max, before.v, before.p);
}

/// The same for the backward direction, which wins over the forward one.
proof fn lemma_pushed_back(
    forth: bool,
    a_max: int,
    v_max: int,
    p_min: int,
    p_max: int,
    start: AxisState,
    n: nat,
)
    requires
        axis_limits_wf(a_max, v_max, p_min, p_max),
        1 <= a_max,
        1 <= v_max,
        i32::MIN <= start.v <= i32::MAX,
        n >= 1,
    ensures
        ({
            let s = axis_after(true, forth, a_max, v_max, p_min, p_max, start, n);
            &&& -v_max <= s.v <= v_max
            &&& p_min <= s.p <= p_max
            &&& s.v == -v_max || s.v <= v_max - (n - 1)
            &&& n >= 2 * v_max + 1 ==> s.p == p_min || s.p <= p_max - (n - 2 * v_max - 1)
        }),
    decreases n,
{
    let m = (n - 1) as nat;
    let before = axis_after(true, forth, a_max, v_max, p_min, p_max, start, m);
    if m == 0 {
        assert(before == start);
    } else {
        lemma_pushed_back(forth, a_max, v_max, p_min, p_max, start, m);
    }
    lemma_axis_tick_exact(true, forth, a_max, v_max, p_min, p_max, before.v, before.p);
}

/// The number of ticks after which a held direction has surely driven the
/// unit to the bound of its range.
pub open spec fn ticks_to_bound(v_max: int, p_min: int, p_max: int) -> int {
    2 * v_max + 1 + (p_max - p_min)
}

/// Bounding clamp. A direction that is held for long enough drives the unit
/// to the bound on that side, exactly: from [`ticks_to_bound`] ticks on the
/// position is the bound and the velocity is the greatest allowed, for as
/// long as the direction is held. On the way the position never leaves its
/// range.
pub proof fn lemma_held_direction_reaches_bound(
    back: bool,
    forth: bool,
    a_max: int,
    v_max: int,
    p_min: int,
    p_max: int,
    start: AxisState,
    n: nat,
)
    requires
        axis_limits_wf(a_max, v_max, p_min, p_max),
        1 <= a_max,
        1 <= v_max,
        i32::MIN <= start.v <= i32::MAX,
        back || forth,
        n >= 1,
    ensures
        ({
            let s = axis_after(back, forth, a_max, v_max, p_min, p_max, start, n);
            &&& p_min <= s.p <= p_max
            &&& n >= ticks_to_bound(v_max, p_min, p_max) ==> if back {
                s.p == p_min && s.v == -v_max
            } else {
                s.p == p_max && s.v == v_max
            }
        }),
{
    if back {
        lemma_pushed_back(forth, a_max, v_max, p_min, p_max, start, n);
    } else {
        lemma_pushed_forth(a_max, v_max, p_min, p_max, start, n);
    }
}

/// Physics and position of a unit after `n` ticks under the same input.
pub open spec fn moved_after(
    input: PlayerInput,
    physics: PlayerPhysicsComponent,
    position: PositionView,
    n: nat,
) -> (PlayerPhysicsComponent, PositionView)
    decreases n,
{
    if n == 0 {
        (physics, position)
    } else {
        let before = moved_after(input, physics, position, (n - 1) as nat);
        (moved_physics(input, before.0, before.1), moved_position(input, before.0, before.1))
    }
}

/// The horizontal axis of a unit.
pub open spec fn x_axis(physics: PlayerPhysicsComponent, position: PositionView) -> AxisState {
    AxisState { a: physics.ax as int, v: physics.vx as int, p: position.x }
}

/// The vertical axis of a unit.
pub open spec fn y_axis(physics: PlayerPhysicsComponent, position: PositionView) -> AxisState {
    AxisState { a: physics.ay as int, v: physics.vy as int, p: position.y }
}

/// A unit moves on each axis by itself: left and right act on the
/// horizontal axis, up and down on the vertical one, and the limits never
/// change.
pub proof fn lemma_moved_after_by_axis(
    input: PlayerInput,
    physics: PlayerPhysicsComponent,
    position: PositionView,
    n: nat,
)
    ensures
        ({
            let after = moved_after(input, physics, position, n);
            &&& x_axis(after.0, after.1) == axis_after(
                input.left,
                input.right,
                physics.ax_max as int,
                physics.vx_max as int,
                physics.x_min as int,
                physics.x_max as int,
                x_axis(physics, position),
                n,
            )
            &&& y_axis(after.0, after.1) == axis_after(
                input.up,
                input.down,
                physics.ay_max as int,
                physics.vy_max as int,
                physics.y_min as int,
                physics.y_max as int,
                y_axis(physics, position),
                n,
            )
            &&& after.0 == (PlayerPhysicsComponent {
                ax: after.0.ax,
                ay: after.0.ay,
                vx: after.0.vx,
                vy: after.0.vy,
                ..physics
            })
        }),
    decreases n,
{
    if n > 0 {
        lemma_moved_after_by_axis(input, physics, position, (n - 1) as nat);
    }
}

/// Bounding clamp, for the unit as a whole. Where the limits make sense and
/// let the unit move at all, a direction held for at least as many ticks as
/// [`ticks_to_bound`] counts for its axis leaves the unit exactly on the
/// bound of that side: left on `x_min`, right on `x_max`, up on `y_min` and
/// down on `y_max`. Left wins over right and up over down.
pub proof fn lemma_unit_reaches_bound(
    input: PlayerInput,
    physics: PlayerPhysicsComponent,
    position: PositionView,
    n: nat,
)
    requires
        physics_limits_wf(physics),
        physics.ax_max >= 1 && physics.vx_max >= 1,
        physics.ay_max >= 1 && physics.vy_max >= 1,
    ensures
        ({
            let after = moved_after(input, physics, position, n).1;
            let nx = ticks_to_bound(physics.vx_max as int, physics.x_min as int, physics.x_max as int);
            let ny = ticks_to_bound(physics.vy_max as int, physics.y_min as int, physics.y_max as int);
            &&& n >= nx && input.left ==> after.x == physics.x_min
            &&& n >= nx && !input.left && input.right ==> after.x == physics.x_max
            &&& n >= ny && input.up ==> after.y == physics.y_min
            &&& n >= ny && !input.up && input.down ==> after.y == physics.y_max
        }),
{
    lemma_moved_after_by_axis(input, physics, position, n);
    if n >= 1 {
        if input.left || input.right {
            lemma_held_direction_reaches_bound(
                input.left,
                input.right,
                physics.ax_max as int,
                physics.vx_max as int,
                physics.x_min as int,
                physics.x_max as int,
                x_axis(physics, position),
                n,
            );
        }
        if input.up || input.down {
            lemma_held_direction_reaches_bound(
                input.up,
                input.down,
                physics.ay_max as int,
                physics.vy_max as int,
                physics.y_min as int,
                physics.y_max as int,
                y_axis(physics, position),
                n,
            );
        }
    }
}

/// Braking, for the unit as a whole and over any number of ticks. With
/// neither left nor right held, a unit whose horizontal velocity is within
/// its limit is at rest horizontally after `n` ticks, where `n` ticks of
/// the greatest acceleration take all its velocity, and after any number
/// `m` of ticks from `n` on: its velocity is zero, and from the tick after
/// the `n`-th on so is its acceleration. Where `x_min` is not above `x_max`
/// and `n` is at least one, the horizontal position reached with the `n`-th
/// tick is kept, and from the tick after on the previous position is that
/// position too.
pub proof fn lemma_unit_rests_x(
    input: PlayerInput,
    physics: PlayerPhysicsComponent,
    position: PositionView,
    n: nat,
    m: nat,
)
    requires
        !input.left && !input.right,
        physics.ax_max >= 0,
        -physics.vx_max <= physics.vx <= physics.vx_max,
        n * physics.ax_max >= physics.vx && n * physics.ax_max >= -physics.vx,
        n <= m,
    ensures
        moved_after(input, physics, position, m).0.vx == 0,
        n < m ==> moved_after(input, physics, position, m).0.ax == 0,
        1 <= n && physics.x_min <= physics.x_max ==> {
            &&& moved_after(input, physics, position, m).1.x == moved_after(input, physics, position, n).1.x
            &&& n < m ==> moved_after(input, physics, position, m).1.previous_x == moved_after(
                input,
                physics,
                position,
                n,
            ).1.x
        },
{
    lemma_moved_after_by_axis(input, physics, position, m);
    lemma_moved_after_by_axis(input, physics, position, n);
    lemma_axis_rests(
        physics.ax_max as int,
        physics.vx_max as int,
        physics.x_min as int,
        physics.x_max as int,
        x_axis(physics, position),
        n,
        m,
    );
    if n < m {
        let k = (m - 1) as nat;
        lemma_moved_after_by_axis(input, physics, position, k);
        lemma_axis_rests(
            physics.ax_max as int,
            physics.vx_max as int,
            physics.x_min as int,
            physics.x_max as int,
            x_axis(physics, position),
            n,
            k,
        );
    }
}

/// The same for the vertical axis, with neither up nor down held.
pub proof fn lemma_unit_rests_y(
    input: PlayerInput,
    physics: PlayerPhysicsComponent,
    position: PositionView,
    n: nat,
    m: nat,
)
    requires
        !input.up && !input.down,
        physics.ay_max >= 0,
        -physics.vy_max <= physics.vy <= physics.vy_max,
        n * physics.ay_max >= physics.vy && n * physics.ay_max >= -physics.vy,
        n <= m,
    ensures
        moved_after(input, physics, position, m).0.vy == 0,
        n < m ==> moved_after(input, physics, position, m).0.ay == 0,
        1 <= n && physics.y_min <= physics.y_max ==> {
            &&& moved_after(input, physics, position, m).1.y == moved_after(input, physics, position, n).1.y
            &&& n < m ==> moved_after(input, physics, position, m).1.previous_y == moved_after(
                input,
                physics,
                position,
                n,
            ).1.y
        },
{
    lemma_moved_after_by_axis(input, physics, position, m);
    lemma_moved_after_by_axis(input, physics, position, n);
    lemma_axis_rests(
        physics.ay_max as int,
        physics.vy_max as int,
        physics.y_min as int,
        physics.y_max as int,
        y_axis(physics, position),
        n,
        m,
    );
    if n < m {
        let k = (m - 1) as nat;
        lemma_moved_after_by_axis(input, physics, position, k);
        lemma_axis_rests(
            physics.ay_max as int,
            physics.vy_max as int,
            physics.y_min as int,
            physics.y_max as int,
            y_axis(physics, position),
            n,
            k,
        );
    }
}

/// Acceleration and velocity of one axis after a tick.
fn accelerate(back: bool, forth: bool, a_max: i32, v_max: i32, v: i32) -> (r: (i32, i32))
    ensures
        r.0 as int == saturate_spec(axis_acceleration(back, forth, v as int, a_max as int)),
        r.1 as int == saturate_spec(axis_velocity(v as int, r.0 as int, v_max as int)),
{
    let a_max_wide: i64 = a_max as i64;
    let v_wide: i64 = v as i64;
    let a_wide: i64 = if back {
        -a_max_wide
    } else if forth {
        a_max_wide
    } else if v_wide < 0 {
        if a_max_wide < -v_wide {
            a_max_wide
        } else {
            -v_wide
        }
    } else if v_wide > 0 {
        if -a_max_wide > -v_wide {
            -a_max_wide
        } else {
            -v_wide
        }
    } else {
        0
    };
    let a = saturate(a_wide);
    let v_max_wide: i64 = v_max as i64;
    let sum: i64 = v_wide + a as i64;
    let w_wide: i64 = if sum > v_max_wide {
        v_max_wide
    } else if sum < -v_max_wide {
        -v_max_wide
    } else {
        sum
    };
    (a, saturate(w_wide))
}

/// The position on one axis after the velocity `v` has acted for a tick.
fn advance(p: i32, v: i32, p_min: i32, p_max: i32) -> (r: i32)
    ensures
        r as int == saturate_spec(axis_position(p as int, v as int, p_min as int, p_max as int)),
{
    let q: i64 = p as i64 + v as i64;
    if q < p_min as i64 {
        p_min
    } else if q > p_max as i64 {
        p_max
    } else {
        saturate(q)
    }
}

/// Derives acceleration from the input, integrates velocity and position,
/// and holds each within its limits.
pub struct PlayerMovementSystem;

impl PlayerMovementSystem {
    /// Moves one unit by one tick.
    pub fn step(input: &PlayerInput, physics: &mut PlayerPhysicsComponent, position: &mut PositionComponent)
        ensures
            *final(physics) == moved_physics(*input, *old(physics), old(position)@),
            final(position)@ == moved_position(*input, *old(physics), old(position)@),
    {
        let (ax, vx) = accelerate(input.left, input.right, physics.ax_max, physics.vx_max, physics.vx);
        let (ay, vy) = accelerate(input.up, input.down, physics.ay_max, physics.vy_max, physics.vy);
        physics.ax = ax;
        physics.ay = ay;
        physics.vx = vx;
        physics.vy = vy;
        let x = advance(position.x(), vx, physics.x_min, physics.x_max);
        position.update_x(x);
        let y = advance(position.y(), vy, physics.y_min, physics.y_max);
        position.update_y(y);
    }

    /// Moves every unit, that is every entity with both physics and a
    /// position, by one tick. Nothing else changes, and no component is
    /// added or removed.
    pub fn run(
        &mut self,
        input: &PlayerInput,
        physics: &mut Storage<PlayerPhysicsComponent>,
        position: &mut Storage<PositionComponent>,
    )
        ensures
            final(physics)@ == moved_physics_all(*input, old(physics)@, old(position)@),
            final(position)@ == moved_position_all(*input, old(physics)@, old(position)@),
    {
        let n = physics.extent();
        let mut slot: usize = 0;
        while slot < n
            invariant
                slot <= n,
                forall|i: int| #[trigger] old(physics)@.contains_key(i) ==> 0 <= i < n,
                physics@.dom() == old(physics)@.dom(),
                position@.dom() == old(position)@.dom(),
                forall|i: int| #[trigger]
                    old(physics)@.contains_key(i) ==> physics@[i] == if i < slot && old(position)@.contains_key(i) {
                        moved_physics(*input, old(physics)@[i], old(position)@[i]@)
                    } else {
                        old(physics)@[i]
                    },
                forall|i: int| #[trigger]
                    old(position)@.contains_key(i) ==> if i < slot && old(physics)@.contains_key(i) {
                        position@[i]@ == moved_position(*input, old(physics)@[i], old(position)@[i]@)
                    } else {
                        position@[i] == old(position)@[i]
                    },
            decreases n - slot,
        {
            let ghost physics_before = physics@;
            let ghost position_before = position@;
            match (physics.get_mut(slot), position.get_mut(slot)) {
                (Some(unit_physics), Some(unit_position)) => {
                    Self::step(input, unit_physics, unit_position);
                },
                _ => {},
            }
            assert(physics@.dom() =~= physics_before.dom());
            assert(position@.dom() =~= position_before.dom());
            slot += 1;
        }
        proof {
            assert forall|i: int| #[trigger] position@.contains_key(i) implies position@[i] == moved_position_all(
                *input,
                old(physics)@,
                old(position)@,
            )[i] by {
                position@[i].lemma_view();
            }
            assert(position@ =~= moved_position_all(*input, old(physics)@, old(position)@));
            assert(physics@ =~= moved_physics_all(*input, old(physics)@, old(position)@));
        }
    }
}

} // verus!

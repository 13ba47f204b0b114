//! The simulation state and its two entry points: `update`, which advances
//! the game by one tick, and `event`, which reacts to a pointer move.

use vstd::prelude::*;
use crate::collision::Edge;
use crate::collision::detect_spec;
use crate::geometry::Brick;
use crate::geometry::BrickModel;
use crate::geometry::RectModel;
use crate::geometry::Rectangle;
use crate::num::abs64;
use crate::num::iabs;
use crate::num::imax;
use crate::num::imin;
use crate::num::lemma_square_bound;
use crate::num::max64;
use crate::num::min64;

verus! {

/// Width of the paddle, in pixels.
pub const PAD_WIDTH: i64 = 100;

/// Half the paddle's width; the paddle is centered under the pointer.
pub const PAD_WIDTH_HALF: i64 = 50;

/// Diameter of the ball's bounding box, in pixels.
pub const BALL_WIDTH: i64 = 50;

/// Radius of the ball.
pub const BALL_WIDTH_RADIUS: i64 = 25;

/// Height of the paddle, in pixels.
pub const PAD_HEIGHT: i64 = 20;

/// Default lower bound of the paddle's vertical travel band.
pub const PAD_MIN_HEIGHT: i64 = 800;

/// Default upper bound of the paddle's vertical travel band.
pub const PAD_MAX_HEIGHT: i64 = 950;

/// Bound on every coordinate a well-formed simulation holds.  It is far
/// beyond the arena (the arena is 1024 pixels wide) and exists only so that
/// the collision arithmetic provably stays inside `i64`.
pub const COORD_MAX: i64 = 0x100_0000;

/// Bound on the arguments of the collision detector, wide enough to admit a
/// predicted position (position plus velocity) of a well-formed state.
pub const DETECT_MAX: i64 = 0x400_0000;

/// Mathematical image of the whole simulation state.
#[verifier::ext_equal]
pub ghost struct AppModel {
    pub ball_x: int,
    pub ball_y: int,
    pub ball_dx: int,
    pub ball_dy: int,
    pub pad_x: int,
    pub pad_y: int,
    pub pad_dx: int,
    pub pad_dy: int,
    pub pad_min_y: int,
    pub pad_max_y: int,
    pub edges: Seq<RectModel>,
    pub bricks: Seq<BrickModel>,
}

/// The simulation state: ball position (top-left of its bounding box) and
/// velocity, paddle position (top-left) and last displacement, the paddle's
/// vertical travel band, the fixed wall rectangles, and the brick grid.
pub struct App {
    pub ball_x: i64,
    pub ball_y: i64,
    pub ball_dx: i64,
    pub ball_dy: i64,
    pub pad_x: i64,
    pub pad_y: i64,
    pub pad_dx: i64,
    pub pad_dy: i64,
    pub pad_min_y: i64,
    pub pad_max_y: i64,
    pub edges: Vec<Rectangle>,
    pub bricks: Vec<Brick>,
}

impl View for App {
    type V = AppModel;

    open spec fn view(&self) -> AppModel {
        AppModel {
            ball_x: self.ball_x as int,
            ball_y: self.ball_y as int,
            ball_dx: self.ball_dx as int,
            ball_dy: self.ball_dy as int,
            pad_x: self.pad_x as int,
            pad_y: self.pad_y as int,
            pad_dx: self.pad_dx as int,
            pad_dy: self.pad_dy as int,
            pad_min_y: self.pad_min_y as int,
            pad_max_y: self.pad_max_y as int,
            edges: self.edges@.map_values(|r: Rectangle| r@),
            bricks: self.bricks@.map_values(|b: Brick| b@),
        }
    }
}

/// A rectangle whose coordinates the simulation arithmetic can take.
pub open spec fn rect_in_bounds(r: RectModel) -> bool {
    &&& iabs(r.x) <= COORD_MAX
    &&& iabs(r.y) <= COORD_MAX
    &&& 0 <= r.width <= COORD_MAX
    &&& 0 <= r.height <= COORD_MAX
}

/// A brick whose coordinates the simulation arithmetic can take.
pub open spec fn brick_in_bounds(b: BrickModel) -> bool {
    &&& iabs(b.x) <= COORD_MAX
    &&& iabs(b.y) <= COORD_MAX
    &&& 0 <= b.width <= COORD_MAX
    &&& 0 <= b.height <= COORD_MAX
}

/// One velocity component after the paddle's response: reverse it, subtract
/// the paddle's displacement on the same axis, and clamp to `[-5, 5]`.
pub open spec fn pad_bounce(v: int, d: int) -> int {
    imin(imax(-v - d, -5), 5)
}

/// The ball's velocity after the paddle's response to a collision outcome.
/// The component named by the struck face reverses, takes the paddle's
/// momentum, and is clamped; the other component is untouched.
pub open spec fn pad_response(dx: int, dy: int, pad_dx: int, pad_dy: int, hit: Option<Edge>) -> (
    int,
    int,
) {
    match hit {
        Some(Edge::Both) => (pad_bounce(dx, pad_dx), pad_bounce(dy, pad_dy)),
        Some(Edge::HorizontalEdge) => (dx, pad_bounce(dy, pad_dy)),
        Some(Edge::VerticalEdge) => (pad_bounce(dx, pad_dx), dy),
        None => (dx, dy),
    }
}

/// The ball's velocity after a plain reflection off a wall or a brick: the
/// component named by the struck face flips sign.
pub open spec fn reflect(dx: int, dy: int, hit: Option<Edge>) -> (int, int) {
    match hit {
        Some(Edge::Both) => (-dx, -dy),
        Some(Edge::HorizontalEdge) => (dx, -dy),
        Some(Edge::VerticalEdge) => (-dx, dy),
        None => (dx, dy),
    }
}

/// The outcome of the detector for a wall rectangle against the ball's
/// predicted position (current position plus current velocity).
pub open spec fn edge_hit(r: RectModel, ball_x: int, ball_y: int, dx: int, dy: int) -> Option<
    Edge,
> {
    detect_spec(r.x, r.y, r.width, r.height, ball_x + dx, ball_y + dy, BALL_WIDTH_RADIUS as int)
}

/// The outcome of the detector for a brick against the ball's predicted
/// position.
pub open spec fn brick_hit(b: BrickModel, ball_x: int, ball_y: int, dx: int, dy: int) -> Option<
    Edge,
> {
    detect_spec(b.x, b.y, b.width, b.height, ball_x + dx, ball_y + dy, BALL_WIDTH_RADIUS as int)
}

/// The ball's velocity after testing the walls in order.  Each wall is tested
/// against the position predicted with the velocity as already reflected by
/// the walls before it, and every hit is applied; nothing short-circuits.
pub open spec fn run_edges(edges: Seq<RectModel>, ball_x: int, ball_y: int, dx: int, dy: int) -> (
    int,
    int,
)
    decreases edges.len(),
{
    if edges.len() == 0 {
        (dx, dy)
    } else {
        let v = reflect(dx, dy, edge_hit(edges[0], ball_x, ball_y, dx, dy));
        run_edges(edges.drop_first(), ball_x, ball_y, v.0, v.1)
    }
}

/// The ball's velocity and the brick grid after testing the bricks in order.
/// A broken brick is skipped.  An unbroken brick that the predicted position
/// strikes reflects the velocity and breaks; two bricks struck in one tick
/// each apply their reflection.
pub open spec fn run_bricks(
    bricks: Seq<BrickModel>,
    ball_x: int,
    ball_y: int,
    dx: int,
    dy: int,
) -> (int, int, Seq<BrickModel>)
    decreases bricks.len(),
{
    if bricks.len() == 0 {
        (dx, dy, bricks)
    } else {
        let b = bricks[0];
        if !b.state {
            let hit = brick_hit(b, ball_x, ball_y, dx, dy);
            let v = reflect(dx, dy, hit);
            let b1 = BrickModel { state: hit is Some, ..b };
            let rest = run_bricks(bricks.drop_first(), ball_x, ball_y, v.0, v.1);
            (rest.0, rest.1, seq![b1] + rest.2)
        } else {
            let rest = run_bricks(bricks.drop_first(), ball_x, ball_y, dx, dy);
            (rest.0, rest.1, seq![b] + rest.2)
        }
    }
}

/// The outcome of the detector for the paddle against the ball's predicted
/// position.
pub open spec fn pad_hit(s: AppModel) -> Option<Edge> {
    detect_spec(
        s.pad_x,
        s.pad_y,
        PAD_WIDTH as int,
        PAD_HEIGHT as int,
        s.ball_x + s.ball_dx,
        s.ball_y + s.ball_dy,
        BALL_WIDTH_RADIUS as int,
    )
}

/// One tick of the simulation: the paddle responds first to the predicted
/// position, then the walls, then the bricks — each stage predicting with the
/// velocity as the stages before it left it — and finally the current
/// position integrates the updated velocity.
pub open spec fn tick_spec(s: AppModel) -> AppModel {
    let v1 = pad_response(s.ball_dx, s.ball_dy, s.pad_dx, s.pad_dy, pad_hit(s));
    let v2 = run_edges(s.edges, s.ball_x, s.ball_y, v1.0, v1.1);
    let r3 = run_bricks(s.bricks, s.ball_x, s.ball_y, v2.0, v2.1);
    AppModel {
        ball_x: s.ball_x + r3.0,
        ball_y: s.ball_y + r3.1,
        ball_dx: r3.0,
        ball_dy: r3.1,
        bricks: r3.2,
        ..s
    }
}

/// A value clamped into the paddle's vertical travel band `[lo, hi]`.
pub open spec fn band_clamp(v: int, lo: int, hi: int) -> int {
    imax(imin(v, hi), lo)
}

/// The state after a pointer move to `(x, y)`.  A rectangle swept over the
/// paddle's old and new position (both clamped into the travel band) is
/// tested against the ball's current position; on a hit the ball's velocity
/// takes the paddle response.  The paddle's displacement is recorded, and the
/// paddle follows the pointer — centered under it horizontally, clamped into
/// the band vertically — except that on a hit it is left flush against the
/// ball on the side of contact instead of tunneling through it.
pub open spec fn event_spec(s: AppModel, x: int, y: int) -> AppModel {
    let min_x = imin(x, s.pad_x);
    let min_y = band_clamp(imin(y, s.pad_y), s.pad_min_y, s.pad_max_y);
    let max_x = imax(x, s.pad_x);
    let max_y = band_clamp(imax(y, s.pad_y), s.pad_min_y, s.pad_max_y);
    let hit = detect_spec(
        min_x,
        min_y,
        max_x - min_x,
        max_y - min_y,
        s.ball_x,
        s.ball_y,
        BALL_WIDTH_RADIUS as int,
    );
    let v = pad_response(s.ball_dx, s.ball_dy, s.pad_dx, s.pad_dy, hit);
    let pad_dx1 = s.pad_x - x + PAD_WIDTH_HALF;
    let pad_dy1 = s.pad_y - y;
    let hit_h = hit == Some(Edge::Both) || hit == Some(Edge::HorizontalEdge);
    let hit_v = hit == Some(Edge::Both) || hit == Some(Edge::VerticalEdge);
    let pad_y1 = if s.pad_y + PAD_HEIGHT > s.ball_y + BALL_WIDTH && y < s.ball_y + BALL_WIDTH
        && hit_h {
        band_clamp(s.ball_y + BALL_WIDTH, s.pad_min_y, s.pad_max_y)
    } else if s.pad_y < s.ball_y && y > s.ball_y && hit_h {
        band_clamp(s.ball_y, s.pad_min_y, s.pad_max_y)
    } else {
        band_clamp(y, s.pad_min_y, s.pad_max_y)
    };
    let pad_x1 = if s.pad_x + PAD_WIDTH > s.ball_x + BALL_WIDTH && x < s.ball_x + BALL_WIDTH
        && hit_v {
        s.ball_x + BALL_WIDTH
    } else if s.pad_x < s.ball_x && x > s.ball_x && hit_v {
        s.ball_x
    } else {
        x - PAD_WIDTH_HALF
    };
    AppModel {
        ball_dx: v.0,
        ball_dy: v.1,
        pad_x: pad_x1,
        pad_y: pad_y1,
        pad_dx: pad_dx1,
        pad_dy: pad_dy1,
        ..s
    }
}

impl App {
    /// Well-formedness of the simulation state: every coordinate is within
    /// `COORD_MAX`, the travel band is a nonempty interval, and the paddle
    /// sits inside it.
    pub open spec fn wf(&self) -> bool {
        &&& iabs(self.ball_x as int) <= COORD_MAX
        &&& iabs(self.ball_y as int) <= COORD_MAX
        &&& iabs(self.ball_dx as int) <= COORD_MAX
        &&& iabs(self.ball_dy as int) <= COORD_MAX
        &&& iabs(self.pad_x as int) <= COORD_MAX
        &&& iabs(self.pad_dx as int) <= COORD_MAX
        &&& iabs(self.pad_dy as int) <= COORD_MAX
        &&& -COORD_MAX <= self.pad_min_y
        &&& self.pad_min_y <= self.pad_max_y
        &&& self.pad_max_y <= COORD_MAX
        &&& self.pad_min_y <= self.pad_y <= self.pad_max_y
        &&& forall|i: int|
            0 <= i < self.edges@.len() ==> rect_in_bounds(#[trigger] self.edges@[i]@)
        &&& forall|i: int|
            0 <= i < self.bricks@.len() ==> brick_in_bounds(#[trigger] self.bricks@[i]@)
    }

    /// The closest-point collision test between the ball and a rectangle,
    /// over machine integers: exactly the outcome of [`detect_spec`].
    pub fn detect_collision(
        x: i64,
        y: i64,
        width: i64,
        height: i64,
        ball_x: i64,
        ball_y: i64,
        radius: i64,
    ) -> (hit: Option<Edge>)
        requires
            iabs(x as int) <= DETECT_MAX,
            iabs(y as int) <= DETECT_MAX,
            iabs(width as int) <= DETECT_MAX,
            iabs(height as int) <= DETECT_MAX,
            iabs(ball_x as int) <= DETECT_MAX,
            iabs(ball_y as int) <= DETECT_MAX,
            0 <= radius <= DETECT_MAX,
        ensures
            hit == detect_spec(
                x as int,
                y as int,
                width as int,
                height as int,
                ball_x as int,
                ball_y as int,
                radius as int,
            ),
    {
        let ball_centerpoint_x = ball_x + radius;
        let ball_centerpoint_y = ball_y + radius;

        let closest_x = min64(max64(ball_centerpoint_x, x), x + width);
        let closest_y = min64(max64(ball_centerpoint_y, y), y + height);

        let distance_x = ball_centerpoint_x - closest_x;
        let distance_y = ball_centerpoint_y - closest_y;
        proof {
            lemma_square_bound(distance_x as int, 4 * DETECT_MAX as int);
            lemma_square_bound(distance_y as int, 4 * DETECT_MAX as int);
            lemma_square_bound(radius as int, DETECT_MAX as int);
        }
        let distance_squared = distance_x * distance_x + distance_y * distance_y;

        if distance_squared < radius * radius {
            let abs_dx = abs64(distance_x);
            let abs_dy = abs64(distance_y);
            let vertical_collision = abs_dx < radius - 1 && abs_dy > 1;
            let horizontal_collision = abs_dy < radius - 1 && abs_dx > 1;

            if vertical_collision && horizontal_collision {
                Some(Edge::Both)
            } else if vertical_collision {
                Some(Edge::HorizontalEdge)
            } else if horizontal_collision {
                Some(Edge::VerticalEdge)
            } else {
                Some(Edge::Both)
            }
        } else {
            None
        }
    }

    /// One tick of the simulation, exactly [`tick_spec`] of the old state:
    /// the paddle, the walls, and the unbroken bricks are each tested against
    /// the ball's predicted position and reflect its velocity in that order,
    /// struck bricks break, and the updated velocity is added to the current
    /// position.
    pub fn update(&mut self)
        requires
            old(self).wf(),
        ensures
            final(self)@ == tick_spec(old(self)@),
    {
        let ghost s0 = self@;
        let ghost edges0 = self.edges@;
        let ghost bricks0 = self.bricks@;

        let pad_hit = App::detect_collision(
            self.pad_x,
            self.pad_y,
            PAD_WIDTH,
            PAD_HEIGHT,
            self.ball_x + self.ball_dx,
            self.ball_y + self.ball_dy,
            BALL_WIDTH_RADIUS,
        );
        match pad_hit {
            Some(Edge::Both) => {
                self.ball_dx = min64(max64(-self.ball_dx - self.pad_dx, -5), 5);
                self.ball_dy = min64(max64(-self.ball_dy - self.pad_dy, -5), 5);
            },
            Some(Edge::HorizontalEdge) => {
                self.ball_dy = min64(max64(-self.ball_dy - self.pad_dy, -5), 5);
            },
            Some(Edge::VerticalEdge) => {
                self.ball_dx = min64(max64(-self.ball_dx - self.pad_dx, -5), 5);
            },
            None => {},
        }
        let ghost vx1 = self.ball_dx as int;
        let ghost vy1 = self.ball_dy as int;
        proof {
            let v1 = pad_response(
                s0.ball_dx,
                s0.ball_dy,
                s0.pad_dx,
                s0.pad_dy,
                detect_spec(
                    s0.pad_x,
                    s0.pad_y,
                    PAD_WIDTH as int,
                    PAD_HEIGHT as int,
                    s0.ball_x + s0.ball_dx,
                    s0.ball_y + s0.ball_dy,
                    BALL_WIDTH_RADIUS as int,
                ),
            );
            assert((vx1, vy1) == v1);
            assert forall|j: int| 0 <= j < s0.edges.len() implies rect_in_bounds(
                #[trigger] s0.edges[j],
            ) by {
                assert(s0.edges[j] == edges0[j]@);
            }
            assert forall|j: int| 0 <= j < s0.bricks.len() implies brick_in_bounds(
                #[trigger] s0.bricks[j],
            ) by {
                assert(s0.bricks[j] == bricks0[j]@);
            }
            assert(s0.edges.skip(0) =~= s0.edges);
        }

        let mut i: usize = 0;
        while i < self.edges.len()
            invariant
                i <= self.edges.len(),
                self.edges@ == edges0,
                self.bricks@ == bricks0,
                s0.edges.len() == edges0.len(),
                self.ball_x as int == s0.ball_x,
                self.ball_y as int == s0.ball_y,
                self.pad_x as int == s0.pad_x,
                self.pad_y as int == s0.pad_y,
                self.pad_dx as int == s0.pad_dx,
                self.pad_dy as int == s0.pad_dy,
                self.pad_min_y as int == s0.pad_min_y,
                self.pad_max_y as int == s0.pad_max_y,
                iabs(s0.ball_x) <= COORD_MAX,
                iabs(s0.ball_y) <= COORD_MAX,
                iabs(self.ball_dx as int) <= COORD_MAX,
                iabs(self.ball_dy as int) <= COORD_MAX,
                forall|j: int| 0 <= j < s0.edges.len() ==> rect_in_bounds(#[trigger] s0.edges[j]),
                forall|j: int| 0 <= j < s0.edges.len() ==> #[trigger] s0.edges[j] == edges0[j]@,
                run_edges(s0.edges, s0.ball_x, s0.ball_y, vx1, vy1) == run_edges(
                    s0.edges.skip(i as int),
                    s0.ball_x,
                    s0.ball_y,
                    self.ball_dx as int,
                    self.ball_dy as int,
                ),
            decreases self.edges.len() - i,
        {
            proof {
                assert(s0.edges.skip(i as int)[0] == s0.edges[i as int]);
                assert(s0.edges.skip(i as int).drop_first() =~= s0.edges.skip(i as int + 1));
                assert(s0.edges[i as int] == edges0[i as int]@);
            }
            let r = self.edges[i];
            let hit = App::detect_collision(
                r.x,
                r.y,
                r.width,
                r.height,
                self.ball_x + self.ball_dx,
                self.ball_y + self.ball_dy,
                BALL_WIDTH_RADIUS,
            );
            match hit {
                Some(Edge::Both) => {
                    self.ball_dx = -self.ball_dx;
                    self.ball_dy = -self.ball_dy;
                },
                Some(Edge::HorizontalEdge) => {
                    self.ball_dy = -self.ball_dy;
                },
                Some(Edge::VerticalEdge) => {
                    self.ball_dx = -self.ball_dx;
                },
                None => {},
            }
            i = i + 1;
        }
        let ghost vx2 = self.ball_dx as int;
        let ghost vy2 = self.ball_dy as int;
        proof {
            assert(s0.edges.skip(s0.edges.len() as int) =~= Seq::<RectModel>::empty());
            assert(run_edges(s0.edges, s0.ball_x, s0.ball_y, vx1, vy1) == (vx2, vy2));
            assert(s0.bricks.skip(0) =~= s0.bricks);
            assert(self@.bricks.take(0) + run_bricks(s0.bricks, s0.ball_x, s0.ball_y, vx2, vy2).2
                =~= run_bricks(s0.bricks, s0.ball_x, s0.ball_y, vx2, vy2).2);
        }

        let mut i: usize = 0;
        while i < self.bricks.len()
            invariant
                i <= self.bricks.len(),
                self.edges@ == edges0,
                self.bricks@.len() == bricks0.len(),
                s0.bricks.len() == bricks0.len(),
                self.ball_x as int == s0.ball_x,
                self.ball_y as int == s0.ball_y,
                self.pad_x as int == s0.pad_x,
                self.pad_y as int == s0.pad_y,
                self.pad_dx as int == s0.pad_dx,
                self.pad_dy as int == s0.pad_dy,
                self.pad_min_y as int == s0.pad_min_y,
                self.pad_max_y as int == s0.pad_max_y,
                iabs(s0.ball_x) <= COORD_MAX,
                iabs(s0.ball_y) <= COORD_MAX,
                iabs(self.ball_dx as int) <= COORD_MAX,
                iabs(self.ball_dy as int) <= COORD_MAX,
                forall|j: int| i as int <= j < bricks0.len() ==> self.bricks@[j] == bricks0[j],
                forall|j: int|
                    0 <= j < s0.bricks.len() ==> brick_in_bounds(#[trigger] s0.bricks[j]),
                forall|j: int| 0 <= j < s0.bricks.len() ==> #[trigger] s0.bricks[j] == bricks0[j]@,
                run_bricks(s0.bricks, s0.ball_x, s0.ball_y, vx2, vy2).0 == run_bricks(
                    s0.bricks.skip(i as int),
                    s0.ball_x,
                    s0.ball_y,
                    self.ball_dx as int,
                    self.ball_dy as int,
                ).0,
                run_bricks(s0.bricks, s0.ball_x, s0.ball_y, vx2, vy2).1 == run_bricks(
                    s0.bricks.skip(i as int),
                    s0.ball_x,
                    s0.ball_y,
                    self.ball_dx as int,
                    self.ball_dy as int,
                ).1,
                run_bricks(s0.bricks, s0.ball_x, s0.ball_y, vx2, vy2).2 == self@.bricks.take(
                    i as int,
                ) + run_bricks(
                    s0.bricks.skip(i as int),
                    s0.ball_x,
                    s0.ball_y,
                    self.ball_dx as int,
                    self.ball_dy as int,
                ).2,
            decreases self.bricks.len() - i,
        {
            let ghost pre_bricks = self@.bricks;
            proof {
                assert(s0.bricks.skip(i as int)[0] == s0.bricks[i as int]);
                assert(s0.bricks.skip(i as int).drop_first() =~= s0.bricks.skip(i as int + 1));
                assert(self.bricks@[i as int] == bricks0[i as int]);
                assert(s0.bricks[i as int] == bricks0[i as int]@);
            }
            let b = self.bricks[i];
            if !b.state {
                let hit = App::detect_collision(
                    b.x,
                    b.y,
                    b.width,
                    b.height,
                    self.ball_x + self.ball_dx,
                    self.ball_y + self.ball_dy,
                    BALL_WIDTH_RADIUS,
                );
                match hit {
                    Some(Edge::Both) => {
                        self.ball_dx = -self.ball_dx;
                        self.ball_dy = -self.ball_dy;
                        self.bricks[i] = Brick { state: true, ..b };
                    },
                    Some(Edge::HorizontalEdge) => {
                        self.ball_dy = -self.ball_dy;
                        self.bricks[i] = Brick { state: true, ..b };
                    },
                    Some(Edge::VerticalEdge) => {
                        self.ball_dx = -self.ball_dx;
                        self.bricks[i] = Brick { state: true, ..b };
                    },
                    None => {},
                }
            }
            proof {
                let cur = self@.bricks;
                let suf2 = run_bricks(
                    s0.bricks.skip(i as int + 1),
                    s0.ball_x,
                    s0.ball_y,
                    self.ball_dx as int,
                    self.ball_dy as int,
                ).2;
                assert(cur.take(i as int) =~= pre_bricks.take(i as int));
                assert(cur.take(i as int + 1) =~= cur.take(i as int) + seq![cur[i as int]]);
                assert((cur.take(i as int) + seq![cur[i as int]]) + suf2 =~= cur.take(i as int)
                    + (seq![cur[i as int]] + suf2));
            }
            i = i + 1;
        }
        proof {
            assert(s0.bricks.skip(s0.bricks.len() as int) =~= Seq::<BrickModel>::empty());
            assert(self@.bricks.take(s0.bricks.len() as int) =~= self@.bricks);
            assert(self@.bricks + Seq::<BrickModel>::empty() =~= self@.bricks);
        }

        self.ball_x = self.ball_x + self.ball_dx;
        self.ball_y = self.ball_y + self.ball_dy;
        proof {
            assert(self@ =~= tick_spec(s0));
        }
    }

    /// Reaction to the pointer moving to `(x, y)`, exactly [`event_spec`] of
    /// the old state: the paddle's swept rectangle is tested against the
    /// ball, a hit reflects the ball and leaves the paddle flush against it,
    /// and otherwise the paddle follows the pointer.  The paddle's vertical
    /// position always lands inside the travel band.
    pub fn event(&mut self, x: i64, y: i64)
        requires
            old(self).wf(),
            iabs(x as int) <= COORD_MAX,
            iabs(y as int) <= COORD_MAX,
        ensures
            final(self)@ == event_spec(old(self)@, x as int, y as int),
            final(self).pad_min_y <= final(self).pad_y <= final(self).pad_max_y,
    {
        let ghost s0 = self@;

        let min_x = min64(x, self.pad_x);
        let min_y = max64(min64(min64(y, self.pad_y), self.pad_max_y), self.pad_min_y);
        let max_x = max64(x, self.pad_x);
        let max_y = max64(min64(max64(y, self.pad_y), self.pad_max_y), self.pad_min_y);

        let collision = App::detect_collision(
            min_x,
            min_y,
            max_x - min_x,
            max_y - min_y,
            self.ball_x,
            self.ball_y,
            BALL_WIDTH_RADIUS,
        );
        match collision {
            Some(Edge::Both) => {
                self.ball_dx = min64(max64(-self.ball_dx - self.pad_dx, -5), 5);
                self.ball_dy = min64(max64(-self.ball_dy - self.pad_dy, -5), 5);
            },
            Some(Edge::HorizontalEdge) => {
                self.ball_dy = min64(max64(-self.ball_dy - self.pad_dy, -5), 5);
            },
            Some(Edge::VerticalEdge) => {
                self.ball_dx = min64(max64(-self.ball_dx - self.pad_dx, -5), 5);
            },
            None => {},
        }

        self.pad_dx = self.pad_x - x + PAD_WIDTH_HALF;
        self.pad_dy = self.pad_y - y;

        let hit_h = match collision {
            Some(Edge::Both) => true,
            Some(Edge::HorizontalEdge) => true,
            _ => false,
        };
        let hit_v = match collision {
            Some(Edge::Both) => true,
            Some(Edge::VerticalEdge) => true,
            _ => false,
        };

        if self.pad_y + PAD_HEIGHT > self.ball_y + BALL_WIDTH && y < self.ball_y + BALL_WIDTH
            && hit_h {
            self.pad_y = max64(min64(self.ball_y + BALL_WIDTH, self.pad_max_y), self.pad_min_y);
        } else if self.pad_y < self.ball_y && y > self.ball_y && hit_h {
            self.pad_y = max64(min64(self.ball_y, self.pad_max_y), self.pad_min_y);
        } else {
            self.pad_y = max64(min64(y, self.pad_max_y), self.pad_min_y);
        }

        if self.pad_x + PAD_WIDTH > self.ball_x + BALL_WIDTH && x < self.ball_x + BALL_WIDTH
            && hit_v {
            self.pad_x = self.ball_x + BALL_WIDTH;
        } else if self.pad_x < self.ball_x && x > self.ball_x && hit_v {
            self.pad_x = self.ball_x;
        } else {
            self.pad_x = x - PAD_WIDTH_HALF;
        }

        proof {
            assert(self@ =~= event_spec(s0, x as int, y as int));
        }
    }

    /// Runtime check of [`App::wf`], for callers outside verified code that
    /// must establish it before calling [`App::update`] or [`App::event`].
    pub fn is_well_formed(&self) -> (r: bool)
        ensures
            r == self.wf(),
    {
        if !(-COORD_MAX <= self.ball_x && self.ball_x <= COORD_MAX) {
            return false;
        }
        if !(-COORD_MAX <= self.ball_y && self.ball_y <= COORD_MAX) {
            return false;
        }
        if !(-COORD_MAX <= self.ball_dx && self.ball_dx <= COORD_MAX) {
            return false;
        }
        if !(-COORD_MAX <= self.ball_dy && self.ball_dy <= COORD_MAX) {
            return false;
        }
        if !(-COORD_MAX <= self.pad_x && self.pad_x <= COORD_MAX) {
            return false;
        }
        if !(-COORD_MAX <= self.pad_dx && self.pad_dx <= COORD_MAX) {
            return false;
        }
        if !(-COORD_MAX <= self.pad_dy && self.pad_dy <= COORD_MAX) {
            return false;
        }
        if !(-COORD_MAX <= self.pad_min_y && self.pad_min_y <= self.pad_max_y && self.pad_max_y
            <= COORD_MAX) {
            return false;
        }
        if !(self.pad_min_y <= self.pad_y && self.pad_y <= self.pad_max_y) {
            return false;
        }
        let mut i: usize = 0;
        while i < self.edges.len()
            invariant
                i <= self.edges.len(),
                forall|j: int| 0 <= j < i as int ==> rect_in_bounds(#[trigger] self.edges@[j]@),
            decreases self.edges.len() - i,
        {
            let r = self.edges[i];
            if !(-COORD_MAX <= r.x && r.x <= COORD_MAX && -COORD_MAX <= r.y && r.y <= COORD_MAX
                && 0 <= r.width && r.width <= COORD_MAX && 0 <= r.height && r.height
                <= COORD_MAX) {
                proof {
                    assert(!rect_in_bounds(self.edges@[i as int]@));
                }
                return false;
            }
            i = i + 1;
        }
        let mut i: usize = 0;
        while i < self.bricks.len()
            invariant
                i <= self.bricks.len(),
                forall|j: int| 0 <= j < i as int ==> brick_in_bounds(#[trigger] self.bricks@[j]@),
            decreases self.bricks.len() - i,
        {
            let b = self.bricks[i];
            if !(-COORD_MAX <= b.x && b.x <= COORD_MAX && -COORD_MAX <= b.y && b.y <= COORD_MAX
                && 0 <= b.width && b.width <= COORD_MAX && 0 <= b.height && b.height
                <= COORD_MAX) {
                proof {
                    assert(!brick_in_bounds(self.bricks@[i as int]@));
                }
                return false;
            }
            i = i + 1;
        }
        true
    }
}

/// The three wall rectangles: an oversized band above the arena, one to its
/// left, and one to its right.  The bottom stays open.
pub fn get_edges() -> (edges: Vec<Rectangle>)
    ensures
        edges@.len() == 3,
        edges@[0]@ == (RectModel { x: 0, y: -100, width: 1024, height: 100 }),
        edges@[1]@ == (RectModel { x: -100, y: 0, width: 100, height: 1024 }),
        edges@[2]@ == (RectModel { x: 1024, y: 0, width: 100, height: 1024 }),
        forall|i: int| 0 <= i < edges@.len() ==> rect_in_bounds(#[trigger] edges@[i]@),
{
    let mut edges: Vec<Rectangle> = Vec::new();
    edges.push(Rectangle::new(0, -100, 1024, 100));
    edges.push(Rectangle::new(-100, 0, 100, 1024));
    edges.push(Rectangle::new(1024, 0, 100, 1024));
    edges
}

/// The fixed brick grid: two rows of eight unbroken bricks, 80 by 30 pixels
/// each, columns 110 pixels and rows 100 pixels apart.
pub fn get_bricks() -> (bricks: Vec<Brick>)
    ensures
        bricks@.len() == 16,
        forall|i: int|
            0 <= i < 16 ==> #[trigger] bricks@[i]@ == (BrickModel {
                x: 100 + 110 * (i % 8),
                y: 100 + 100 * (i / 8),
                width: 80,
                height: 30,
                state: false,
            }),
        forall|i: int| 0 <= i < bricks@.len() ==> brick_in_bounds(#[trigger] bricks@[i]@),
{
    let mut bricks: Vec<Brick> = Vec::new();
    bricks.push(Brick::new(100, 100, 30, 80, false));
    bricks.push(Brick::new(210, 100, 30, 80, false));
    bricks.push(Brick::new(320, 100, 30, 80, false));
    bricks.push(Brick::new(430, 100, 30, 80, false));
    bricks.push(Brick::new(540, 100, 30, 80, false));
    bricks.push(Brick::new(650, 100, 30, 80, false));
    bricks.push(Brick::new(760, 100, 30, 80, false));
    bricks.push(Brick::new(870, 100, 30, 80, false));
    bricks.push(Brick::new(100, 200, 30, 80, false));
    bricks.push(Brick::new(210, 200, 30, 80, false));
    bricks.push(Brick::new(320, 200, 30, 80, false));
    bricks.push(Brick::new(430, 200, 30, 80, false));
    bricks.push(Brick::new(540, 200, 30, 80, false));
    bricks.push(Brick::new(650, 200, 30, 80, false));
    bricks.push(Brick::new(760, 200, 30, 80, false));
    bricks.push(Brick::new(870, 200, 30, 80, false));
    bricks
}

} // verus!

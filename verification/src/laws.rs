//! General laws of the collision detector and the simulation, stated over the
//! mathematical models and proved for every input.

use vstd::prelude::*;
use crate::collision::Edge;
use crate::collision::closest_coord;
use crate::collision::detect_spec;
use crate::collision::dist_sq;
use crate::geometry::BrickModel;
use crate::geometry::RectModel;
use crate::sim::AppModel;
use crate::sim::BALL_WIDTH_RADIUS;
use crate::sim::brick_hit;
use crate::sim::edge_hit;
use crate::sim::event_spec;
use crate::sim::pad_hit;
use crate::sim::run_bricks;
use crate::sim::run_edges;
use crate::sim::tick_spec;

verus! {

/// A ball that does not overlap a rectangle — its squared closest-point
/// distance is at least the squared radius — collides with nothing.
pub proof fn lemma_no_overlap_no_collision(
    x: int,
    y: int,
    width: int,
    height: int,
    ball_x: int,
    ball_y: int,
    radius: int,
)
    requires
        dist_sq(x, y, width, height, ball_x, ball_y, radius) >= radius * radius,
    ensures
        detect_spec(x, y, width, height, ball_x, ball_y, radius) is None,
{
}

/// A ball whose center sits exactly at the center of a rectangle is reported
/// as striking both faces.
pub proof fn lemma_center_hit_reports_both(
    x: int,
    y: int,
    width: int,
    height: int,
    ball_x: int,
    ball_y: int,
    radius: int,
)
    requires
        radius >= 1,
        width >= 0,
        height >= 0,
        2 * (ball_x + radius) == 2 * x + width,
        2 * (ball_y + radius) == 2 * y + height,
    ensures
        detect_spec(x, y, width, height, ball_x, ball_y, radius) == Some(Edge::Both),
{
    assert(closest_coord(ball_x + radius, x, width) == ball_x + radius);
    assert(closest_coord(ball_y + radius, y, height) == ball_y + radius);
    assert(radius * radius >= 1) by (nonlinear_arith)
        requires
            radius >= 1,
    ;
}

/// Walls none of which the predicted position strikes leave the velocity
/// alone.
pub proof fn lemma_run_edges_quiet(
    edges: Seq<RectModel>,
    ball_x: int,
    ball_y: int,
    dx: int,
    dy: int,
)
    requires
        forall|i: int|
            0 <= i < edges.len() ==> edge_hit(#[trigger] edges[i], ball_x, ball_y, dx, dy)
                is None,
    ensures
        run_edges(edges, ball_x, ball_y, dx, dy) == (dx, dy),
    decreases edges.len(),
{
    if edges.len() > 0 {
        assert(edge_hit(edges[0], ball_x, ball_y, dx, dy) is None);
        assert forall|i: int| 0 <= i < edges.drop_first().len() implies edge_hit(
            #[trigger] edges.drop_first()[i],
            ball_x,
            ball_y,
            dx,
            dy,
        ) is None by {
            assert(edges.drop_first()[i] == edges[i + 1]);
        }
        lemma_run_edges_quiet(edges.drop_first(), ball_x, ball_y, dx, dy);
    }
}

/// Bricks none of which the predicted position strikes (broken ones are
/// skipped anyway) leave both the velocity and the whole grid alone.
pub proof fn lemma_run_bricks_quiet(
    bricks: Seq<BrickModel>,
    ball_x: int,
    ball_y: int,
    dx: int,
    dy: int,
)
    requires
        forall|i: int|
            0 <= i < bricks.len() && !bricks[i].state ==> brick_hit(
                #[trigger] bricks[i],
                ball_x,
                ball_y,
                dx,
                dy,
            ) is None,
    ensures
        run_bricks(bricks, ball_x, ball_y, dx, dy).0 == dx,
        run_bricks(bricks, ball_x, ball_y, dx, dy).1 == dy,
        run_bricks(bricks, ball_x, ball_y, dx, dy).2 == bricks,
    decreases bricks.len(),
{
    if bricks.len() > 0 {
        let b = bricks[0];
        assert forall|i: int| 0 <= i < bricks.drop_first().len() && !bricks.drop_first()[i].state
            implies brick_hit(#[trigger] bricks.drop_first()[i], ball_x, ball_y, dx, dy)
            is None by {
            assert(bricks.drop_first()[i] == bricks[i + 1]);
        }
        lemma_run_bricks_quiet(bricks.drop_first(), ball_x, ball_y, dx, dy);
        if !b.state {
            assert(brick_hit(b, ball_x, ball_y, dx, dy) is None);
            assert((BrickModel { state: false, ..b }) == b);
        }
        assert(seq![b] + bricks.drop_first() =~= bricks);
    }
}

/// A tick in which nothing is struck — not the paddle, no wall, no unbroken
/// brick — leaves the velocity unchanged, moves the ball by exactly the
/// velocity vector, and changes no brick.
pub proof fn lemma_quiet_tick(s: AppModel)
    requires
        pad_hit(s) is None,
        forall|i: int|
            0 <= i < s.edges.len() ==> edge_hit(
                #[trigger] s.edges[i],
                s.ball_x,
                s.ball_y,
                s.ball_dx,
                s.ball_dy,
            ) is None,
        forall|i: int|
            0 <= i < s.bricks.len() && !s.bricks[i].state ==> brick_hit(
                #[trigger] s.bricks[i],
                s.ball_x,
                s.ball_y,
                s.ball_dx,
                s.ball_dy,
            ) is None,
    ensures
        tick_spec(s).ball_dx == s.ball_dx,
        tick_spec(s).ball_dy == s.ball_dy,
        tick_spec(s).ball_x == s.ball_x + s.ball_dx,
        tick_spec(s).ball_y == s.ball_y + s.ball_dy,
        tick_spec(s).bricks == s.bricks,
{
    lemma_run_edges_quiet(s.edges, s.ball_x, s.ball_y, s.ball_dx, s.ball_dy);
    lemma_run_bricks_quiet(s.bricks, s.ball_x, s.ball_y, s.ball_dx, s.ball_dy);
}

/// Walls before position `k`, none of which the predicted position strikes,
/// can be skipped without changing the outcome.
pub proof fn lemma_run_edges_skip_quiet(
    edges: Seq<RectModel>,
    ball_x: int,
    ball_y: int,
    dx: int,
    dy: int,
    k: int,
)
    requires
        0 <= k <= edges.len(),
        forall|i: int|
            0 <= i < k ==> edge_hit(#[trigger] edges[i], ball_x, ball_y, dx, dy) is None,
    ensures
        run_edges(edges, ball_x, ball_y, dx, dy) == run_edges(
            edges.skip(k),
            ball_x,
            ball_y,
            dx,
            dy,
        ),
    decreases k,
{
    if k == 0 {
        assert(edges.skip(0) =~= edges);
    } else {
        assert(edge_hit(edges[0], ball_x, ball_y, dx, dy) is None);
        assert forall|i: int| 0 <= i < k - 1 implies edge_hit(
            #[trigger] edges.drop_first()[i],
            ball_x,
            ball_y,
            dx,
            dy,
        ) is None by {
            assert(edges.drop_first()[i] == edges[i + 1]);
        }
        lemma_run_edges_skip_quiet(edges.drop_first(), ball_x, ball_y, dx, dy, k - 1);
        assert(edges.drop_first().skip(k - 1) =~= edges.skip(k));
    }
}

/// A tick whose only contact is one wall struck on a horizontal face: the
/// vertical velocity flips sign, the horizontal one is untouched, the ball
/// moves by the reflected velocity, and no brick changes.
pub proof fn lemma_horizontal_wall_bounce(s: AppModel, k: int)
    requires
        pad_hit(s) is None,
        0 <= k < s.edges.len(),
        edge_hit(s.edges[k], s.ball_x, s.ball_y, s.ball_dx, s.ball_dy) == Some(
            Edge::HorizontalEdge,
        ),
        forall|i: int|
            0 <= i < k ==> edge_hit(#[trigger] s.edges[i], s.ball_x, s.ball_y, s.ball_dx,
            s.ball_dy) is None,
        forall|i: int|
            k < i < s.edges.len() ==> edge_hit(
                #[trigger] s.edges[i],
                s.ball_x,
                s.ball_y,
                s.ball_dx,
                -s.ball_dy,
            ) is None,
        forall|i: int|
            0 <= i < s.bricks.len() && !s.bricks[i].state ==> brick_hit(
                #[trigger] s.bricks[i],
                s.ball_x,
                s.ball_y,
                s.ball_dx,
                -s.ball_dy,
            ) is None,
    ensures
        tick_spec(s).ball_dx == s.ball_dx,
        tick_spec(s).ball_dy == -s.ball_dy,
        tick_spec(s).ball_x == s.ball_x + s.ball_dx,
        tick_spec(s).ball_y == s.ball_y - s.ball_dy,
        tick_spec(s).bricks == s.bricks,
{
    lemma_run_edges_skip_quiet(s.edges, s.ball_x, s.ball_y, s.ball_dx, s.ball_dy, k);
    assert(s.edges.skip(k)[0] == s.edges[k]);
    assert(s.edges.skip(k).drop_first() =~= s.edges.skip(k + 1));
    assert forall|i: int| 0 <= i < s.edges.skip(k + 1).len() implies edge_hit(
        #[trigger] s.edges.skip(k + 1)[i],
        s.ball_x,
        s.ball_y,
        s.ball_dx,
        -s.ball_dy,
    ) is None by {
        assert(s.edges.skip(k + 1)[i] == s.edges[k + 1 + i]);
    }
    lemma_run_edges_quiet(s.edges.skip(k + 1), s.ball_x, s.ball_y, s.ball_dx, -s.ball_dy);
    lemma_run_bricks_quiet(s.bricks, s.ball_x, s.ball_y, s.ball_dx, -s.ball_dy);
}

/// What one tick may do to one brick: its rectangle never moves, and its
/// broken flag never goes back from broken to unbroken.
pub open spec fn brick_evolves(b0: BrickModel, b1: BrickModel) -> bool {
    &&& b1.x == b0.x
    &&& b1.y == b0.y
    &&& b1.width == b0.width
    &&& b1.height == b0.height
    &&& (b0.state ==> b1.state)
}

/// Testing the bricks keeps the grid's length, every brick's rectangle, and
/// never repairs a broken brick.
pub proof fn lemma_run_bricks_frame(
    bricks: Seq<BrickModel>,
    ball_x: int,
    ball_y: int,
    dx: int,
    dy: int,
)
    ensures
        run_bricks(bricks, ball_x, ball_y, dx, dy).2.len() == bricks.len(),
        forall|i: int|
            0 <= i < bricks.len() ==> brick_evolves(
                bricks[i],
                #[trigger] run_bricks(bricks, ball_x, ball_y, dx, dy).2[i],
            ),
    decreases bricks.len(),
{
    if bricks.len() > 0 {
        let b = bricks[0];
        if !b.state {
            let hit = brick_hit(b, ball_x, ball_y, dx, dy);
            let v = crate::sim::reflect(dx, dy, hit);
            lemma_run_bricks_frame(bricks.drop_first(), ball_x, ball_y, v.0, v.1);
        } else {
            lemma_run_bricks_frame(bricks.drop_first(), ball_x, ball_y, dx, dy);
        }
        assert forall|i: int| 0 <= i < bricks.len() implies brick_evolves(
            bricks[i],
            #[trigger] run_bricks(bricks, ball_x, ball_y, dx, dy).2[i],
        ) by {
            if i > 0 {
                assert(bricks.drop_first()[i - 1] == bricks[i]);
            }
        }
    }
}

/// Brick flags only move from unbroken to broken: no tick repairs a brick or
/// moves one.
pub proof fn lemma_brick_flags_monotonic(s: AppModel)
    ensures
        tick_spec(s).bricks.len() == s.bricks.len(),
        forall|i: int|
            0 <= i < s.bricks.len() ==> brick_evolves(s.bricks[i], #[trigger] tick_spec(s).bricks[i]),
{
    let v1 = crate::sim::pad_response(s.ball_dx, s.ball_dy, s.pad_dx, s.pad_dy, pad_hit(s));
    let v2 = run_edges(s.edges, s.ball_x, s.ball_y, v1.0, v1.1);
    lemma_run_bricks_frame(s.bricks, s.ball_x, s.ball_y, v2.0, v2.1);
}

/// The state after `n` ticks.
pub open spec fn ticks(s: AppModel, n: nat) -> AppModel
    decreases n,
{
    if n == 0 {
        s
    } else {
        tick_spec(ticks(s, (n - 1) as nat))
    }
}

/// Over any number of ticks, a broken brick stays broken.
pub proof fn lemma_brick_flags_monotonic_ticks(s: AppModel, n: nat, i: int)
    requires
        0 <= i < s.bricks.len(),
        s.bricks[i].state,
    ensures
        ticks(s, n).bricks.len() == s.bricks.len(),
        ticks(s, n).bricks[i].state,
    decreases n,
{
    if n > 0 {
        lemma_brick_flags_monotonic_ticks(s, (n - 1) as nat, i);
        lemma_brick_flags_monotonic(ticks(s, (n - 1) as nat));
    }
}

/// Wherever the pointer goes — any y at all — the paddle's vertical position
/// lands inside the travel band, which the move itself never alters.
pub proof fn lemma_pointer_stays_in_band(s: AppModel, x: int, y: int)
    requires
        s.pad_min_y <= s.pad_max_y,
    ensures
        s.pad_min_y <= event_spec(s, x, y).pad_y <= s.pad_max_y,
        event_spec(s, x, y).pad_min_y == s.pad_min_y,
        event_spec(s, x, y).pad_max_y == s.pad_max_y,
{
}

} // verus!

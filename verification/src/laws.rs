//! What holds of every state of the engine and of every tick.

use vstd::prelude::*;
use crate::container::Direction;
use crate::enemy::ALIEN_POINTS;
use crate::model::{
    crosses, flipped, formation, is_first_alive_at, GameCondition, GameView,
};
use crate::model::{misses, stays};
use crate::seq_facts::lemma_filter_members;

verus! {

/// A tick never adds a life. Shooting and steering leave the lives alone,
/// and a reset hands all of them back.
pub proof fn lemma_lives_only_go_down(g: GameView, now: u64, pick: int, d: Direction)
    ensures
        g.tick(now, pick).lives <= g.lives,
        g.tick(now, pick).max_lives == g.max_lives,
        g.fire_bullet().lives == g.lives,
        g.move_ship(d).lives == g.lives,
        g.reset_game().lives == g.max_lives,
{
}

/// A tick never lowers the score. Shooting and steering leave the score
/// alone, and a reset sets it to zero.
pub proof fn lemma_score_only_goes_up(g: GameView, now: u64, pick: int, d: Direction)
    requires
        g.wf(),
        g.has_headroom(),
    ensures
        g.tick(now, pick).score >= g.score,
        g.fire_bullet().score == g.score,
        g.move_ship(d).score == g.score,
        g.reset_game().score == 0,
{
    lemma_score_moves_by_the_struck(g, now, pick);
}

/// Over a tick the score grows by nothing, or by the points of the one
/// enemy that the ship's bullet strikes in it. Those are the points of
/// every enemy.
pub proof fn lemma_score_moves_by_the_struck(g: GameView, now: u64, pick: int)
    requires
        g.wf(),
        g.has_headroom(),
    ensures
        ({
            let before = g.move_enemy(now).move_bullet(now);
            g.tick(now, pick).score == match before.struck() {
                Some(i) => g.score + before.enemies[i].points,
                None => g.score as int,
            }
        }),
        g.tick(now, pick).score == g.score || g.tick(now, pick).score == g.score + ALIEN_POINTS,
{
    let before = g.move_enemy(now).move_bullet(now);
    if before.struck() is Some {
        lemma_struck_is_first_alive(before);
    }
}

/// The enemy that is struck was alive, stood on the cell the bullet was
/// about to enter, and comes first among such enemies.
pub proof fn lemma_struck_is_first_alive(g: GameView)
    requires
        g.struck() is Some,
    ensures
        g.bullet_live(),
        is_first_alive_at(
            g.enemies,
            g.last_bullet.unwrap().obj.pos().x as int,
            g.last_bullet.unwrap().next_y(),
            g.struck().unwrap(),
        ),
{
    let b = g.last_bullet.unwrap();
    let x = b.obj.pos().x as int;
    let y = b.next_y();
    let c = choose|c: int| is_first_alive_at(g.enemies, x, y, c);
    assert(is_first_alive_at(g.enemies, x, y, c));
}

/// The enemy that a bullet strikes is a live one: a destroyed enemy is
/// never struck, wherever it stands.
pub proof fn lemma_destroyed_is_never_struck(g: GameView, i: int)
    requires
        0 <= i < g.enemies.len(),
        g.enemies[i].obj.destroyed,
    ensures
        g.struck() != Some(i),
{
    if g.struck() is Some {
        lemma_struck_is_first_alive(g);
    }
}

/// The first live enemy on the cell that the ship's bullet is about to
/// enter is the one that is struck.
pub proof fn lemma_first_alive_is_struck(g: GameView, i: int)
    requires
        g.bullet_live(),
        is_first_alive_at(
            g.enemies,
            g.last_bullet.unwrap().obj.pos().x as int,
            g.last_bullet.unwrap().next_y(),
            i,
        ),
    ensures
        g.struck() == Some(i),
{
    lemma_struck_is_first_alive(g);
}

/// Where one live enemy, and no other, stands on the cell above the ship's
/// bullet, that enemy is struck.
pub proof fn lemma_only_live_enemy_above_is_struck(g: GameView, i: int)
    requires
        g.wf(),
        g.bullet_live(),
        0 <= i < g.enemies.len(),
        !g.enemies[i].obj.destroyed,
        g.enemies[i].obj.pos().x == g.last_bullet.unwrap().obj.pos().x,
        g.enemies[i].obj.pos().y == g.last_bullet.unwrap().obj.pos().y
            - g.last_bullet.unwrap().speed,
        forall|j: int|
            0 <= j < g.enemies.len() && j != i && (#[trigger] g.enemies[j]).obj.pos()
                == g.enemies[i].obj.pos() ==> g.enemies[j].obj.destroyed,
    ensures
        g.struck() == Some(i),
{
    let b = g.last_bullet.unwrap();
    assert(is_first_alive_at(g.enemies, b.obj.pos().x as int, b.next_y(), i));
    lemma_first_alive_is_struck(g, i);
}

/// A strike destroys the enemy and the bullet and adds the enemy's points
/// to the score. Every other enemy stays as it was, and so does the
/// formation's length: the struck enemy keeps its place.
pub proof fn lemma_strike_destroys_both(g: GameView, i: int)
    requires
        g.wf(),
        g.score_room(),
        g.struck() == Some(i),
    ensures
        0 <= i < g.enemies.len(),
        !g.enemies[i].obj.destroyed,
        g.detect_enemy_collision().enemies.len() == g.enemies.len(),
        g.detect_enemy_collision().enemies[i] == g.enemies[i].wrecked(),
        forall|j: int|
            0 <= j < g.enemies.len() && j != i ==> #[trigger] g.detect_enemy_collision().enemies[j]
                == g.enemies[j],
        g.detect_enemy_collision().last_bullet == Some(g.last_bullet.unwrap().wrecked()),
        g.detect_enemy_collision().score == g.score + g.enemies[i].points,
        g.enemies[i].points == ALIEN_POINTS,
        g.detect_enemy_collision().lives == g.lives,
{
    lemma_struck_is_first_alive(g);
}

/// The ship's bullet looks at the cell above it. Where every enemy on that
/// cell is destroyed already, the collision changes nothing: a destroyed
/// enemy is never struck again, and scores no second time.
pub proof fn lemma_no_live_enemy_above_no_collision(g: GameView)
    requires
        g.wf(),
        g.bullet_live(),
        forall|i: int|
            0 <= i < g.enemies.len() && (#[trigger] g.enemies[i]).obj.pos().x
                == g.last_bullet.unwrap().obj.pos().x && g.enemies[i].obj.pos().y
                == g.last_bullet.unwrap().obj.pos().y - g.last_bullet.unwrap().speed
                ==> g.enemies[i].obj.destroyed,
    ensures
        g.struck() is None,
        g.detect_enemy_collision() == g,
{
    if g.struck() is Some {
        lemma_struck_is_first_alive(g);
    }
}

/// A collision destroys the bullet with the enemy, so the same collision
/// cannot happen twice: resolving it again changes nothing, and adds
/// nothing to the score.
pub proof fn lemma_collision_happens_once(g: GameView)
    ensures
        g.detect_enemy_collision().detect_enemy_collision() == g.detect_enemy_collision(),
        g.detect_enemy_collision().struck() is None,
{
    if g.struck() is Some {
        lemma_struck_is_first_alive(g);
    }
}

/// Destruction is a latch: an enemy that is destroyed stays so through
/// every tick, and keeps its place in the formation.
pub proof fn lemma_destroyed_stays_destroyed(g: GameView, now: u64, pick: int, i: int)
    requires
        0 <= i < g.enemies.len(),
        g.enemies[i].obj.destroyed,
    ensures
        g.tick(now, pick).enemies.len() == g.enemies.len(),
        g.tick(now, pick).enemies[i].obj.destroyed,
{
    let moved = g.move_enemy(now).move_bullet(now);
    assert(moved.enemies[i].obj.destroyed);
}

/// The formation's direction flips exactly when its step is due and some
/// enemy stands at an edge; and a tick changes the direction in no other
/// way, so it flips at most once per tick.
pub proof fn lemma_direction_flips_at_the_edge(g: GameView, now: u64, pick: int)
    requires
        g.wf(),
    ensures
        g.move_enemy(now).enemy_direction == if g.enemy_move_due(now) && g.turns() {
            flipped(g.enemy_direction)
        } else {
            g.enemy_direction
        },
        g.move_enemy(now).enemy_direction != g.enemy_direction <==> g.enemy_move_due(now)
            && g.turns(),
        g.tick(now, pick).enemy_direction == g.move_enemy(now).enemy_direction,
        flipped(flipped(g.enemy_direction)) == g.enemy_direction,
{
}

/// Shooting does nothing while a live bullet of the ship is under way.
pub proof fn lemma_fire_waits_for_the_bullet(g: GameView)
    ensures
        g.bullet_live() ==> g.fire_bullet() == g,
        !g.bullet_live() ==> g.fire_bullet().last_bullet == Some(g.ship_shot()),
        g.fire_bullet().bullet_live(),
{
}

/// Once the ship's bullet has struck an enemy or left the playable area,
/// the ship can shoot again.
pub proof fn lemma_fire_is_free_again(g: GameView, now: u64)
    ensures
        g.struck() is Some ==> g.detect_enemy_collision().slot_free(),
        g.bullet_live() && crosses(g.last_bullet.unwrap(), g.playable_area) ==> g.move_bullet(
            now,
        ).slot_free(),
{
    if g.struck() is Some {
        lemma_struck_is_first_alive(g);
    }
}

/// The game is won exactly when every enemy is destroyed, which is so
/// where the formation is empty. If it is not won, it is lost exactly when
/// no life is left or an enemy that is not destroyed has landed. It never ends of itself in any
/// other way.
pub proof fn lemma_win_and_loss(g: GameView)
    ensures
        g.has_game_ended() == GameCondition::Win <==> g.cleared(),
        g.enemies.len() == 0 ==> g.cleared(),
        g.has_game_ended() == GameCondition::Loss <==> !g.cleared() && (g.lives == 0
            || g.landed()),
        g.has_game_ended() == GameCondition::Running <==> !g.cleared() && g.lives != 0
            && !g.landed(),
        g.has_game_ended() != GameCondition::Ended,
{
}

/// A reset gives back all lives, sets the score to zero, empties the
/// ship's slot and the enemy bullets, and builds the whole formation anew
/// with no enemy destroyed.
pub proof fn lemma_reset_starts_over(g: GameView)
    requires
        g.wf(),
    ensures
        g.reset_game().lives == g.max_lives,
        g.reset_game().score == 0,
        g.reset_game().last_bullet is None,
        g.reset_game().enemy_bullets.len() == 0,
        g.reset_game().enemies == formation(
            g.playable_area,
            0,
            0,
            g.enemy_rows as int,
            g.enemy_cols as int,
        ),
        g.reset_game().enemies.len() == g.enemy_rows * g.enemy_cols,
        forall|i: int|
            0 <= i < g.reset_game().enemies.len() ==> !(#[trigger] g.reset_game().enemies[i]).obj.destroyed,
        g.reset_game().has_game_ended() == GameCondition::Win <==> g.enemy_rows * g.enemy_cols
            == 0,
{
    crate::model::lemma_formation_is_fresh(
        g.playable_area,
        0,
        0,
        g.enemy_rows as int,
        g.enemy_cols as int,
    );
    let r = g.reset_game();
    if g.enemy_rows * g.enemy_cols > 0 {
        assert(!r.enemies[0].obj.destroyed);
    }
}

/// At the playable area's boundary the ship stays: a step to the left
/// changes nothing once the leading edge is on the left boundary, and a
/// step to the right changes nothing once the trailing edge is on the
/// right one. Up and down never move it.
pub proof fn lemma_ship_stays_inside(g: GameView)
    requires
        g.wf(),
    ensures
        g.ship.obj.container.top.x <= g.playable_area.top.x ==> g.move_ship(Direction::LEFT)
            == g,
        g.ship.obj.container.bottom.x >= g.playable_area.bottom.x ==> g.move_ship(
            Direction::RIGHT,
        ) == g,
        g.move_ship(Direction::UP) == g,
        g.move_ship(Direction::DOWN) == g,
{
}

/// Every bullet that the step of the enemy bullets keeps was in flight
/// before and stays inside the playable area on its advance.
pub proof fn lemma_kept_bullets_stay_inside(g: GameView, now: u64)
    ensures
        g.move_enemy_bullets(now).enemy_bullets.len() == g.staying_bullets().len(),
        g.staying_bullets().len() <= g.enemy_bullets.len(),
        forall|i: int|
            0 <= i < g.staying_bullets().len() ==> !crosses(
                #[trigger] g.staying_bullets()[i],
                g.playable_area,
            ) && g.enemy_bullets.contains(g.staying_bullets()[i]),
{
    lemma_filter_members(g.enemy_bullets, crate::model::stays(g.playable_area));
}

/// Every step of a tick takes a well-formed state to a well-formed one, and
/// so does the tick.
pub proof fn lemma_tick_keeps_well_formed(g: GameView, now: u64, pick: int)
    requires
        g.wf(),
        g.has_headroom(),
        g.can_pick(pick),
    ensures
        g.move_enemy(now).wf(),
        g.move_enemy(now).room_below(1),
        g.move_bullet(now).wf(),
        g.collision_detection().wf(),
        g.enemy_attack(now, pick).wf(),
        g.move_enemy_bullets(now).wf(),
        g.tick(now, pick).wf(),
{
    lemma_step_keeps_well_formed(g, now, pick);
    let a = g.move_enemy(now);
    lemma_step_keeps_well_formed(a, now, pick);
    let b = a.move_bullet(now);
    lemma_step_keeps_well_formed(b, now, pick);
    let c = b.collision_detection();
    lemma_step_keeps_well_formed(c, now, pick);
    let d = c.enemy_attack(now, pick);
    lemma_step_keeps_well_formed(d, now, pick);
}

/// Each step by itself takes a well-formed state to a well-formed one. The
/// formation's step uses up one of the rows below the enemies when it
/// turns; no other step moves an enemy.
pub proof fn lemma_step_keeps_well_formed(g: GameView, now: u64, pick: int)
    requires
        g.wf(),
        g.room_below(1),
        g.can_pick(pick),
    ensures
        g.move_enemy(now).wf(),
        g.room_below(2) ==> g.move_enemy(now).room_below(1),
        g.move_enemy(now).can_pick(pick),
        g.move_bullet(now).wf(),
        g.move_bullet(now).enemies == g.enemies,
        g.collision_detection().wf(),
        g.room_below(1) ==> g.collision_detection().room_below(1),
        g.collision_detection().can_pick(pick),
        g.enemy_attack(now, pick).wf(),
        g.enemy_attack(now, pick).enemies == g.enemies,
        g.move_enemy_bullets(now).wf(),
{
    let a = g.move_enemy(now);
    assert(a.wf()) by {
        assert forall|i: int| 0 <= i < a.enemies.len() implies {
            &&& (#[trigger] a.enemies[i]).obj.container.top == a.enemies[i].obj.container.bottom
            &&& a.enemy_direction == Direction::LEFT ==> a.enemies[i].obj.pos().x < usize::MAX
            &&& a.enemy_direction == Direction::RIGHT ==> a.enemies[i].obj.pos().x >= 1
        } by {
            let e = g.enemies[i];
            assert(!g.turns() ==> !crate::model::at_edge(e, g.playable_area));
        }
    }
    let c = g.detect_enemy_collision();
    assert(c.wf());
    lemma_filter_members(c.enemy_bullets, misses(c.ship));
    assert(c.detect_ship_collision().wf());
    lemma_filter_members(g.enemy_bullets, stays(g.playable_area));
    assert(g.move_enemy_bullets(now).wf());
}

} // verus!

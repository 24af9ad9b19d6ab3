//! What holds of every run of the bouncing body.

use vstd::prelude::*;
use vstd::arithmetic::div_mod::{lemma_add_mod_noop, lemma_mod_self_0, lemma_small_mod};
use crate::motion::Motion;

verus! {

/// One step from a well-formed state gives a well-formed state in the same
/// arena, with the same table, whose centre lies within the arena moved in
/// by the radius.
pub proof fn lemma_step_contained(s: Motion)
    requires
        s.well_formed(),
    ensures
        s.step().well_formed(),
        s.step().contained(),
        s.step().radius == s.radius,
        s.step().top_left == s.top_left,
        s.step().bottom_right == s.bottom_right,
        s.step().table == s.table,
{
}

/// After any number of steps from a well-formed state the state is well
/// formed, and after at least one the centre lies within the arena moved in
/// by the radius.
pub proof fn lemma_run_contained(s: Motion, n: nat)
    requires
        s.well_formed(),
    ensures
        s.run(n).well_formed(),
        s.run(n).table == s.table,
        n >= 1 ==> s.run(n).contained(),
    decreases n,
{
    if n > 0 {
        lemma_run_contained(s, (n - 1) as nat);
        lemma_step_contained(s.run((n - 1) as nat));
    }
}

/// A step whose candidate lies strictly inside the arena moved in by the
/// radius takes the candidate as the new position and changes nothing else.
pub proof fn lemma_interior_step(s: Motion)
    requires
        s.left() < s.candidate().0 < s.right(),
        s.top() < s.candidate().1 < s.bottom(),
    ensures
        s.step().position == s.candidate(),
        s.step().velocity == s.velocity,
        s.step().cursor == s.cursor,
        s.step() == (Motion { position: s.candidate(), ..s }),
{
}

/// A step whose candidate reaches both the right and the bottom wall of a
/// well-formed state turns both velocity components inward at one and the
/// same speed, the table's current one, sets the centre in that corner, and
/// moves the cursor on by one place.
pub proof fn lemma_corner_step(s: Motion)
    requires
        s.well_formed(),
        s.left() < s.right(),
        s.top() < s.bottom(),
        s.candidate().0 >= s.right(),
        s.candidate().1 >= s.bottom(),
    ensures
        s.step().velocity == (-s.speed(), -s.speed()),
        s.step().position == (s.right(), s.bottom()),
        s.step().cursor == (s.cursor + 1) % (s.table.len() as int),
{
}

/// The cursor after `n` steps is the cursor at the start moved on by the
/// number of reflections among them, round the table.
pub proof fn lemma_cursor_counts_reflections(s: Motion, n: nat)
    requires
        s.well_formed(),
    ensures
        s.run(n).cursor == (s.cursor + s.reflections(n)) % (s.table.len() as int),
    decreases n,
{
    let len = s.table.len() as int;
    if n == 0 {
        lemma_small_mod(s.cursor as nat, len as nat);
    } else {
        let k = (n - 1) as nat;
        let prev = s.run(k);
        lemma_cursor_counts_reflections(s, k);
        lemma_run_contained(s, k);
        if prev.hits() {
            lemma_add_mod_noop(s.cursor + s.reflections(k), 1, len);
            lemma_small_mod(prev.cursor as nat, len as nat);
            if len == 1 {
                lemma_mod_self_0(1);
            } else {
                lemma_small_mod(1, len as nat);
            }
        }
    }
}

/// After as many reflections as the table has entries the cursor is back
/// where it started.
pub proof fn lemma_cursor_wraps(s: Motion, n: nat)
    requires
        s.well_formed(),
        s.reflections(n) == s.table.len(),
    ensures
        s.run(n).cursor == s.cursor,
{
    let len = s.table.len() as int;
    lemma_cursor_counts_reflections(s, n);
    lemma_add_mod_noop(s.cursor, len, len);
    lemma_mod_self_0(len);
    lemma_small_mod(s.cursor as nat, len as nat);
}

/// The first reflection of a run takes the speed at which the cursor stood
/// at the start: on each axis whose wall the candidate reached, the
/// velocity becomes that speed, directed away from the wall, and the
/// coordinate lies on the wall; on an axis that reached none, the candidate
/// is taken and the velocity stays. The cursor has then moved on by one
/// place.
pub proof fn lemma_first_reflection(s: Motion, n: nat)
    requires
        s.well_formed(),
        s.reflections(n) == 0,
        s.run(n).hits(),
    ensures
        ({
            let before = s.run(n);
            let after = s.run(n + 1);
            let (cx, cy) = before.candidate();
            &&& after.cursor == (s.cursor + 1) % (s.table.len() as int)
            &&& cx <= s.left() ==> after.velocity.0 == s.speed() && after.position.0 == s.left()
            &&& s.left() < cx && cx >= s.right() ==> after.velocity.0 == -s.speed()
                && after.position.0 == s.right()
            &&& s.left() < cx < s.right() ==> after.velocity.0 == before.velocity.0
                && after.position.0 == cx
            &&& cy <= s.top() ==> after.velocity.1 == s.speed() && after.position.1 == s.top()
            &&& s.top() < cy && cy >= s.bottom() ==> after.velocity.1 == -s.speed()
                && after.position.1 == s.bottom()
            &&& s.top() < cy < s.bottom() ==> after.velocity.1 == before.velocity.1
                && after.position.1 == cy
        }),
{
    lemma_run_arena(s, n);
    lemma_cursor_counts_reflections(s, n);
    lemma_small_mod(s.cursor as nat, s.table.len());
    assert(s.run(n + 1) == s.run(n).step());
}

/// A run keeps the radius and the arena.
pub proof fn lemma_run_arena(s: Motion, n: nat)
    requires
        s.well_formed(),
    ensures
        s.run(n).well_formed(),
        s.run(n).radius == s.radius,
        s.run(n).top_left == s.top_left,
        s.run(n).bottom_right == s.bottom_right,
        s.run(n).table == s.table,
    decreases n,
{
    if n > 0 {
        lemma_run_arena(s, (n - 1) as nat);
        lemma_step_contained(s.run((n - 1) as nat));
    }
}

} // verus!

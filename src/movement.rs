//! Four-directional player movement by a constant per-frame step.
use vstd::prelude::*;

verus! {

/// Distance travelled per frame along each axis that has a direction,
/// in hundredths of a world unit.
pub const MOVE_SPEED: i64 = 13;

/// Tags the controllable sprite. It carries no state of its own: where the
/// player stands is a [`Position`] kept beside it.
#[derive(Clone, Copy, Debug, PartialEq, Eq, Structural)]
pub struct Player;

/// A key that steers the player. Each direction has an arrow key and a
/// letter key.
#[derive(Clone, Copy, Debug, PartialEq, Eq, Structural)]
pub enum MoveKey {
    Up,
    W,
    Down,
    S,
    Left,
    A,
    Right,
    D,
}

/// The direction of one frame's movement. Each component is -1, 0 or 1.
#[derive(Clone, Copy, Debug, PartialEq, Eq, Structural)]
pub struct Direction {
    pub x: i64,
    pub y: i64,
}

/// A point of the plane, in hundredths of a world unit.
#[derive(Clone, Copy, Debug, PartialEq, Eq, Structural)]
pub struct Position {
    pub x: i64,
    pub y: i64,
}

/// One of the keys `a` or `b` is among the held keys.
pub open spec fn held(keys: Seq<MoveKey>, a: MoveKey, b: MoveKey) -> bool {
    exists|j: int| 0 <= j < keys.len() && (keys[j] == a || keys[j] == b)
}

/// +1 for the positive key of an axis, -1 for the negative one; both cancel.
pub open spec fn axis(positive: bool, negative: bool) -> int {
    (if positive { 1int } else { 0int }) - (if negative { 1int } else { 0int })
}

/// Horizontal component of the direction that the held keys give.
pub open spec fn dir_x(keys: Seq<MoveKey>) -> int {
    axis(held(keys, MoveKey::Right, MoveKey::D), held(keys, MoveKey::Left, MoveKey::A))
}

/// Vertical component of the direction that the held keys give.
pub open spec fn dir_y(keys: Seq<MoveKey>) -> int {
    axis(held(keys, MoveKey::Up, MoveKey::W), held(keys, MoveKey::Down, MoveKey::S))
}

/// The held keys steer nowhere.
pub open spec fn is_still(keys: Seq<MoveKey>) -> bool {
    dir_x(keys) == 0 && dir_y(keys) == 0
}

/// Sums the contributions of the held keys, one per axis and sign. A key
/// held twice counts once; both keys of an opposing pair cancel.
pub fn direction(keys: &[MoveKey]) -> (d: Direction)
    ensures
        d.x == dir_x(keys@),
        d.y == dir_y(keys@),
        -1 <= d.x <= 1,
        -1 <= d.y <= 1,
{
    let mut up = false;
    let mut down = false;
    let mut left = false;
    let mut right = false;
    let mut i: usize = 0;
    while i < keys.len()
        invariant
            i <= keys@.len(),
            up == held(keys@.take(i as int), MoveKey::Up, MoveKey::W),
            down == held(keys@.take(i as int), MoveKey::Down, MoveKey::S),
            left == held(keys@.take(i as int), MoveKey::Left, MoveKey::A),
            right == held(keys@.take(i as int), MoveKey::Right, MoveKey::D),
        decreases keys@.len() - i,
    {
        let ghost before = keys@.take(i as int);
        match keys[i] {
            MoveKey::Up | MoveKey::W => up = true,
            MoveKey::Down | MoveKey::S => down = true,
            MoveKey::Left | MoveKey::A => left = true,
            MoveKey::Right | MoveKey::D => right = true,
        }
        i = i + 1;
        proof {
            let after = keys@.take(i as int);
            assert(after =~= before.push(keys@[i - 1]));
            lemma_held_push(before, keys@[i - 1], MoveKey::Up, MoveKey::W);
            lemma_held_push(before, keys@[i - 1], MoveKey::Down, MoveKey::S);
            lemma_held_push(before, keys@[i - 1], MoveKey::Left, MoveKey::A);
            lemma_held_push(before, keys@[i - 1], MoveKey::Right, MoveKey::D);
        }
    }
    assert(keys@.take(i as int) =~= keys@);
    let x: i64 = if right { 1 } else { 0 } - if left { 1 } else { 0 };
    let y: i64 = if up { 1 } else { 0 } - if down { 1 } else { 0 };
    Direction { x, y }
}

/// A position can take one more step in any direction without leaving `i64`.
pub open spec fn in_range(p: Position) -> bool {
    i64::MIN + MOVE_SPEED <= p.x <= i64::MAX - MOVE_SPEED
        && i64::MIN + MOVE_SPEED <= p.y <= i64::MAX - MOVE_SPEED
}

/// `q` is `p` shifted by [`MOVE_SPEED`] times the direction `(dx, dy)`.
pub open spec fn moved_by(p: Position, q: Position, dx: int, dy: int) -> bool {
    q.x == p.x + dx * MOVE_SPEED && q.y == p.y + dy * MOVE_SPEED
}

/// One frame of movement: the players' positions in `players` all shift by
/// the held keys' direction times [`MOVE_SPEED`]. Where that direction is zero
/// (no key held, or both keys of each pressed pair) nothing is written.
/// Returns whether the positions were written.
pub fn move_player(keys: &[MoveKey], players: &mut Vec<Position>) -> (moved: bool)
    requires
        forall|i: int| 0 <= i < old(players)@.len() ==> in_range(#[trigger] old(players)@[i]),
    ensures
        moved == !is_still(keys@),
        final(players)@.len() == old(players)@.len(),
        is_still(keys@) ==> final(players)@ == old(players)@,
        forall|i: int|
            0 <= i < old(players)@.len() ==> moved_by(
                #[trigger] old(players)@[i],
                final(players)@[i],
                dir_x(keys@),
                dir_y(keys@),
            ),
{
    let d = direction(keys);
    if d.x == 0 && d.y == 0 {
        return false;
    }
    let dx = d.x * MOVE_SPEED;
    let dy = d.y * MOVE_SPEED;
    let mut i: usize = 0;
    while i < players.len()
        invariant
            d.x == dir_x(keys@),
            d.y == dir_y(keys@),
            -1 <= d.x <= 1,
            -1 <= d.y <= 1,
            dx == d.x * MOVE_SPEED,
            dy == d.y * MOVE_SPEED,
            i <= players@.len(),
            players@.len() == old(players)@.len(),
            forall|j: int|
                0 <= j < i ==> moved_by(#[trigger] old(players)@[j], players@[j], d.x as int, d.y as int),
            forall|j: int| i <= j < players@.len() ==> #[trigger] players@[j] == old(players)@[j],
            forall|j: int| 0 <= j < old(players)@.len() ==> in_range(#[trigger] old(players)@[j]),
        decreases players@.len() - i,
    {
        let p = players[i];
        assert(in_range(old(players)@[i as int]));
        players.set(i, Position { x: p.x + dx, y: p.y + dy });
        i = i + 1;
    }
    true
}

/// Keys of an opposing pair cancel: where, on each axis, the two directions
/// are either both held or both released (no key held at all being one such
/// case), the direction is zero and [`move_player`] leaves every position as
/// it was.
pub proof fn opposing_keys_cancel(keys: Seq<MoveKey>)
    requires
        held(keys, MoveKey::Up, MoveKey::W) == held(keys, MoveKey::Down, MoveKey::S),
        held(keys, MoveKey::Left, MoveKey::A) == held(keys, MoveKey::Right, MoveKey::D),
    ensures
        is_still(keys),
{
}

/// With no key held the direction is zero.
pub proof fn no_keys_still(keys: Seq<MoveKey>)
    requires
        keys.len() == 0,
    ensures
        is_still(keys),
{
}

proof fn lemma_held_push(keys: Seq<MoveKey>, k: MoveKey, a: MoveKey, b: MoveKey)
    ensures
        held(keys.push(k), a, b) == (held(keys, a, b) || k == a || k == b),
{
    let pushed = keys.push(k);
    if held(keys, a, b) {
        let j = choose|j: int| 0 <= j < keys.len() && (keys[j] == a || keys[j] == b);
        assert(pushed[j] == keys[j]);
    }
    if k == a || k == b {
        assert(pushed[keys.len() as int] == k);
    }
    if held(pushed, a, b) {
        let j = choose|j: int| 0 <= j < pushed.len() && (pushed[j] == a || pushed[j] == b);
        if j < keys.len() {
            assert(keys[j] == pushed[j]);
        }
    }
}

} // verus!

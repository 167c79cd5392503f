use vstd::prelude::*;

use crate::game::{board_info, color_of, Game, SquareColor, SquareStatus, WhichPlayer, BOARD_SIZE};

verus! {

broadcast use vstd::array::group_array_axioms;

/// The house level seat `who` has built on the square at `q`: its level when
/// `who` owns it unmortgaged, else zero.
pub open spec fn owned_level(g: Game, who: WhichPlayer, q: int) -> u8 {
    match g.board_status[q] {
        SquareStatus::Owned { by, level } => if by == who {
            level
        } else {
            0
        },
        _ => 0,
    }
}

/// The highest `owned_level` of `who` over the squares of colour `c` among the
/// first `n` squares.
pub open spec fn max_group_level(g: Game, who: WhichPlayer, c: SquareColor, n: nat) -> u8
    decreases n,
{
    if n == 0 {
        0
    } else {
        let rest = max_group_level(g, who, c, (n - 1) as nat);
        let here = owned_level(g, who, n - 1);
        if color_of(n - 1) == c && here > rest {
            here
        } else {
            rest
        }
    }
}

/// Whether `who` holds the square, owned or mortgaged.
pub open spec fn held_by(s: SquareStatus, who: WhichPlayer) -> bool {
    match s {
        SquareStatus::Owned { by, .. } => by == who,
        SquareStatus::Mortgaged { by } => by == who,
        SquareStatus::Unowned => false,
    }
}

/// Whether `who` holds every square of colour `c`.
pub open spec fn holds_group(g: Game, who: WhichPlayer, c: SquareColor) -> bool {
    forall|q: int| 0 <= q < 16 && color_of(q) == c ==> held_by(#[trigger] g.board_status[q], who)
}

/// Whether `who` has no house on any square of colour `c`.
pub open spec fn group_unbuilt(g: Game, who: WhichPlayer, c: SquareColor) -> bool {
    forall|q: int| 0 <= q < 16 && color_of(q) == c ==> #[trigger] owned_level(g, who, q) == 0
}

/// Houses are built evenly: on each colour, the levels `who` has built on any
/// two squares differ by at most one.
pub open spec fn evenly_built(g: Game, who: WhichPlayer) -> bool {
    forall|q: int, r: int|
        0 <= q < 16 && 0 <= r < 16 && color_of(q) == color_of(r) ==> #[trigger] owned_level(g, who, q)
            <= #[trigger] owned_level(g, who, r) + 1
}

/// The number of houses `who` has on the first `n` squares.
pub open spec fn level_sum(g: Game, who: WhichPlayer, n: nat) -> int
    decreases n,
{
    if n == 0 {
        0
    } else {
        level_sum(g, who, (n - 1) as nat) + owned_level(g, who, n - 1)
    }
}

/// No square of colour `c` below `n` has an `owned_level` above the maximum.
pub proof fn lemma_max_group_level_bounds(g: Game, who: WhichPlayer, c: SquareColor, n: nat)
    ensures
        forall|q: int| 0 <= q < n && color_of(q) == c ==> owned_level(g, who, q) <= max_group_level(g, who, c, n),
    decreases n,
{
    if n > 0 {
        lemma_max_group_level_bounds(g, who, c, (n - 1) as nat);
    }
}

/// The maximum over a colour is zero or the level of one of its squares.
pub proof fn lemma_max_group_level_attained(g: Game, who: WhichPlayer, c: SquareColor, n: nat)
    ensures
        max_group_level(g, who, c, n) == 0 || exists|q: int|
            0 <= q < n && color_of(q) == c && owned_level(g, who, q) == max_group_level(g, who, c, n),
    decreases n,
{
    if n > 0 {
        lemma_max_group_level_attained(g, who, c, (n - 1) as nat);
    }
}

/// Two games whose `owned_level`s agree but at `p`, where the second has one
/// house less, differ by one in `level_sum` over any prefix holding `p`.
pub proof fn lemma_level_sum_one_less(g: Game, h: Game, who: WhichPlayer, p: int, n: nat)
    requires
        0 <= p < 16,
        n <= 16,
        forall|q: int| 0 <= q < 16 && q != p ==> owned_level(h, who, q) == owned_level(g, who, q),
        owned_level(h, who, p) + 1 == owned_level(g, who, p),
    ensures
        level_sum(h, who, n) == level_sum(g, who, n) - (if p < n { 1int } else { 0 }),
    decreases n,
{
    if n > 0 {
        lemma_level_sum_one_less(g, h, who, p, (n - 1) as nat);
    }
}

/// `owned_level` computed.
pub fn level_of(g: &Game, who: WhichPlayer, q: usize) -> (l: u8)
    requires
        q < 16,
    ensures
        l == owned_level(*g, who, q as int),
{
    match g.board_status[q] {
        SquareStatus::Owned { by, level } => if by == who {
            level
        } else {
            0
        },
        _ => 0,
    }
}

/// Whether `who` holds every square of colour `color` (a monopoly).
pub fn is_monopoly(g: &Game, who: WhichPlayer, color: SquareColor) -> (r: bool)
    ensures
        r == holds_group(*g, who, color),
{
    let mut q: usize = 0;
    while q < 16
        invariant
            q <= 16,
            forall|p: int| 0 <= p < q && color_of(p) == color ==> held_by(#[trigger] g.board_status[p], who),
        decreases 16 - q,
    {
        let info = board_info(q as u8);
        if info.color == color {
            let held = match g.board_status[q] {
                SquareStatus::Owned { by, .. } => by == who,
                SquareStatus::Mortgaged { by } => by == who,
                SquareStatus::Unowned => false,
            };
            if !held {
                return false;
            }
        }
        q = q + 1;
    }
    true
}

/// Whether `who` has no house on any square of colour `color`.
pub fn is_unbuilt(g: &Game, who: WhichPlayer, color: SquareColor) -> (r: bool)
    ensures
        r == group_unbuilt(*g, who, color),
{
    let mut q: usize = 0;
    while q < 16
        invariant
            q <= 16,
            forall|p: int| 0 <= p < q && color_of(p) == color ==> #[trigger] owned_level(*g, who, p) == 0,
        decreases 16 - q,
    {
        let info = board_info(q as u8);
        if info.color == color {
            if level_of(g, who, q) != 0 {
                return false;
            }
        }
        q = q + 1;
    }
    true
}

/// The highest house level `who` has on the squares of colour `color`.
pub fn highest_level(g: &Game, who: WhichPlayer, color: SquareColor) -> (m: u8)
    ensures
        m == max_group_level(*g, who, color, BOARD_SIZE as nat),
{
    let mut m: u8 = 0;
    let mut q: usize = 0;
    while q < 16
        invariant
            q <= 16,
            m == max_group_level(*g, who, color, q as nat),
        decreases 16 - q,
    {
        let info = board_info(q as u8);
        let here = level_of(g, who, q);
        if info.color == color && here > m {
            m = here;
        }
        q = q + 1;
    }
    m
}

} // verus!

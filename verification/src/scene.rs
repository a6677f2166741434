//! The windows on screen: where they are, which one is under the pointer and
//! which ones are gone.

use vstd::prelude::*;

verus! {

/// Names a client surface for as long as the program runs.
#[derive(Clone, Copy, Debug, PartialEq, Eq, Structural)]
pub struct SurfaceId {
    pub raw: u64,
}

/// A position in logical pixels.
#[derive(Clone, Copy, Debug, PartialEq, Eq, Structural)]
pub struct Position {
    pub x: i32,
    pub y: i32,
}

/// A client window in the layout, in logical pixels.
#[derive(Clone, Copy, Debug, PartialEq, Eq, Structural)]
pub struct Tile {
    pub surface: SurfaceId,
    pub position: Position,
    pub width: i32,
    pub height: i32,
}

impl Tile {
    /// Whether the point lies on the tile: on its left or top edge or inside.
    pub open spec fn covers(self, x: int, y: int) -> bool {
        &&& self.position.x <= x < self.position.x + self.width
        &&& self.position.y <= y < self.position.y + self.height
    }

    /// Whether the point lies on the tile.
    pub fn contains(&self, x: i64, y: i64) -> (inside: bool)
        ensures
            inside == self.covers(x as int, y as int),
    {
        let left: i64 = self.position.x as i64;
        let top: i64 = self.position.y as i64;
        x >= left && x < left + self.width as i64 && y >= top && y < top + self.height as i64
    }
}

/// Whether `hit` is what a look at the stack of tiles from the front finds under
/// the point: the last tile that covers it.
pub open spec fn is_topmost_at(tiles: Seq<Tile>, x: int, y: int, hit: Option<usize>) -> bool {
    match hit {
        Some(i) => {
            &&& i < tiles.len()
            &&& tiles[i as int].covers(x, y)
            &&& forall|j: int| i < j < tiles.len() ==> !(#[trigger] tiles[j]).covers(x, y)
        },
        None => forall|j: int| 0 <= j < tiles.len() ==> !(#[trigger] tiles[j]).covers(x, y),
    }
}

/// The tile under the pointer. Later tiles are drawn over earlier ones. The
/// coordinates are those of the pointer, rounded down: as the edges of tiles are
/// whole numbers, that changes no comparison with them.
pub fn hit_test(tiles: &[Tile], x: i64, y: i64) -> (hit: Option<usize>)
    ensures
        is_topmost_at(tiles@, x as int, y as int, hit),
{
    let mut i: usize = tiles.len();
    while i > 0
        invariant
            i <= tiles@.len(),
            forall|j: int|
                i <= j < tiles@.len() ==> !(#[trigger] tiles@[j]).covers(x as int, y as int),
        decreases i,
    {
        i = i - 1;
        if tiles[i].contains(x, y) {
            return Some(i);
        }
    }
    None
}

/// The surface under the pointer, and where its top left corner is.
#[derive(Clone, Copy, Debug, PartialEq, Eq, Structural)]
pub struct PointerFocus {
    pub surface: SurfaceId,
    pub origin: Position,
}

/// The focus that a tile gives when it is hit.
pub open spec fn focus_of(tiles: Seq<Tile>, hit: Option<usize>) -> Option<PointerFocus> {
    match hit {
        Some(i) => Some(
            PointerFocus { surface: tiles[i as int].surface, origin: tiles[i as int].position },
        ),
        None => None,
    }
}

/// Whether `focus` is the surface under the pointer: that of the topmost tile
/// there. A pointer that is nowhere is over no tile.
pub open spec fn is_focus_at(
    tiles: Seq<Tile>,
    pointer: Option<(i64, i64)>,
    focus: Option<PointerFocus>,
) -> bool {
    match pointer {
        Some((x, y)) => exists|hit: Option<usize>|
            #[trigger] is_topmost_at(tiles, x as int, y as int, hit) && focus == focus_of(
                tiles,
                hit,
            ),
        None => focus is None,
    }
}

/// The surface under the pointer, whose coordinates are rounded down.
pub fn pointer_focus(tiles: &[Tile], pointer: Option<(i64, i64)>) -> (focus: Option<PointerFocus>)
    ensures
        is_focus_at(tiles@, pointer, focus),
{
    match pointer {
        Some((x, y)) => {
            let hit = hit_test(tiles, x, y);
            assert(is_topmost_at(tiles@, x as int, y as int, hit));
            match hit {
                Some(i) => Some(
                    PointerFocus { surface: tiles[i].surface, origin: tiles[i].position },
                ),
                None => None,
            }
        },
        None => None,
    }
}

/// The position of the first tile that shows `surface`; a surface without a
/// tile counts as one at the origin.
pub open spec fn origin_of(tiles: Seq<Tile>, surface: SurfaceId) -> Position
    decreases tiles.len(),
{
    if tiles.len() == 0 {
        Position { x: 0, y: 0 }
    } else if tiles[0].surface == surface {
        tiles[0].position
    } else {
        origin_of(tiles.drop_first(), surface)
    }
}

/// The position of the tile that shows `surface`, the origin where none does.
pub fn tile_origin(tiles: &[Tile], surface: SurfaceId) -> (origin: Position)
    ensures
        origin == origin_of(tiles@, surface),
{
    let mut i: usize = 0;
    assert(tiles@.skip(0) =~= tiles@);
    while i < tiles.len()
        invariant
            i <= tiles@.len(),
            origin_of(tiles@.skip(i as int), surface) == origin_of(tiles@, surface),
        decreases tiles@.len() - i,
    {
        if tiles[i].surface == surface {
            return tiles[i].position;
        }
        assert(tiles@.skip(i as int).drop_first() =~= tiles@.skip(i + 1));
        i = i + 1;
    }
    Position { x: 0, y: 0 }
}

/// Where the top left corner of a popup is, relative to the layout: its place in
/// its parent, moved by the parent's position. A popup without a parent, or one
/// that was not placed yet, is nowhere.
pub open spec fn popup_origin_of(
    tiles: Seq<Tile>,
    parent: Option<SurfaceId>,
    offset: Option<Position>,
) -> Option<(int, int)> {
    match (parent, offset) {
        (Some(parent), Some(offset)) => {
            let origin = origin_of(tiles, parent);
            Some((origin.x + offset.x, origin.y + offset.y))
        },
        _ => None,
    }
}

/// Whether a popup, if it is anywhere, is at coordinates that an `i32` holds.
pub open spec fn popup_origin_fits(
    tiles: Seq<Tile>,
    parent: Option<SurfaceId>,
    offset: Option<Position>,
) -> bool {
    popup_origin_of(tiles, parent, offset) matches Some((x, y)) ==> {
        &&& i32::MIN <= x <= i32::MAX
        &&& i32::MIN <= y <= i32::MAX
    }
}

/// Where to draw a popup, if it is to be drawn at all.
pub fn popup_origin(tiles: &[Tile], parent: Option<SurfaceId>, offset: Option<Position>) -> (origin:
    Option<Position>)
    requires
        popup_origin_fits(tiles@, parent, offset),
    ensures
        origin is Some <==> popup_origin_of(tiles@, parent, offset) is Some,
        origin matches Some(origin) ==> popup_origin_of(tiles@, parent, offset) == Some(
            (origin.x as int, origin.y as int),
        ),
{
    match (parent, offset) {
        (Some(parent), Some(offset)) => {
            let origin = tile_origin(tiles, parent);
            Some(Position { x: origin.x + offset.x, y: origin.y + offset.y })
        },
        _ => None,
    }
}

/// The items that are alive, in their order.
pub open spec fn survivors<T>(items: Seq<T>, alive: Seq<bool>) -> Seq<T>
    decreases items.len(),
{
    if items.len() == 0 {
        Seq::empty()
    } else if alive.last() {
        survivors(items.drop_last(), alive.drop_last()).push(items.last())
    } else {
        survivors(items.drop_last(), alive.drop_last())
    }
}

/// The items that are gone, in their order.
pub open spec fn casualties<T>(items: Seq<T>, alive: Seq<bool>) -> Seq<T> {
    survivors(items, alive.map_values(|a: bool| !a))
}

/// Looking at one more item from the front.
proof fn lemma_survivors_step<T>(items: Seq<T>, alive: Seq<bool>, i: int)
    requires
        items.len() == alive.len(),
        0 <= i < items.len(),
    ensures
        survivors(items.take(i + 1), alive.take(i + 1)) == (if alive[i] {
            survivors(items.take(i), alive.take(i)).push(items[i])
        } else {
            survivors(items.take(i), alive.take(i))
        }),
{
    assert(items.take(i + 1).drop_last() =~= items.take(i));
    assert(alive.take(i + 1).drop_last() =~= alive.take(i));
}

/// Drops the items that are not alive. The others stay in order.
pub fn retain_alive<T>(items: &mut Vec<T>, alive: &[bool])
    requires
        old(items)@.len() == alive@.len(),
    ensures
        final(items)@ == survivors(old(items)@, alive@),
{
    let ghost before = items@;
    let mut next: usize = 0;
    let mut i: usize = 0;
    while i < alive.len()
        invariant
            before.len() == alive@.len(),
            i <= alive@.len(),
            next <= i,
            next == survivors(before.take(i as int), alive@.take(i as int)).len(),
            items@ == survivors(before.take(i as int), alive@.take(i as int)) + before.skip(
                i as int,
            ),
        decreases alive@.len() - i,
    {
        proof {
            lemma_survivors_step(before, alive@, i as int);
        }
        let ghost kept = survivors(before.take(i as int), alive@.take(i as int));
        if alive[i] {
            assert(kept + before.skip(i as int) =~= kept.push(before[i as int]) + before.skip(
                i + 1,
            ));
            next = next + 1;
        } else {
            items.remove(next);
            assert((kept + before.skip(i as int)).remove(next as int) =~= kept + before.skip(
                i + 1,
            ));
        }
        i = i + 1;
    }
    assert(before.take(alive@.len() as int) =~= before);
    assert(alive@.take(alive@.len() as int) =~= alive@);
    assert(before.skip(alive@.len() as int) =~= Seq::<T>::empty());
}

/// The surfaces of the tiles, in order.
pub open spec fn surfaces_of(tiles: Seq<Tile>) -> Seq<SurfaceId> {
    tiles.map_values(|tile: Tile| tile.surface)
}

/// The surfaces whose cached textures are to be dropped: those of the tiles that
/// are gone.
pub fn evictions(tiles: &[Tile], alive: &[bool]) -> (gone: Vec<SurfaceId>)
    requires
        tiles@.len() == alive@.len(),
    ensures
        gone@ == casualties(surfaces_of(tiles@), alive@),
{
    let ghost surfaces = surfaces_of(tiles@);
    let ghost dead = alive@.map_values(|a: bool| !a);
    let mut gone: Vec<SurfaceId> = Vec::new();
    let mut i: usize = 0;
    while i < tiles.len()
        invariant
            tiles@.len() == alive@.len(),
            surfaces == surfaces_of(tiles@),
            dead == alive@.map_values(|a: bool| !a),
            i <= tiles@.len(),
            gone@ == survivors(surfaces.take(i as int), dead.take(i as int)),
        decreases tiles@.len() - i,
    {
        proof {
            lemma_survivors_step(surfaces, dead, i as int);
        }
        if !alive[i] {
            gone.push(tiles[i].surface);
        }
        i = i + 1;
    }
    assert(surfaces.take(tiles@.len() as int) =~= surfaces);
    assert(dead.take(tiles@.len() as int) =~= dead);
    gone
}

/// Where the item at index `i` ends up if it is alive.
pub open spec fn rank(alive: Seq<bool>, i: int) -> int
    decreases i,
{
    if i <= 0 {
        0
    } else {
        rank(alive, i - 1) + (if alive[i - 1] {
            1int
        } else {
            0int
        })
    }
}

/// Every item that is alive survives, behind the survivors that stood before
/// it.
pub proof fn law_the_living_stay<T>(items: Seq<T>, alive: Seq<bool>, i: int)
    requires
        items.len() == alive.len(),
        0 <= i < items.len(),
        alive[i],
    ensures
        0 <= rank(alive, i) < survivors(items, alive).len(),
        survivors(items, alive)[rank(alive, i)] == items[i],
    decreases items.len(),
{
    lemma_rank_counts(items, alive);
    if i < items.len() - 1 {
        law_the_living_stay(items.drop_last(), alive.drop_last(), i);
        lemma_rank_prefix(alive, alive.drop_last(), i);
    } else {
        lemma_rank_counts(items.drop_last(), alive.drop_last());
        lemma_rank_prefix(alive, alive.drop_last(), i);
    }
}

proof fn lemma_rank_prefix(a: Seq<bool>, b: Seq<bool>, i: int)
    requires
        forall|j: int| 0 <= j < i ==> a[j] == b[j],
    ensures
        rank(a, i) == rank(b, i),
        rank(a, i) >= 0,
    decreases i,
{
    if i > 0 {
        lemma_rank_prefix(a, b, i - 1);
    }
}

proof fn lemma_rank_counts<T>(items: Seq<T>, alive: Seq<bool>)
    requires
        items.len() == alive.len(),
    ensures
        survivors(items, alive).len() == rank(alive, items.len() as int),
    decreases items.len(),
{
    if items.len() > 0 {
        lemma_rank_counts(items.drop_last(), alive.drop_last());
        lemma_rank_prefix(alive, alive.drop_last(), items.len() - 1);
    }
}

/// Every survivor is an item that was alive.
pub proof fn law_only_the_living_stay<T>(items: Seq<T>, alive: Seq<bool>, k: int) -> (i: int)
    requires
        items.len() == alive.len(),
        0 <= k < survivors(items, alive).len(),
    ensures
        0 <= i < items.len(),
        alive[i],
        items[i] == survivors(items, alive)[k],
    decreases items.len(),
{
    if alive.last() && k == survivors(items, alive).len() - 1 {
        items.len() - 1
    } else {
        law_only_the_living_stay(items.drop_last(), alive.drop_last(), k)
    }
}

/// Nothing is counted twice or lost: each item either stays or is gone.
pub proof fn law_each_item_stays_or_is_gone<T>(items: Seq<T>, alive: Seq<bool>)
    requires
        items.len() == alive.len(),
    ensures
        survivors(items, alive).len() + casualties(items, alive).len() == items.len(),
        survivors(items, alive).to_multiset().add(casualties(items, alive).to_multiset())
            =~= items.to_multiset(),
    decreases items.len(),
{
    broadcast use vstd::seq_lib::group_to_multiset_ensures;

    let dead = alive.map_values(|a: bool| !a);
    if items.len() > 0 {
        let rest = items.drop_last();
        law_each_item_stays_or_is_gone(rest, alive.drop_last());
        assert(dead.drop_last() =~= alive.drop_last().map_values(|a: bool| !a));
        assert(items =~= rest.push(items.last()));
    } else {
        assert(survivors(items, dead) =~= items);
    }
}

/// While every item is alive, nothing is dropped and nothing is evicted.
pub proof fn law_all_alive_changes_nothing<T>(items: Seq<T>, alive: Seq<bool>)
    requires
        items.len() == alive.len(),
        forall|i: int| 0 <= i < alive.len() ==> alive[i],
    ensures
        survivors(items, alive) == items,
        casualties(items, alive) == Seq::<T>::empty(),
    decreases items.len(),
{
    let dead = alive.map_values(|a: bool| !a);
    if items.len() > 0 {
        law_all_alive_changes_nothing(items.drop_last(), alive.drop_last());
        assert(dead.drop_last() =~= alive.drop_last().map_values(|a: bool| !a));
        assert(items =~= items.drop_last().push(items.last()));
    } else {
        assert(survivors(items, alive) =~= items);
    }
}

/// What is under the pointer is determined by the tiles.
pub proof fn law_focus_is_determined(
    tiles: Seq<Tile>,
    pointer: Option<(i64, i64)>,
    focus1: Option<PointerFocus>,
    focus2: Option<PointerFocus>,
)
    requires
        is_focus_at(tiles, pointer, focus1),
        is_focus_at(tiles, pointer, focus2),
    ensures
        focus1 == focus2,
{
    if let Some((x, y)) = pointer {
        let hit1 = choose|hit: Option<usize>|
            #[trigger] is_topmost_at(tiles, x as int, y as int, hit) && focus1 == focus_of(
                tiles,
                hit,
            );
        let hit2 = choose|hit: Option<usize>|
            #[trigger] is_topmost_at(tiles, x as int, y as int, hit) && focus2 == focus_of(
                tiles,
                hit,
            );
        law_one_tile_is_topmost(tiles, x as int, y as int, hit1, hit2);
    }
}

/// What is under a point is determined by the tiles.
pub proof fn law_one_tile_is_topmost(
    tiles: Seq<Tile>,
    x: int,
    y: int,
    hit1: Option<usize>,
    hit2: Option<usize>,
)
    requires
        is_topmost_at(tiles, x, y, hit1),
        is_topmost_at(tiles, x, y, hit2),
    ensures
        hit1 == hit2,
{
    if let Some(i) = hit1 {
        assert(tiles[i as int].covers(x, y));
    }
    if let Some(i) = hit2 {
        assert(tiles[i as int].covers(x, y));
    }
}

/// A tile covers exactly the points of its rectangle: those less than its width
/// to the right and less than its height below its top left corner.
pub proof fn law_tile_covers_its_rectangle(tile: Tile, dx: int, dy: int)
    ensures
        tile.covers(tile.position.x + dx, tile.position.y + dy) <==> 0 <= dx < tile.width && 0 <= dy
            < tile.height,
{
}

/// What a hit test finds holds the point in its rectangle, and nothing in front
/// of it does; a hit test finds nothing only where no rectangle holds the point.
pub proof fn law_hit_is_in_front(tiles: Seq<Tile>, x: int, y: int, hit: Option<usize>, j: int)
    requires
        is_topmost_at(tiles, x, y, hit),
        0 <= j < tiles.len(),
        0 <= x - tiles[j].position.x < tiles[j].width,
        0 <= y - tiles[j].position.y < tiles[j].height,
    ensures
        hit matches Some(i) && {
            &&& j <= i < tiles.len()
            &&& 0 <= x - tiles[i as int].position.x < tiles[i as int].width
            &&& 0 <= y - tiles[i as int].position.y < tiles[i as int].height
        },
{
    assert(tiles[j].covers(x, y));
}

/// A hit is a tile whose rectangle holds the point.
pub proof fn law_hit_holds_the_point(tiles: Seq<Tile>, x: int, y: int, hit: Option<usize>)
    requires
        is_topmost_at(tiles, x, y, hit),
    ensures
        hit matches Some(i) ==> {
            &&& i < tiles.len()
            &&& tiles[i as int].position.x <= x
            &&& x - tiles[i as int].position.x < tiles[i as int].width
            &&& tiles[i as int].position.y <= y
            &&& y - tiles[i as int].position.y < tiles[i as int].height
        },
{
}

/// The surface under the pointer is that of a tile whose rectangle holds the
/// pointer, with no such tile in front of it.
pub proof fn law_focus_is_under_the_pointer(
    tiles: Seq<Tile>,
    x: i64,
    y: i64,
    focus: Option<PointerFocus>,
) -> (i: int)
    requires
        is_focus_at(tiles, Some((x, y)), focus),
        focus is Some,
    ensures
        0 <= i < tiles.len(),
        tiles[i].surface == focus->0.surface,
        tiles[i].position == focus->0.origin,
        0 <= x - tiles[i].position.x < tiles[i].width,
        0 <= y - tiles[i].position.y < tiles[i].height,
        forall|j: int|
            i < j < tiles.len() ==> !(0 <= x - (#[trigger] tiles[j]).position.x < tiles[j].width
                && 0 <= y - tiles[j].position.y < tiles[j].height),
{
    let hit = choose|hit: Option<usize>|
        #[trigger] is_topmost_at(tiles, x as int, y as int, hit) && focus == focus_of(tiles, hit);
    let i = hit->0 as int;
    assert forall|j: int| i < j < tiles.len() implies !(0 <= x - (#[trigger] tiles[j]).position.x
        < tiles[j].width && 0 <= y - tiles[j].position.y < tiles[j].height) by {
        assert(!tiles[j].covers(x as int, y as int));
    }
    i
}

/// A pointer that is nowhere is over no surface.
pub proof fn law_pointer_nowhere_has_no_focus(tiles: Seq<Tile>, focus: Option<PointerFocus>)
    requires
        is_focus_at(tiles, None, focus),
    ensures
        focus is None,
{
}

/// Wherever the rectangle of a tile holds the pointer, some surface is under it.
pub proof fn law_pointer_over_a_tile_has_focus(
    tiles: Seq<Tile>,
    x: i64,
    y: i64,
    focus: Option<PointerFocus>,
    j: int,
)
    requires
        is_focus_at(tiles, Some((x, y)), focus),
        0 <= j < tiles.len(),
        0 <= x - tiles[j].position.x < tiles[j].width,
        0 <= y - tiles[j].position.y < tiles[j].height,
    ensures
        focus is Some,
{
    assert(tiles[j].covers(x as int, y as int));
}

/// The origin of a surface is the position of the first tile that shows it,
/// wherever that stands among the tiles.
pub proof fn law_origin_is_where_the_tile_is(tiles: Seq<Tile>, surface: SurfaceId, i: int)
    requires
        0 <= i < tiles.len(),
        tiles[i].surface == surface,
        forall|j: int| 0 <= j < i ==> (#[trigger] tiles[j]).surface != surface,
    ensures
        origin_of(tiles, surface) == tiles[i].position,
    decreases tiles.len(),
{
    if i > 0 {
        assert(tiles[0].surface != surface);
        let rest = tiles.drop_first();
        assert forall|j: int| 0 <= j < i - 1 implies (#[trigger] rest[j]).surface != surface by {
            assert(rest[j] == tiles[j + 1]);
        }
        law_origin_is_where_the_tile_is(rest, surface, i - 1);
    }
}

/// The origin of a surface that no tile shows is (0, 0).
pub proof fn law_origin_without_a_tile(tiles: Seq<Tile>, surface: SurfaceId)
    requires
        forall|j: int| 0 <= j < tiles.len() ==> (#[trigger] tiles[j]).surface != surface,
    ensures
        origin_of(tiles, surface).x == 0,
        origin_of(tiles, surface).y == 0,
    decreases tiles.len(),
{
    if tiles.len() > 0 {
        assert(tiles[0].surface != surface);
        let rest = tiles.drop_first();
        assert forall|j: int| 0 <= j < rest.len() implies (#[trigger] rest[j]).surface
            != surface by {
            assert(rest[j] == tiles[j + 1]);
        }
        law_origin_without_a_tile(rest, surface);
    }
}

/// A popup is drawn at its offset from the tile of its parent.
pub proof fn law_popup_is_placed_in_its_parent(
    tiles: Seq<Tile>,
    parent: SurfaceId,
    offset: Position,
    i: int,
)
    requires
        0 <= i < tiles.len(),
        tiles[i].surface == parent,
        forall|j: int| 0 <= j < i ==> (#[trigger] tiles[j]).surface != parent,
    ensures
        popup_origin_of(tiles, Some(parent), Some(offset)) matches Some((x, y)) && {
            &&& x - tiles[i].position.x == offset.x
            &&& y - tiles[i].position.y == offset.y
        },
        popup_origin_fits(tiles, Some(parent), Some(offset)) <==> {
            &&& i32::MIN <= tiles[i].position.x + offset.x <= i32::MAX
            &&& i32::MIN <= tiles[i].position.y + offset.y <= i32::MAX
        },
{
    law_origin_is_where_the_tile_is(tiles, parent, i);
}

/// A popup whose parent has no tile is drawn at its offset from (0, 0).
pub proof fn law_popup_without_a_parent_tile(
    tiles: Seq<Tile>,
    parent: SurfaceId,
    offset: Position,
)
    requires
        forall|j: int| 0 <= j < tiles.len() ==> (#[trigger] tiles[j]).surface != parent,
    ensures
        popup_origin_of(tiles, Some(parent), Some(offset)) == Some(
            (offset.x as int, offset.y as int),
        ),
        popup_origin_fits(tiles, Some(parent), Some(offset)),
{
    law_origin_without_a_tile(tiles, parent);
}

/// A popup is drawn if and only if it has a parent and was placed; one that is
/// not drawn asks nothing of the coordinates.
pub proof fn law_popup_needs_parent_and_place(
    tiles: Seq<Tile>,
    parent: Option<SurfaceId>,
    offset: Option<Position>,
)
    ensures
        popup_origin_of(tiles, parent, offset) is Some <==> parent is Some && offset is Some,
        parent is None || offset is None ==> popup_origin_fits(tiles, parent, offset),
{
}

/// One more item at the end joins the survivors if it is alive and those that
/// are gone otherwise, and changes nothing else about either.
pub proof fn law_one_more_item<T>(items: Seq<T>, alive: Seq<bool>, item: T, lives: bool)
    requires
        items.len() == alive.len(),
    ensures
        lives ==> survivors(items.push(item), alive.push(lives)) == survivors(items, alive).push(
            item,
        ),
        lives ==> casualties(items.push(item), alive.push(lives)) == casualties(items, alive),
        !lives ==> survivors(items.push(item), alive.push(lives)) == survivors(items, alive),
        !lives ==> casualties(items.push(item), alive.push(lives)) == casualties(
            items,
            alive,
        ).push(item),
        survivors(Seq::<T>::empty(), Seq::<bool>::empty()) == Seq::<T>::empty(),
        casualties(Seq::<T>::empty(), Seq::<bool>::empty()) == Seq::<T>::empty(),
{
    let dead = alive.map_values(|a: bool| !a);
    assert(items.push(item).drop_last() =~= items);
    assert(alive.push(lives).drop_last() =~= alive);
    assert(alive.push(lives).map_values(|a: bool| !a).drop_last() =~= dead);
}

/// Each tile contributes its own surface, in its place.
pub proof fn law_surfaces_in_order(tiles: Seq<Tile>, i: int)
    requires
        0 <= i < tiles.len(),
    ensures
        surfaces_of(tiles).len() == tiles.len(),
        surfaces_of(tiles)[i] == tiles[i].surface,
{
}

} // verus!

//! The snake's body: an arena of segments linked from head to tail.

use vstd::prelude::*;

use crate::components::game_position::{GamePositionComponent, Position};
use crate::components::snake_part::SnakePartComponent;
use crate::snake::Direction;

verus! {

/// One segment of the snake as the arena stores it.
#[derive(Clone, Copy, Debug, PartialEq, Eq)]
pub struct SnakeSegment {
    pub position: GamePositionComponent,
    pub part: SnakePartComponent,
}

/// The positions of a chain after one advance in `direction`.
///
/// The head moves to its neighbouring cell, every other segment takes the
/// cell that its predecessor held before the advance, and with `grow` a new
/// tail appears on the cell that the former tail has just left.
pub open spec fn advanced(positions: Seq<Position>, direction: Direction, grow: bool) -> Seq<
    Position,
>
    recommends
        positions.len() >= 1,
{
    let moved = Seq::new(
        positions.len(),
        |i: int|
            if i == 0 {
                positions[0].shifted(direction)
            } else {
                positions[i - 1]
            },
    );
    if grow {
        moved.push(positions[positions.len() - 1])
    } else {
        moved
    }
}

/// A move shifts all segments at once: the head takes its neighbouring
/// cell, and every other segment the cell that its predecessor held before
/// the move, not the one it holds after it. The snake grows by one segment
/// with `grow`, on the cell that the former tail held, and by none without.
pub proof fn lemma_move_shifts_all_at_once(
    positions: Seq<Position>,
    direction: Direction,
    grow: bool,
)
    requires
        positions.len() >= 1,
    ensures
        advanced(positions, direction, grow).len() == positions.len() + (if grow {
            1int
        } else {
            0int
        }),
        advanced(positions, direction, grow)[0] == positions[0].shifted(direction),
        forall|i: int|
            1 <= i < positions.len() ==> #[trigger] advanced(positions, direction, grow)[i]
                == positions[i - 1],
        grow ==> advanced(positions, direction, grow).last() == positions.last(),
{
}

/// The identifiers met when following the links from `start`, over at most
/// `limit` segments. The walk ends at a segment without a link, or at a link
/// that leaves the arena.
pub open spec fn walk(arena: Seq<SnakeSegment>, start: Option<usize>, limit: nat) -> Seq<usize>
    decreases limit,
{
    match start {
        Some(id) if limit > 0 && id < arena.len() => seq![id] + walk(
            arena,
            arena[id as int].part.next_snake_part,
            (limit - 1) as nat,
        ),
        _ => Seq::empty(),
    }
}

/// Whether a segment behind the head shares the head's cell.
pub open spec fn overlaps_itself(positions: Seq<Position>) -> bool {
    exists|i: int| 1 <= i < positions.len() && #[trigger] positions[i] == positions[0]
}

/// The snake: segments in an arena, each naming the next one towards the
/// tail by its index, and the index of the head.
pub struct SnakeChain {
    segments: Vec<SnakeSegment>,
    head: usize,
    order: Ghost<Seq<usize>>,
    rank: Ghost<Seq<int>>,
}

impl View for SnakeChain {
    type V = Seq<Position>;

    /// The positions of the segments, head first.
    open spec fn view(&self) -> Seq<Position> {
        Seq::new(
            self.order().len(),
            |i: int| self.arena()[self.order()[i] as int].position.position,
        )
    }
}

impl SnakeChain {
    /// The segments by identifier.
    pub closed spec fn arena(&self) -> Seq<SnakeSegment> {
        self.segments@
    }

    /// The identifier of the head.
    pub closed spec fn spec_head(&self) -> usize {
        self.head
    }

    /// The identifiers of the segments in chain order, head first.
    pub closed spec fn order(&self) -> Seq<usize> {
        self.order@
    }

    /// For each identifier, its place in `order`.
    pub closed spec fn rank(&self) -> Seq<int> {
        self.rank@
    }

    /// The chain is intact: `order` starts at the head, lists every segment
    /// of the arena exactly once, each segment links to the one listed after
    /// it, and the last one links to none.
    pub open spec fn wf(&self) -> bool {
        let n = self.arena().len();
        &&& n >= 1
        &&& self.order().len() == n
        &&& self.rank().len() == n
        &&& self.order()[0] == self.spec_head()
        &&& forall|i: int|
            0 <= i < n ==> 0 <= #[trigger] self.order()[i] < n && self.rank()[self.order()[i] as int]
                == i
        &&& forall|id: int|
            0 <= id < n ==> 0 <= #[trigger] self.rank()[id] < n && self.order()[self.rank()[id]]
                == id
        &&& forall|i: int|
            0 <= i < n - 1 ==> (#[trigger] self.arena()[self.order()[i] as int]).part.next_snake_part
                == Some(self.order()[i + 1])
        &&& self.arena()[self.order()[n - 1] as int].part.next_snake_part is None
    }

    /// The number of segments.
    pub fn len(&self) -> (n: usize)
        ensures
            n == self.arena().len(),
    {
        self.segments.len()
    }

    /// The identifier of the head.
    #[verifier::when_used_as_spec(spec_head)]
    pub fn head(&self) -> (id: usize)
        ensures
            id == self.spec_head(),
    {
        self.head
    }

    /// Builds a chain from the positions of its segments, head first. The
    /// segments get the identifiers `0`, `1`, ... in that order. A snake has
    /// at least a head, so an empty list gives no chain.
    pub fn from_positions(positions: &Vec<Position>) -> (r: Option<SnakeChain>)
        ensures
            r is None <==> positions@.len() == 0,
            r matches Some(chain) ==> {
                &&& chain.wf()
                &&& chain@ == positions@
                &&& chain.spec_head() == 0
                &&& chain.order() == Seq::new(positions@.len(), |i: int| i as usize)
            },
    {
        let n: usize = positions.len();
        if n == 0 {
            return None;
        }
        let mut segments: Vec<SnakeSegment> = Vec::new();
        let mut i: usize = 0;
        while i < n
            invariant
                n == positions@.len(),
                i <= n,
                segments@.len() == i,
                forall|j: int|
                    0 <= j < i ==> (#[trigger] segments@[j]).position.position == positions@[j],
                forall|j: int|
                    0 <= j < i ==> (#[trigger] segments@[j]).part.next_snake_part == (if j + 1
                        < n {
                        Some((j + 1) as usize)
                    } else {
                        None
                    }),
            decreases n - i,
        {
            let next: Option<usize> = if i + 1 < n {
                Some(i + 1)
            } else {
                None
            };
            segments.push(
                SnakeSegment {
                    position: GamePositionComponent { position: positions[i] },
                    part: SnakePartComponent { next_snake_part: next },
                },
            );
            i = i + 1;
        }
        let chain = SnakeChain {
            segments,
            head: 0,
            order: Ghost(Seq::new(n as nat, |i: int| i as usize)),
            rank: Ghost(Seq::new(n as nat, |i: int| i)),
        };
        Some(chain)
    }

    /// Moves the snake one cell in `direction`.
    ///
    /// The head takes the neighbouring cell and every other segment the cell
    /// that its predecessor held before the call. With `grow`, a new tail is
    /// linked behind the former tail, on the cell that the former tail has
    /// just left; it gets the next free identifier. No segment changes its
    /// identifier.
    pub fn advance(&mut self, direction: Direction, grow: bool)
        requires
            old(self).wf(),
            old(self)@[0].can_shift(direction),
        ensures
            final(self).wf(),
            final(self)@ == advanced(old(self)@, direction, grow),
            final(self).spec_head() == old(self).spec_head(),
            final(self).order() == (if grow {
                old(self).order().push(old(self).arena().len() as usize)
            } else {
                old(self).order()
            }),
    {
        let ghost before = *self;
        let n: usize = self.segments.len();
        let head: usize = self.head;
        let head_segment: SnakeSegment = self.segments[head];
        let old_head_position: Position = head_segment.position.position;
        let new_head_position: Position = old_head_position.neighbour(direction);
        self.segments.set(
            head,
            SnakeSegment {
                position: GamePositionComponent { position: new_head_position },
                part: head_segment.part,
            },
        );

        let mut next_part_position: Position = old_head_position;
        let mut next_option_entity: Option<usize> = head_segment.part.next_snake_part;
        let mut last_entity: usize = head;
        let ghost mut i: int = 1;
        loop
            invariant
                before.wf(),
                n == before.arena().len(),
                self.segments@.len() == n,
                self.head == before.spec_head(),
                self.order@ == before.order(),
                self.rank@ == before.rank(),
                1 <= i <= n,
                forall|id: int|
                    0 <= id < n ==> (#[trigger] self.segments@[id]).part == before.arena()[id].part,
                forall|j: int|
                    0 <= j < i ==> (#[trigger] self.segments@[before.order()[j] as int]).position.position
                        == advanced(before@, direction, false)[j],
                forall|j: int|
                    i <= j < n ==> #[trigger] self.segments@[before.order()[j] as int]
                        == before.arena()[before.order()[j] as int],
                next_part_position == before@[i - 1],
                last_entity == before.order()[i - 1],
                next_option_entity == (if i < n {
                    Some(before.order()[i])
                } else {
                    None
                }),
            ensures
                i == n,
            decreases n - i,
        {
            match next_option_entity {
                Some(entity) => {
                    let segment: SnakeSegment = self.segments[entity];
                    self.segments.set(
                        entity,
                        SnakeSegment {
                            position: GamePositionComponent { position: next_part_position },
                            part: segment.part,
                        },
                    );
                    next_part_position = segment.position.position;
                    next_option_entity = segment.part.next_snake_part;
                    last_entity = entity;
                    proof {
                        i = i + 1;
                    }
                },
                None => {
                    break ;
                },
            }
        }

        if grow {
            let new_piece_entity: usize = n;
            let last_segment: SnakeSegment = self.segments[last_entity];
            self.segments.push(
                SnakeSegment {
                    position: GamePositionComponent { position: next_part_position },
                    part: SnakePartComponent { next_snake_part: None },
                },
            );
            self.segments.set(
                last_entity,
                SnakeSegment {
                    position: last_segment.position,
                    part: SnakePartComponent { next_snake_part: Some(new_piece_entity) },
                },
            );
            self.order = Ghost(before.order().push(new_piece_entity));
            self.rank = Ghost(before.rank().push(n as int));
        }
    }

    /// The segment stored under `entity`, if there is one.
    pub fn segment(&self, entity: usize) -> (r: Option<SnakeSegment>)
        ensures
            r == (if entity < self.arena().len() {
                Some(self.arena()[entity as int])
            } else {
                None
            }),
    {
        if entity < self.segments.len() {
            Some(self.segments[entity])
        } else {
            None
        }
    }

    /// The cell of the head.
    pub fn head_position(&self) -> (r: Position)
        requires
            self.wf(),
        ensures
            r == self@[0],
    {
        self.segments[self.head].position.position
    }

    /// The cells of all segments, found by following the links from the head
    /// to the tail.
    pub fn positions(&self) -> (r: Vec<Position>)
        requires
            self.wf(),
        ensures
            r@ == self@,
    {
        let n: usize = self.segments.len();
        let mut result: Vec<Position> = Vec::new();
        let mut entity: usize = self.head;
        loop
            invariant_except_break
                result@.len() < n,
                entity == self.order()[result@.len() as int],
            invariant
                self.wf(),
                n == self.arena().len(),
                forall|j: int| 0 <= j < result@.len() ==> result@[j] == self@[j],
            ensures
                result@.len() == n,
                forall|j: int| 0 <= j < n ==> result@[j] == self@[j],
            decreases n - result@.len(),
        {
            let segment: SnakeSegment = self.segments[entity];
            result.push(segment.position.position);
            match segment.part.next_snake_part {
                Some(next) => {
                    entity = next;
                },
                None => {
                    break ;
                },
            }
        }
        result
    }

    /// The identifiers of all segments, found by following the links from
    /// the head to the tail.
    pub fn entities(&self) -> (r: Vec<usize>)
        requires
            self.wf(),
        ensures
            r@ == self.order(),
    {
        let n: usize = self.segments.len();
        let mut result: Vec<usize> = Vec::new();
        let mut entity: usize = self.head;
        loop
            invariant_except_break
                result@.len() < n,
                entity == self.order()[result@.len() as int],
            invariant
                self.wf(),
                n == self.arena().len(),
                forall|j: int| 0 <= j < result@.len() ==> result@[j] == self.order()[j],
            ensures
                result@.len() == n,
                forall|j: int| 0 <= j < n ==> result@[j] == self.order()[j],
            decreases n - result@.len(),
        {
            result.push(entity);
            match self.segments[entity].part.next_snake_part {
                Some(next) => {
                    entity = next;
                },
                None => {
                    break ;
                },
            }
        }
        result
    }

    /// Whether some segment lies on `position`.
    pub fn occupies(&self, position: Position) -> (r: bool)
        requires
            self.wf(),
        ensures
            r == self@.contains(position),
    {
        let n: usize = self.segments.len();
        let mut entity: usize = self.head;
        let ghost mut i: int = 0;
        loop
            invariant
                self.wf(),
                n == self.arena().len(),
                0 <= i < n,
                entity == self.order()[i],
                forall|j: int| 0 <= j < i ==> self@[j] != position,
            ensures
                forall|j: int| 0 <= j < n ==> self@[j] != position,
            decreases n - i,
        {
            let segment: SnakeSegment = self.segments[entity];
            if segment.position.position == position {
                assert(self@[i] == position);
                return true;
            }
            match segment.part.next_snake_part {
                Some(next) => {
                    entity = next;
                    proof {
                        i = i + 1;
                    }
                },
                None => {
                    break ;
                },
            }
        }
        false
    }

    /// Whether a segment other than the head lies on the head's cell.
    /// Segments are told apart by their place in the chain, so two that
    /// share a cell still count as two.
    pub fn head_overlaps_body(&self) -> (r: bool)
        requires
            self.wf(),
        ensures
            r == overlaps_itself(self@),
    {
        let n: usize = self.segments.len();
        let head_segment: SnakeSegment = self.segments[self.head];
        let head_position: Position = head_segment.position.position;
        let mut next_option_entity: Option<usize> = head_segment.part.next_snake_part;
        let ghost mut i: int = 1;
        loop
            invariant
                self.wf(),
                n == self.arena().len(),
                head_position == self@[0],
                1 <= i <= n,
                next_option_entity == (if i < n {
                    Some(self.order()[i])
                } else {
                    None
                }),
                forall|j: int| 1 <= j < i ==> self@[j] != head_position,
            ensures
                forall|j: int| 1 <= j < n ==> self@[j] != head_position,
            decreases n - i,
        {
            match next_option_entity {
                Some(entity) => {
                    let segment: SnakeSegment = self.segments[entity];
                    if segment.position.position == head_position {
                        assert(self@[i] == self@[0]);
                        return true;
                    }
                    next_option_entity = segment.part.next_snake_part;
                    proof {
                        i = i + 1;
                    }
                },
                None => {
                    break ;
                },
            }
        }
        false
    }

    /// Following the links from the segment in place `i` of the chain
    /// visits the rest of the chain in order and then stops.
    proof fn lemma_walk_from(&self, i: int, limit: nat)
        requires
            self.wf(),
            0 <= i < self.order().len(),
            limit >= self.order().len() - i,
        ensures
            walk(self.arena(), Some(self.order()[i]), limit) == self.order().subrange(
                i,
                self.order().len() as int,
            ),
        decreases self.order().len() - i,
    {
        let n = self.order().len() as int;
        let id = self.order()[i];
        let rest = walk(
            self.arena(),
            self.arena()[id as int].part.next_snake_part,
            (limit - 1) as nat,
        );
        if i < n - 1 {
            self.lemma_walk_from(i + 1, (limit - 1) as nat);
        }
        assert(seq![id] + rest =~= self.order().subrange(i, n));
    }

    /// In an intact chain, following the links from the head visits every
    /// segment of the arena exactly once, in chain order, and ends at a
    /// segment that links to none. Allowing the walk more steps than there
    /// are segments does not make it longer: the links never cycle.
    pub proof fn lemma_walk_visits_every_segment_once(&self, limit: nat)
        requires
            self.wf(),
            limit >= self.arena().len(),
        ensures
            walk(self.arena(), Some(self.spec_head()), limit) == self.order(),
            self.order().len() == self.arena().len(),
            self.order().no_duplicates(),
            forall|id: usize| id < self.arena().len() <==> self.order().contains(id),
            self.arena()[self.order().last() as int].part.next_snake_part is None,
    {
        self.lemma_walk_from(0, limit);
        assert(self.order().subrange(0, self.order().len() as int) =~= self.order());
        assert forall|id: usize| id < self.arena().len() implies self.order().contains(id) by {
            assert(self.order()[self.rank()[id as int]] == id);
        }
    }
}

/// The snake at the start of a session: three segments in a row, the head
/// on `(12, 10)` facing right, the tail on `(10, 10)`.
///
/// The segments come into being from the tail forward, so the tail has the
/// identifier `0` and the head the identifier `2`.
pub fn init_snake() -> (chain: SnakeChain)
    ensures
        chain.wf(),
        chain@ == seq![
            Position { x: 12, y: 10 },
            Position { x: 11, y: 10 },
            Position { x: 10, y: 10 },
        ],
        chain.order() == seq![2usize, 1usize, 0usize],
        chain.spec_head() == 2,
{
    let mut segments: Vec<SnakeSegment> = Vec::new();
    let e2: usize = segments.len();
    segments.push(
        SnakeSegment {
            position: GamePositionComponent::new(10, 10),
            part: SnakePartComponent { next_snake_part: None },
        },
    );
    let e1: usize = segments.len();
    segments.push(
        SnakeSegment {
            position: GamePositionComponent::new(11, 10),
            part: SnakePartComponent { next_snake_part: Some(e2) },
        },
    );
    let head: usize = segments.len();
    segments.push(
        SnakeSegment {
            position: GamePositionComponent::new(12, 10),
            part: SnakePartComponent { next_snake_part: Some(e1) },
        },
    );
    let ghost order: Seq<usize> = seq![2usize, 1usize, 0usize];
    let ghost rank: Seq<int> = seq![2int, 1int, 0int];
    let chain = SnakeChain { segments, head, order: Ghost(order), rank: Ghost(rank) };
    assert(chain@ =~= seq![
        Position { x: 12, y: 10 },
        Position { x: 11, y: 10 },
        Position { x: 10, y: 10 },
    ]);
    chain
}

} // verus!

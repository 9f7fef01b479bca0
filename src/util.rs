use vstd::prelude::*;

verus! {

/// A position on the level grid: column, then row (row 0 at the bottom).
pub type Idx2 = (i32, i32);

/// Issues hitbox ids: each call hands out a fresh id, never one issued before.
pub struct IdGen {
    next: u64,
}

impl IdGen {
    /// The id that the next call of `next` returns.
    pub closed spec fn next_id(&self) -> u64 {
        self.next
    }

    pub fn new() -> (r: IdGen)
        ensures
            r.next_id() == 0,
    {
        IdGen { next: 0 }
    }

    /// The id that the next call of `next` returns.
    pub fn peek_next(&self) -> (r: u64)
        ensures
            r == self.next_id(),
    {
        self.next
    }

    pub fn next(&mut self) -> (id: u64)
        requires
            old(self).next_id() < u64::MAX,
        ensures
            id == old(self).next_id(),
            final(self).next_id() == id + 1,
    {
        let id = self.next;
        self.next = self.next + 1;
        id
    }
}

/// One of the four axis directions.
#[derive(Clone, Copy, Debug, PartialEq, Eq, Structural, Hash)]
pub enum Card {
    MinusX,
    MinusY,
    PlusX,
    PlusY,
}

impl Card {
    pub open spec fn spec_flip(self) -> Card {
        match self {
            Card::MinusX => Card::PlusX,
            Card::PlusX => Card::MinusX,
            Card::MinusY => Card::PlusY,
            Card::PlusY => Card::MinusY,
        }
    }

    /// The opposite direction.
    pub fn flip(self) -> (r: Card)
        ensures
            r == self.spec_flip(),
    {
        match self {
            Card::MinusX => Card::PlusX,
            Card::PlusX => Card::MinusX,
            Card::MinusY => Card::PlusY,
            Card::PlusY => Card::MinusY,
        }
    }

    /// The directions in their fixed order: -x, -y, +x, +y.
    pub open spec fn spec_values() -> Seq<Card> {
        seq![Card::MinusX, Card::MinusY, Card::PlusX, Card::PlusY]
    }

    pub fn values() -> (r: Vec<Card>)
        ensures
            r@ == Card::spec_values(),
    {
        let r = vec![Card::MinusX, Card::MinusY, Card::PlusX, Card::PlusY];
        assert(r@ =~= Card::spec_values());
        r
    }

    pub open spec fn spec_offset(self) -> Idx2 {
        match self {
            Card::PlusX => (1, 0),
            Card::PlusY => (0, 1),
            Card::MinusX => (-1i32, 0i32),
            Card::MinusY => (0i32, -1i32),
        }
    }
}

/// The grid step that leads from a cell to its neighbor in direction `card`.
pub fn card_offset(card: Card) -> (r: Idx2)
    ensures
        r == card.spec_offset(),
{
    match card {
        Card::PlusX => (1, 0),
        Card::PlusY => (0, 1),
        Card::MinusX => (-1i32, 0i32),
        Card::MinusY => (0i32, -1i32),
    }
}

/// A flag for each of the four directions.
#[derive(Clone, Copy, Debug, PartialEq, Eq, Structural, Hash)]
pub struct CardMask {
    pub minus_x: bool,
    pub minus_y: bool,
    pub plus_x: bool,
    pub plus_y: bool,
}

impl CardMask {
    pub open spec fn spec_get(self, card: Card) -> bool {
        match card {
            Card::MinusX => self.minus_x,
            Card::MinusY => self.minus_y,
            Card::PlusX => self.plus_x,
            Card::PlusY => self.plus_y,
        }
    }

    pub open spec fn spec_set(self, card: Card, value: bool) -> CardMask {
        match card {
            Card::MinusX => CardMask { minus_x: value, ..self },
            Card::MinusY => CardMask { minus_y: value, ..self },
            Card::PlusX => CardMask { plus_x: value, ..self },
            Card::PlusY => CardMask { plus_y: value, ..self },
        }
    }

    pub fn empty() -> (r: CardMask)
        ensures
            r == (CardMask { minus_x: false, minus_y: false, plus_x: false, plus_y: false }),
            forall|c: Card| !r.spec_get(c),
    {
        CardMask { minus_x: false, minus_y: false, plus_x: false, plus_y: false }
    }

    pub fn full() -> (r: CardMask)
        ensures
            r == (CardMask { minus_x: true, minus_y: true, plus_x: true, plus_y: true }),
            forall|c: Card| r.spec_get(c),
    {
        CardMask { minus_x: true, minus_y: true, plus_x: true, plus_y: true }
    }

    /// The mask that holds `card` alone.
    pub fn only(card: Card) -> (r: CardMask)
        ensures
            r == (CardMask { minus_x: false, minus_y: false, plus_x: false, plus_y: false }).spec_set(
                card,
                true,
            ),
            forall|c: Card| r.spec_get(c) == (c == card),
    {
        CardMask::empty().set(card, true)
    }

    pub fn get(&self, card: Card) -> (r: bool)
        ensures
            r == self.spec_get(card),
    {
        match card {
            Card::MinusX => self.minus_x,
            Card::MinusY => self.minus_y,
            Card::PlusX => self.plus_x,
            Card::PlusY => self.plus_y,
        }
    }

    pub fn set(self, card: Card, value: bool) -> (r: CardMask)
        ensures
            r == self.spec_set(card, value),
            r.spec_get(card) == value,
            forall|c: Card| c != card ==> r.spec_get(c) == self.spec_get(c),
    {
        match card {
            Card::MinusX => CardMask { minus_x: value, ..self },
            Card::MinusY => CardMask { minus_y: value, ..self },
            Card::PlusX => CardMask { plus_x: value, ..self },
            Card::PlusY => CardMask { plus_y: value, ..self },
        }
    }
}

} // verus!

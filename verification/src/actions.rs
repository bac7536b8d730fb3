use vstd::prelude::*;

verus! {

/// What a player can ask for.
#[derive(Debug, PartialOrd, PartialEq, Eq, Copy, Clone, Hash, Structural)]
pub enum Action {
    Quit,
    Debug,
    FpsLimit,
    MoveLeft,
    MoveRight,
    MoveUp,
    MoveDown,
    Duck,
    Jump,
    Sprint,
    Attack,
    Menu,
    Click,
}

impl Action {
    /// The position of the action's bit in an `ActionSet`.
    pub open spec fn spec_index(self) -> u32 {
        match self {
            Action::Quit => 0,
            Action::Debug => 1,
            Action::FpsLimit => 2,
            Action::MoveLeft => 3,
            Action::MoveRight => 4,
            Action::MoveUp => 5,
            Action::MoveDown => 6,
            Action::Duck => 7,
            Action::Jump => 8,
            Action::Sprint => 9,
            Action::Attack => 10,
            Action::Menu => 11,
            Action::Click => 12,
        }
    }

    /// The word in which only the action's bit is set.
    pub open spec fn spec_bit(self) -> u32 {
        1u32 << self.spec_index()
    }

    /// The position of the action's bit in an `ActionSet`.
    pub fn index(self) -> (r: u32)
        ensures
            r == self.spec_index(),
            r < 13,
    {
        match self {
            Action::Quit => 0,
            Action::Debug => 1,
            Action::FpsLimit => 2,
            Action::MoveLeft => 3,
            Action::MoveRight => 4,
            Action::MoveUp => 5,
            Action::MoveDown => 6,
            Action::Duck => 7,
            Action::Jump => 8,
            Action::Sprint => 9,
            Action::Attack => 10,
            Action::Menu => 11,
            Action::Click => 12,
        }
    }

    /// The word in which only the action's bit is set.
    pub fn bit(self) -> (r: u32)
        ensures
            r == self.spec_bit(),
    {
        1u32 << self.index()
    }
}

/// The set of actions that are active in one frame, one bit for each.
#[derive(Debug, PartialEq, Eq, Copy, Clone, Hash, Default, Structural)]
pub struct ActionSet {
    pub bits: u32,
}

impl View for ActionSet {
    type V = Set<Action>;

    open spec fn view(&self) -> Set<Action> {
        Set::new(|a: Action| self.bits & a.spec_bit() != 0)
    }
}

/// The bits of two actions overlap exactly if the two are the same action.
pub proof fn lemma_bits_apart(a: Action, b: Action)
    ensures
        (a.spec_bit() & b.spec_bit() != 0) == (a == b),
{
    let i = a.spec_index();
    let j = b.spec_index();
    assert(i < 13 && j < 13 ==> (((1u32 << i) & (1u32 << j)) != 0) == (i == j)) by (bit_vector);
}

impl ActionSet {
    /// The set without any action.
    pub fn empty() -> (r: Self)
        ensures
            r@ == Set::<Action>::empty(),
    {
        let r = ActionSet { bits: 0 };
        proof {
            assert forall|a: Action| !r@.contains(a) by {
                let m = a.spec_bit();
                assert(0u32 & m == 0) by (bit_vector);
            }
            assert(r@ =~= Set::<Action>::empty());
        }
        r
    }

    /// The set of the actions whose bits are set in `bits`.
    pub fn from_bits(bits: u32) -> (r: Self)
        ensures
            r.bits == bits,
    {
        ActionSet { bits }
    }

    /// Whether the action is in the set.
    pub fn contains(&self, action: Action) -> (r: bool)
        ensures
            r == self@.contains(action),
    {
        self.bits & action.bit() != 0
    }

    /// Adds the action to the set.
    pub fn insert(&mut self, action: Action)
        ensures
            final(self)@ == old(self)@.insert(action),
    {
        let ghost before = self.bits;
        self.bits = self.bits | action.bit();
        proof {
            let m = action.spec_bit();
            assert forall|a: Action| self@.contains(a) == old(self)@.insert(action).contains(a) by {
                let n = a.spec_bit();
                lemma_bits_apart(action, a);
                assert(((before | m) & n != 0) == ((before & n != 0) || (m & n != 0)))
                    by (bit_vector);
            }
            assert(self@ =~= old(self)@.insert(action));
        }
    }

    /// Takes the action out of the set.
    pub fn remove(&mut self, action: Action)
        ensures
            final(self)@ == old(self)@.remove(action),
    {
        let ghost before = self.bits;
        self.bits = self.bits & !action.bit();
        proof {
            let m = action.spec_bit();
            assert forall|a: Action| self@.contains(a) == old(self)@.remove(action).contains(a) by {
                let n = a.spec_bit();
                lemma_bits_apart(action, a);
                lemma_bits_apart(a, a);
                assert(m & n == 0 ==> ((before & !m) & n) == (before & n)) by (bit_vector);
                assert(((before & !m) & m) == 0) by (bit_vector);
            }
            assert(self@ =~= old(self)@.remove(action));
        }
    }

    /// The actions of both sets.
    pub fn union(self, other: ActionSet) -> (r: Self)
        ensures
            r@ == self@.union(other@),
    {
        let r = ActionSet { bits: self.bits | other.bits };
        proof {
            let x = self.bits;
            let y = other.bits;
            assert forall|a: Action| r@.contains(a) == self@.union(other@).contains(a) by {
                let n = a.spec_bit();
                assert(((x | y) & n != 0) == ((x & n != 0) || (y & n != 0))) by (bit_vector);
            }
            assert(r@ =~= self@.union(other@));
        }
        r
    }
}

} // verus!

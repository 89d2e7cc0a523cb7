//! The mapping from mouse buttons to key names.

use vstd::prelude::*;
use vstd::string::StringExecFns;
use crate::keys::is_valid_key;
use crate::keys::is_valid_key_name;

verus! {

/// The highest button number; buttons are numbered from 1.
pub const BUTTON_COUNT: u8 = 12;

/// Whether `button` is the number of a button.
pub open spec fn is_button(button: u8) -> bool {
    1 <= button <= BUTTON_COUNT
}

/// Whether `m` maps buttons only, and each to a key name that exists.
pub open spec fn valid_mapping(m: Map<u8, Seq<char>>) -> bool {
    forall|b: u8| #[trigger] m.contains_key(b) ==> is_button(b) && is_valid_key_name(m[b])
}

/// The entries of `m` for the buttons 1 to `upto`, in ascending order.
pub open spec fn entries_upto(m: Map<u8, Seq<char>>, upto: nat) -> Seq<(u8, Seq<char>)>
    decreases upto,
{
    if upto == 0 {
        Seq::empty()
    } else if m.contains_key(upto as u8) {
        entries_upto(m, (upto - 1) as nat).push((upto as u8, m[upto as u8]))
    } else {
        entries_upto(m, (upto - 1) as nat)
    }
}

/// The entries of `m` in ascending order of button.
pub open spec fn mapping_entries(m: Map<u8, Seq<char>>) -> Seq<(u8, Seq<char>)> {
    entries_upto(m, BUTTON_COUNT as nat)
}

/// Which key each button sends. A button has at most one key, and every key
/// name is one that exists.
#[derive(Debug, PartialEq, Eq)]
pub struct KeyMapping {
    slots: Vec<Option<String>>,
}

impl View for KeyMapping {
    type V = Map<u8, Seq<char>>;

    closed spec fn view(&self) -> Map<u8, Seq<char>> {
        Map::new(
            |b: u8| 1 <= b <= self.slots@.len() && self.slots@[b - 1] is Some,
            |b: u8| self.slots@[b - 1]->Some_0@,
        )
    }
}

impl KeyMapping {
    #[verifier::type_invariant]
    spec fn well_formed(&self) -> bool {
        &&& self.slots@.len() == BUTTON_COUNT
        &&& forall|i: int|
            0 <= i < self.slots@.len() && self.slots@[i] is Some ==> is_valid_key_name(
                #[trigger] self.slots@[i]->Some_0@,
            )
    }

    /// The empty mapping.
    pub fn new() -> (r: Self)
        ensures
            r@ == Map::<u8, Seq<char>>::empty(),
            valid_mapping(r@),
    {
        let mut slots: Vec<Option<String>> = Vec::new();
        let mut i: u8 = 0;
        while i < BUTTON_COUNT
            invariant
                i <= BUTTON_COUNT,
                slots@.len() == i,
                forall|j: int| 0 <= j < i ==> slots@[j] is None,
            decreases BUTTON_COUNT - i,
        {
            slots.push(None);
            i = i + 1;
        }
        let r = KeyMapping { slots };
        assert(r@ =~= Map::<u8, Seq<char>>::empty());
        r
    }

    /// The key that `button` sends, if it has one.
    pub fn get(&self, button: u8) -> (r: Option<&String>)
        ensures
            match r {
                Some(key) => self@.contains_key(button) && key@ == self@[button],
                None => !self@.contains_key(button),
            },
            valid_mapping(self@),
    {
        proof {
            use_type_invariant(self);
        }
        if 1 <= button && button <= BUTTON_COUNT {
            match &self.slots[(button - 1) as usize] {
                Some(key) => Some(key),
                None => None,
            }
        } else {
            None
        }
    }

    /// Maps `button` to `key`, in place of the key it had. Does nothing and
    /// returns `false` when there is no such button or no such key.
    pub fn set(&mut self, button: u8, key: &str) -> (accepted: bool)
        ensures
            accepted == (is_button(button) && is_valid_key_name(key@)),
            final(self)@ == if accepted {
                old(self)@.insert(button, key@)
            } else {
                old(self)@
            },
            valid_mapping(final(self)@),
    {
        proof {
            use_type_invariant(&*self);
        }
        if 1 <= button && button <= BUTTON_COUNT && is_valid_key(key) {
            let target: usize = (button - 1) as usize;
            let mut slots: Vec<Option<String>> = Vec::new();
            let mut i: usize = 0;
            while i < self.slots.len()
                invariant
                    i <= self.slots@.len(),
                    self.slots@.len() == BUTTON_COUNT,
                    target < self.slots@.len(),
                    slots@.len() == i,
                    is_valid_key_name(key@),
                    forall|j: int|
                        0 <= j < self.slots@.len() && self.slots@[j] is Some ==> is_valid_key_name(
                            #[trigger] self.slots@[j]->Some_0@,
                        ),
                    forall|j: int|
                        0 <= j < i && j != target ==> (self.slots@[j] is Some <==> (
                        #[trigger] slots@[j]) is Some),
                    forall|j: int|
                        0 <= j < i && j != target && self.slots@[j] is Some ==> (
                        #[trigger] slots@[j])->Some_0@ == self.slots@[j]->Some_0@,
                    target < i ==> slots@[target as int] is Some && slots@[target as int]->Some_0@
                        == key@,
                decreases self.slots@.len() - i,
            {
                let slot = if i == target {
                    Some(String::from_str(key))
                } else {
                    match &self.slots[i] {
                        Some(kept) => Some(kept.clone()),
                        None => None,
                    }
                };
                slots.push(slot);
                i = i + 1;
            }
            *self = KeyMapping { slots };
            assert(self@ =~= old(self)@.insert(button, key@));
            true
        } else {
            false
        }
    }

    /// Removes every entry.
    pub fn clear(&mut self)
        ensures
            final(self)@ == Map::<u8, Seq<char>>::empty(),
            valid_mapping(final(self)@),
    {
        *self = KeyMapping::new();
    }

    /// Whether no button has a key.
    pub fn is_empty(&self) -> (r: bool)
        ensures
            r == (self@ == Map::<u8, Seq<char>>::empty()),
    {
        proof {
            use_type_invariant(self);
        }
        let mut i: usize = 0;
        while i < self.slots.len()
            invariant
                i <= self.slots@.len(),
                self.slots@.len() == BUTTON_COUNT,
                forall|j: int| 0 <= j < i ==> self.slots@[j] is None,
            decreases self.slots@.len() - i,
        {
            if self.slots[i].is_some() {
                assert(self@.contains_key((i + 1) as u8));
                return false;
            }
            i = i + 1;
        }
        assert(self@ =~= Map::<u8, Seq<char>>::empty());
        true
    }

    /// The entries in ascending order of button.
    pub fn entries(&self) -> (r: Vec<(u8, String)>)
        ensures
            r@.len() == mapping_entries(self@).len(),
            forall|i: int|
                0 <= i < r@.len() ==> (#[trigger] r@[i]).0 == mapping_entries(self@)[i].0
                    && r@[i].1@ == mapping_entries(self@)[i].1,
    {
        proof {
            use_type_invariant(self);
        }
        let mut out: Vec<(u8, String)> = Vec::new();
        let mut b: u8 = 0;
        while b < BUTTON_COUNT
            invariant
                b <= BUTTON_COUNT,
                self.slots@.len() == BUTTON_COUNT,
                out@.len() == entries_upto(self@, b as nat).len(),
                forall|i: int|
                    0 <= i < out@.len() ==> (#[trigger] out@[i]).0 == entries_upto(
                        self@,
                        b as nat,
                    )[i].0 && out@[i].1@ == entries_upto(self@, b as nat)[i].1,
            decreases BUTTON_COUNT - b,
        {
            b = b + 1;
            match &self.slots[(b - 1) as usize] {
                Some(key) => {
                    out.push((b, key.clone()));
                },
                None => {},
            }
        }
        out
    }
}

impl Clone for KeyMapping {
    fn clone(&self) -> (r: Self)
        ensures
            r@ == self@,
            valid_mapping(r@),
    {
        proof {
            use_type_invariant(self);
        }
        let mut slots: Vec<Option<String>> = Vec::new();
        let mut i: usize = 0;
        while i < self.slots.len()
            invariant
                i <= self.slots@.len(),
                slots@.len() == i,
                forall|j: int|
                    0 <= j < i ==> (self.slots@[j] is Some <==> (#[trigger] slots@[j]) is Some),
                forall|j: int|
                    0 <= j < i && self.slots@[j] is Some ==> (#[trigger] slots@[j])->Some_0@
                        == self.slots@[j]->Some_0@,
            decreases self.slots@.len() - i,
        {
            let copy = match &self.slots[i] {
                Some(key) => Some(key.clone()),
                None => None,
            };
            slots.push(copy);
            i = i + 1;
        }
        let r = KeyMapping { slots };
        assert(r@ =~= self@);
        r
    }
}

} // verus!

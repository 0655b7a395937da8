use vstd::prelude::*;

verus! {

/// Number of occupied slots in `s`.
pub open spec fn occupied<T>(s: Seq<Option<T>>) -> nat
    decreases s.len(),
{
    if s.len() == 0 {
        0
    } else {
        occupied(s.drop_last()) + if s.last() is Some {
            1nat
        } else {
            0nat
        }
    }
}

proof fn lemma_occupied_bound<T>(s: Seq<Option<T>>)
    ensures
        occupied(s) <= s.len(),
    decreases s.len(),
{
    if s.len() > 0 {
        lemma_occupied_bound(s.drop_last());
    }
}

proof fn lemma_occupied_push<T>(s: Seq<Option<T>>, x: Option<T>)
    ensures
        occupied(s.push(x)) == occupied(s) + if x is Some {
            1nat
        } else {
            0nat
        },
{
    assert(s.push(x).drop_last() =~= s);
}

proof fn lemma_occupied_update<T>(s: Seq<Option<T>>, i: int, x: Option<T>)
    requires
        0 <= i < s.len(),
    ensures
        occupied(s.update(i, x)) + (if s[i] is Some {
            1nat
        } else {
            0nat
        }) == occupied(s) + if x is Some {
            1nat
        } else {
            0nat
        },
    decreases s.len(),
{
    let t = s.update(i, x);
    if i < s.len() - 1 {
        assert(t.drop_last() =~= s.drop_last().update(i, x));
        lemma_occupied_update(s.drop_last(), i, x);
    } else {
        assert(t.drop_last() =~= s.drop_last());
    }
}

proof fn lemma_occupied_full<T>(s: Seq<Option<T>>)
    requires
        forall|j: int| 0 <= j < s.len() ==> #[trigger] s[j] is Some,
    ensures
        occupied(s) == s.len(),
    decreases s.len(),
{
    if s.len() > 0 {
        lemma_occupied_full(s.drop_last());
    }
}

/// A vector of slots that may be empty. An inserted element takes the first empty slot, so
/// the position where an element was put stays valid while other elements come and go.
#[derive(Debug)]
pub struct OptionVec<T> {
    optionvec: Vec<Option<T>>,
    count: usize,
}

impl<T> View for OptionVec<T> {
    type V = Seq<Option<T>>;

    closed spec fn view(&self) -> Seq<Option<T>> {
        self.optionvec@
    }
}

impl<T> OptionVec<T> {
    /// The number of occupied slots is kept in step with the slots.
    pub closed spec fn wf(&self) -> bool {
        self.count == occupied(self.optionvec@)
    }

    /// An empty vector.
    pub fn new() -> (r: Self)
        ensures
            r.wf(),
            r@ == Seq::<Option<T>>::empty(),
    {
        OptionVec { optionvec: Vec::new(), count: 0 }
    }

    /// The slots, occupied or not.
    pub fn as_slice(&self) -> (r: &[Option<T>])
        ensures
            r@ == self@,
    {
        self.optionvec.as_slice()
    }

    /// An empty vector with room for `size` slots.
    pub fn with_capacity(size: usize) -> (r: Self)
        ensures
            r.wf(),
            r@ == Seq::<Option<T>>::empty(),
    {
        OptionVec { optionvec: Vec::with_capacity(size), count: 0 }
    }

    /// Puts `element` in the first empty slot, or in a new slot at the end where none is
    /// empty, and returns the position of that slot.
    pub fn insert(&mut self, element: T) -> (r: usize)
        requires
            old(self).wf(),
            old(self)@.len() < usize::MAX,
        ensures
            final(self).wf(),
            r <= old(self)@.len(),
            forall|j: int| 0 <= j < r ==> #[trigger] old(self)@[j] is Some,
            r < old(self)@.len() ==> old(self)@[r as int] is None && final(self)@ == old(
                self,
            )@.update(r as int, Some(element)),
            r == old(self)@.len() ==> final(self)@ == old(self)@.push(Some(element)),
    {
        let mut i: usize = 0;
        while i < self.optionvec.len() && self.optionvec[i].is_some()
            invariant
                0 <= i <= self.optionvec@.len(),
                forall|j: int| 0 <= j < i ==> #[trigger] self.optionvec@[j] is Some,
            decreases self.optionvec@.len() - i,
        {
            i = i + 1;
        }
        proof {
            lemma_occupied_bound(self.optionvec@);
        }
        if i < self.optionvec.len() {
            proof {
                lemma_occupied_update(self.optionvec@, i as int, Some(element));
            }
            self.optionvec.set(i, Some(element));
            self.count = self.count + 1;
            i
        } else {
            proof {
                lemma_occupied_push(self.optionvec@, Some(element));
                lemma_occupied_full(self.optionvec@);
            }
            self.optionvec.push(Some(element));
            self.count = self.count + 1;
            self.optionvec.len() - 1
        }
    }

    /// Puts `item` in slot `index` if that slot is occupied; leaves an empty slot empty.
    pub fn replace(&mut self, index: usize, item: T)
        requires
            old(self).wf(),
            index < old(self)@.len(),
        ensures
            final(self).wf(),
            old(self)@[index as int] is Some ==> final(self)@ == old(self)@.update(
                index as int,
                Some(item),
            ),
            old(self)@[index as int] is None ==> final(self)@ == old(self)@,
    {
        if self.optionvec[index].is_some() {
            proof {
                lemma_occupied_update(self.optionvec@, index as int, Some(item));
            }
            self.optionvec.set(index, Some(item));
        }
    }

    /// Empties slot `index` and returns what it held.
    pub fn delete(&mut self, index: usize) -> (r: Option<T>)
        requires
            old(self).wf(),
            index < old(self)@.len(),
        ensures
            final(self).wf(),
            r == old(self)@[index as int],
            final(self)@ == old(self)@.update(index as int, None),
    {
        proof {
            lemma_occupied_update(self.optionvec@, index as int, None);
        }
        if self.optionvec[index].is_some() {
            self.count = self.count - 1;
        }
        self.optionvec[index].take()
    }

    /// Removes every slot.
    pub fn clear(&mut self)
        ensures
            final(self).wf(),
            final(self)@ == Seq::<Option<T>>::empty(),
    {
        self.optionvec.clear();
        self.count = 0;
    }

    /// Number of slots, occupied or not.
    pub fn len(&self) -> (r: usize)
        ensures
            r == self@.len(),
    {
        self.optionvec.len()
    }

    /// Number of occupied slots.
    pub fn count(&self) -> (r: usize)
        requires
            self.wf(),
        ensures
            r == occupied(self@),
    {
        self.count
    }

    // A slot is handed out for change in place by neither a method returning `Option<&mut T>`
    // nor a mutable iterator: Verus proved no contract for the first through the vector's
    // `IndexMut`, and it has no specification of `slice::iter_mut`. `replace` and `delete`
    // change slots instead.

    /// The element in slot `index`, if that slot is occupied.
    pub fn get_element(&mut self, index: usize) -> (r: Option<&T>)
        requires
            index < old(self)@.len(),
        ensures
            *final(self) == *old(self),
            r == match old(self)@[index as int] {
                Some(x) => Some(&x),
                None => None,
            },
    {
        self.optionvec[index].as_ref()
    }

    /// Slot `index`, occupied or not.
    pub fn get(&self, index: usize) -> (r: &Option<T>)
        requires
            index < self@.len(),
        ensures
            *r == self@[index as int],
    {
        &self.optionvec[index]
    }

    /// Walks the slots, occupied or not, in order.
    pub fn iter(&self) -> (r: std::slice::Iter<'_, Option<T>>)
        ensures
            vstd::std_specs::slice::into_iter_elts(r) == self@,
    {
        self.optionvec.iter()
    }
}

impl<T> std::ops::Index<usize> for OptionVec<T> {
    type Output = Option<T>;

    fn index(&self, index: usize) -> (r: &Option<T>)
        ensures
            *r == self@[index as int],
    {
        &self.optionvec[index]
    }
}

impl<T> vstd::std_specs::core::IndexSpecImpl<usize> for OptionVec<T> {
    open spec fn index_req(&self, index: &usize) -> bool {
        *index < self@.len()
    }
}

} // verus!
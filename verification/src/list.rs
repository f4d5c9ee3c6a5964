//! A singly-linked sequence: a chain of owned nodes with stack-like insertion
//! and removal at the head, indexed reads and three ways to walk it.

use vstd::prelude::*;

verus! {

/// One link of the chain: a value and the rest of the chain, which it owns.
#[derive(PartialEq, Eq, Debug, Hash)]
pub struct ListNode<T> {
    value: T,
    tail: ListOf<T>,
}

/// A sequence that is either empty or owns exactly one head node.
#[derive(PartialEq, Eq, Debug, Hash)]
pub struct ListOf<T> {
    head: Option<Box<ListNode<T>>>,
}

/// What is left of `s` behind its first element; the empty sequence is its own tail.
pub open spec fn tail_of<T>(s: Seq<T>) -> Seq<T> {
    if s.len() == 0 {
        s
    } else {
        s.subrange(1, s.len() as int)
    }
}

/// `s` with `value` put in front of it.
pub open spec fn pushed<T>(s: Seq<T>, value: T) -> Seq<T> {
    seq![value] + s
}

/// What taking the head off `s` gives: the head, if there is one, and the rest.
pub open spec fn popped<T>(s: Seq<T>) -> (Option<T>, Seq<T>) {
    if s.len() == 0 {
        (None, s)
    } else {
        (Some(s[0]), s.subrange(1, s.len() as int))
    }
}

/// What a reference to an element, if there is one, refers to.
pub open spec fn unref<T>(item: Option<&T>) -> Option<T> {
    match item {
        Some(element) => Some(*element),
        None => None,
    }
}

/// The element of `s` at `index`, or `None` where `s` is too short.
pub open spec fn element_at<T>(s: Seq<T>, index: int) -> Option<T> {
    if 0 <= index < s.len() {
        Some(s[index])
    } else {
        None
    }
}

/// `s` after the elements of `values` were pushed onto it one by one, the
/// first of them first.
pub open spec fn pushed_all<T>(s: Seq<T>, values: Seq<T>) -> Seq<T>
    decreases values.len(),
{
    if values.len() == 0 {
        s
    } else {
        pushed(pushed_all(s, values.drop_last()), values.last())
    }
}

/// What `n` pops in a row hand out, in that order, and what they leave of `s`.
pub open spec fn popped_times<T>(s: Seq<T>, n: nat) -> (Seq<Option<T>>, Seq<T>)
    decreases n,
{
    if n == 0 {
        (Seq::empty(), s)
    } else {
        let (head, rest) = popped(s);
        let (more, left) = popped_times(rest, (n - 1) as nat);
        (seq![head] + more, left)
    }
}

/// The elements that a walk over `s` hands out before it ends: one head after
/// another, until nothing is left.
pub open spec fn walked<T>(s: Seq<T>) -> Seq<T>
    decreases s.len(),
{
    match popped(s) {
        (None, _) => Seq::empty(),
        (Some(head), rest) => seq![head] + walked(rest),
    }
}

impl<T> ListNode<T> {
    /// The node's value followed by the elements of its tail.
    pub closed spec fn elements(self) -> Seq<T>
        decreases self,
    {
        seq![self.value] + self.tail.elements()
    }
}

impl<T> ListOf<T> {
    /// The elements from head to tail.
    pub closed spec fn elements(self) -> Seq<T>
        decreases self,
    {
        match self.head {
            None => Seq::empty(),
            Some(node) => node.elements(),
        }
    }
}

impl<T> View for ListNode<T> {
    type V = Seq<T>;

    open spec fn view(&self) -> Seq<T> {
        self.elements()
    }
}

impl<T> View for ListOf<T> {
    type V = Seq<T>;

    open spec fn view(&self) -> Seq<T> {
        self.elements()
    }
}

impl<T: Clone> Clone for ListOf<T> {
    /// A chain of its own that holds a clone of each element, in the same order.
    fn clone(&self) -> (copy: Self)
        ensures
            copy@.len() == self@.len(),
            forall|i: int| 0 <= i < self@.len() ==> cloned::<T>(#[trigger] self@[i], copy@[i]),
    {
        let mut reversed: ListOf<T> = ListOf::new();
        let mut walk = self.iter();
        loop
            invariant
                reversed@.len() + walk@.len() == self@.len(),
                walk@ == self@.subrange(reversed@.len() as int, self@.len() as int),
                forall|i: int|
                    0 <= i < reversed@.len() ==> cloned::<T>(
                        self@[reversed@.len() - 1 - i],
                        #[trigger] reversed@[i],
                    ),
            ensures
                walk@.len() == 0,
            decreases walk@.len(),
        {
            match walk.next() {
                None => {
                    break;
                },
                Some(element) => {
                    reversed.push(element.clone());
                },
            }
        }
        let mut copy: ListOf<T> = ListOf::new();
        loop
            invariant
                reversed@.len() + copy@.len() == self@.len(),
                forall|i: int|
                    0 <= i < reversed@.len() ==> cloned::<T>(
                        self@[reversed@.len() - 1 - i],
                        #[trigger] reversed@[i],
                    ),
                forall|i: int|
                    0 <= i < copy@.len() ==> cloned::<T>(
                        self@[reversed@.len() + i],
                        #[trigger] copy@[i],
                    ),
            ensures
                reversed@.len() == 0,
            decreases reversed@.len(),
        {
            match reversed.pop() {
                None => {
                    break;
                },
                Some(element) => {
                    copy.push(element);
                },
            }
        }
        copy
    }
}

impl<T> Default for ListOf<T> {
    /// The empty sequence.
    fn default() -> (list: Self)
        ensures
            list@ == Seq::<T>::empty(),
    {
        ListOf { head: None }
    }
}

impl<T> ListOf<T> {
    /// The empty sequence.
    pub fn new() -> (list: Self)
        ensures
            list@ == Seq::<T>::empty(),
    {
        ListOf { head: None }
    }

    /// The head element, or `None` if the sequence is empty.
    pub fn value(&self) -> (head: Option<&T>)
        ensures
            unref(head) == element_at(self@, 0),
    {
        match &self.head {
            None => None,
            Some(node) => Some(&node.value),
        }
    }

    /// The head element for writing, or `None` if the sequence is empty. What
    /// is written through it becomes the head; nothing else changes.
    pub fn value_mut(&mut self) -> (head: Option<&mut T>)
        ensures
            head is None <==> old(self)@.len() == 0,
            head is None ==> final(self)@ == old(self)@,
            head matches Some(slot) ==> *slot == old(self)@[0],
            head matches Some(slot) ==> final(self)@ == old(self)@.update(0, *final(slot)),
    {
        match &mut self.head {
            None => None,
            Some(node) => Some(&mut node.value),
        }
    }

    /// The sequence behind the head; an empty sequence is its own tail.
    pub fn tail(&self) -> (rest: &Self)
        ensures
            rest@ == tail_of(self@),
    {
        match &self.head {
            None => self,
            Some(node) => &node.tail,
        }
    }

    /// The sequence behind the head, for writing; an empty sequence is its own
    /// tail. What the returned sequence becomes is what follows the head
    /// afterwards, or the whole sequence where there was no head.
    pub fn tail_mut(&mut self) -> (rest: &mut Self)
        ensures
            rest@ == tail_of(old(self)@),
            final(self)@ == (if old(self)@.len() == 0 {
                final(rest)@
            } else {
                seq![old(self)@[0]] + final(rest)@
            }),
    {
        if self.head.is_none() {
            self
        } else {
            &mut self.head.as_mut().unwrap().tail
        }
    }

    /// The element `index` links behind the head, or `None` if the chain is
    /// shorter than that.
    pub fn get(&self, index: usize) -> (element: Option<&T>)
        ensures
            unref(element) == element_at(self@, index as int),
    {
        let mut here: &ListOf<T> = self;
        let mut left: usize = index;
        loop
            invariant
                left <= index,
                element_at(here@, left as int) == element_at(self@, index as int),
            decreases left,
        {
            match &here.head {
                None => {
                    return None;
                },
                Some(node) => {
                    if left == 0 {
                        return Some(&node.value);
                    }
                    here = &node.tail;
                    left = left - 1;
                },
            }
        }
    }

    /// Makes a new head holding `value`, whose tail is the whole chain as it was.
    pub fn push(&mut self, value: T)
        ensures
            final(self)@ == pushed(old(self)@, value),
    {
        let rest = ListOf { head: self.head.take() };
        self.head = Some(Box::new(ListNode { value, tail: rest }));
    }

    /// Takes the head node off the chain and returns its value; `None`, and no
    /// change, if the sequence is empty.
    pub fn pop(&mut self) -> (head: Option<T>)
        ensures
            (head, final(self)@) == popped(old(self)@),
    {
        match self.head.take() {
            None => None,
            Some(node) => {
                let ListNode { value, tail: rest } = *node;
                *self = rest;
                Some(value)
            },
        }
    }

    /// Gives the chain up to a consuming walk, which hands out the elements
    /// from head to tail and takes one node off for each.
    pub fn into_iter(self) -> (walk: IntoIter<T>)
        ensures
            walk@ == self@,
    {
        IntoIter { rest: self }
    }

    /// A walk over the elements from head to tail that leaves the chain as it is.
    pub fn iter(&self) -> (walk: Iter<'_, T>)
        ensures
            walk@ == self@,
    {
        Iter { rest: self }
    }

    /// A walk over the elements from head to tail that hands each out for
    /// writing and leaves the shape of the chain as it is. Once the walk and
    /// the references it handed out are done with, the sequence holds what
    /// they were left holding; a walk that is given up leaves what it has not
    /// come to as it is.
    pub fn iter_mut(&mut self) -> (walk: IterMut<'_, T>)
        ensures
            walk@ == old(self)@,
            walk.cursor() is None <==> old(self)@.len() == 0,
            final(self)@ == (match walk.cursor() {
                None => Seq::<T>::empty(),
                Some(node) => final(node)@,
            }),
            has_resolved(walk) ==> (match walk.cursor() {
                None => true,
                Some(node) => final(node)@ == node@,
            }),
    {
        let walk = match &mut self.head {
            None => IterMut { rest: None },
            Some(node) => IterMut { rest: Some(&mut **node) },
        };
        proof {
            walk.lemma_left_alone();
        }
        walk
    }
}

/// A consuming walk: owns what is left of the chain.
pub struct IntoIter<T> {
    rest: ListOf<T>,
}

impl<T> View for IntoIter<T> {
    type V = Seq<T>;

    /// The elements still to come, next one first.
    closed spec fn view(&self) -> Seq<T> {
        self.rest@
    }
}

impl<T> IntoIter<T> {
    /// The next element, detached from the chain with its node; `None` once
    /// the chain is used up, and from then on.
    pub fn next(&mut self) -> (item: Option<T>)
        ensures
            (item, final(self)@) == popped(old(self)@),
    {
        self.rest.pop()
    }
}

/// A walk by shared reference: looks at what is left of a chain.
pub struct Iter<'a, T> {
    rest: &'a ListOf<T>,
}

impl<'a, T> View for Iter<'a, T> {
    type V = Seq<T>;

    /// The elements still to come, next one first.
    closed spec fn view(&self) -> Seq<T> {
        self.rest@
    }
}

impl<'a, T> Iter<'a, T> {
    /// A reference to the next element; `None` once the end is reached, and
    /// from then on.
    pub fn next(&mut self) -> (item: Option<&'a T>)
        ensures
            (unref(item), final(self)@) == popped(old(self)@),
    {
        let here: &'a ListOf<T> = self.rest;
        let item = here.value();
        self.rest = here.tail();
        item
    }
}

/// A walk by mutable reference: holds the node it has come to, if any.
pub struct IterMut<'a, T> {
    rest: Option<&'a mut ListNode<T>>,
}

impl<'a, T> View for IterMut<'a, T> {
    type V = Seq<T>;

    /// The elements still to come, next one first, as they are now.
    open spec fn view(&self) -> Seq<T> {
        match self.cursor() {
            None => Seq::empty(),
            Some(node) => node@,
        }
    }
}

impl<'a, T> IterMut<'a, T> {
    /// The node that the walk has come to; `None` at the end of the chain.
    pub closed spec fn cursor(&self) -> Option<&'a mut ListNode<T>> {
        self.rest
    }

    /// A walk that is done with leaves the node under its cursor, and so all
    /// that follows it, as it is.
    proof fn lemma_left_alone(self)
        ensures
            has_resolved(self) ==> (match self.cursor() {
                None => true,
                Some(node) => final(node)@ == node@,
            }),
    {
    }

    /// A mutable reference to the next element; `None` once the end is
    /// reached, and from then on. What the node under the cursor ends up
    /// holding is what is written through the returned reference, followed by
    /// what the rest of the walk leaves behind; a walk that is given up after
    /// this step leaves what it has not come to as it is.
    pub fn next(&mut self) -> (item: Option<&'a mut T>)
        ensures
            final(self)@ == tail_of(old(self)@),
            final(self).cursor() is None <==> final(self)@.len() == 0,
            has_resolved(*final(self)) ==> (match final(self).cursor() {
                None => true,
                Some(next) => final(next)@ == next@,
            }),
            match item {
                None => old(self).cursor() is None && old(self)@.len() == 0,
                Some(slot) => {
                    &&& old(self)@.len() > 0
                    &&& *slot == old(self)@[0]
                    &&& old(self).cursor() matches Some(node)
                    &&& final(node)@ == seq![*final(slot)] + (match final(self).cursor() {
                        None => Seq::<T>::empty(),
                        Some(next) => final(next)@,
                    })
                },
            },
    {
        match self.rest.take() {
            None => None,
            Some(node) => {
                self.rest = match &mut node.tail.head {
                    None => None,
                    Some(next) => Some(&mut **next),
                };
                Some(&mut node.value)
            },
        }
    }
}

/// Pushing the elements of `values` one by one onto `s` puts them in front of
/// it in reverse order.
pub proof fn lemma_pushed_all<T>(s: Seq<T>, values: Seq<T>)
    ensures
        pushed_all(s, values) == values.reverse() + s,
    decreases values.len(),
{
    if values.len() > 0 {
        lemma_pushed_all(s, values.drop_last());
    }
}

/// As long as there are elements, `n` pops in a row hand out the first `n` of
/// them, head first, and leave the others.
pub proof fn lemma_popped_times<T>(s: Seq<T>, n: nat)
    requires
        n <= s.len(),
    ensures
        popped_times(s, n).0 == s.subrange(0, n as int).map_values(|value: T| Some(value)),
        popped_times(s, n).1 == s.subrange(n as int, s.len() as int),
    decreases n,
{
    if n > 0 {
        lemma_popped_times(popped(s).1, (n - 1) as nat);
    }
}

/// A walk hands out every element, head to tail.
pub proof fn lemma_walked<T>(s: Seq<T>)
    ensures
        walked(s) == s,
    decreases s.len(),
{
    if s.len() > 0 {
        lemma_walked(popped(s).1);
    }
}

/// Last in, first out: after the elements of `values` were pushed onto an
/// empty sequence one by one, as many pops hand them out in reverse order,
/// the last pushed first, and leave the sequence empty.
pub proof fn lemma_last_in_first_out<T>(values: Seq<T>)
    ensures
        popped_times(pushed_all(Seq::empty(), values), values.len()) == (
            values.reverse().map_values(|value: T| Some(value)),
            Seq::<T>::empty(),
        ),
{
    lemma_pushed_all(Seq::empty(), values);
    lemma_popped_times(pushed_all(Seq::empty(), values), values.len());
}

/// A push followed by a pop hands the pushed value back and leaves the
/// sequence as it was before the push: the same elements in the same order.
pub proof fn lemma_push_then_pop<T>(s: Seq<T>, value: T)
    ensures
        popped(pushed(s, value)) == (Some(value), s),
{
}

/// Reading by index agrees with walking: the element at a valid `index` is the
/// one that a walk from the head hands out after `index` others.
pub proof fn lemma_get_agrees_with_walk<T>(s: Seq<T>, index: int)
    requires
        0 <= index < s.len(),
    ensures
        walked(s).len() == s.len(),
        element_at(s, index) == Some(walked(s)[index]),
{
    lemma_walked(s);
}

/// A consuming walk agrees with popping: what it hands out before it ends is,
/// element for element, what as many pops as there are elements hand out, and
/// both leave nothing.
pub proof fn lemma_walk_agrees_with_pops<T>(s: Seq<T>)
    ensures
        popped_times(s, s.len()).0 == walked(s).map_values(|value: T| Some(value)),
        popped_times(s, s.len()).1 == Seq::<T>::empty(),
{
    lemma_walked(s);
    lemma_popped_times(s, s.len());
}

} // verus!

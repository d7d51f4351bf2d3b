//! A list of texts that is read from front to back.

use vstd::prelude::*;
use vstd::string::*;

verus! {

/// A list of texts and a place in it, which may lie behind the end.
pub struct StringCursor {
    items: Vec<String>,
    index: usize,
}

/// Texts as values.
pub open spec fn text_views(items: Seq<String>) -> Seq<Seq<char>> {
    items.map_values(|s: String| s@)
}

/// The first `n` of the texts that are left, or all if there are fewer.
pub open spec fn front(left: Seq<Seq<char>>, n: nat) -> Seq<Seq<char>> {
    if n <= left.len() {
        left.take(n as int)
    } else {
        left
    }
}

/// What is left behind the first `n`.
pub open spec fn behind(left: Seq<Seq<char>>, n: nat) -> Seq<Seq<char>> {
    if n <= left.len() {
        left.skip(n as int)
    } else {
        Seq::empty()
    }
}

impl View for StringCursor {
    type V = Seq<Seq<char>>;

    /// The texts that are left to read.
    closed spec fn view(&self) -> Seq<Seq<char>> {
        behind(text_views(self.items@), self.index as nat)
    }
}

impl StringCursor {
    /// A cursor at the front of a list.
    pub fn new(items: Vec<String>) -> (c: StringCursor)
        ensures
            c@ == text_views(items@),
    {
        let c = StringCursor { items, index: 0 };
        assert(c@ =~= text_views(items@));
        c
    }

    /// The text at the cursor.
    pub fn current(&self) -> (r: Option<String>)
        ensures
            match r {
                Some(s) => self@.len() > 0 && s@ == self@[0],
                None => self@.len() == 0,
            },
    {
        if self.index < self.items.len() {
            Some(self.items[self.index].clone())
        } else {
            None
        }
    }

    /// Tells whether there is a text at the cursor.
    pub fn has_current(&self) -> (r: bool)
        ensures
            r == (self@.len() > 0),
    {
        self.index < self.items.len()
    }

    /// Moves the cursor to the next text, and tells whether there is one.
    pub fn move_next(&mut self) -> (r: bool)
        ensures
            final(self)@ == behind(old(self)@, 1),
            r == (final(self)@.len() > 0),
    {
        let ghost before = self@;
        let len: usize = self.items.len();
        self.index = self.index.saturating_add(1);
        assert(self@ =~= behind(before, 1));
        self.index < len
    }

    /// Reads as many texts as there are, but not more than `capacity`.
    pub fn get_many(&mut self, capacity: usize) -> (v: Vec<String>)
        ensures
            text_views(v@) == front(old(self)@, capacity as nat),
            final(self)@ == behind(old(self)@, capacity as nat),
    {
        let ghost before = self@;
        let available: usize = self.items.len().saturating_sub(self.index);
        let n: usize = if capacity < available {
            capacity
        } else {
            available
        };
        let mut v: Vec<String> = Vec::new();
        let mut k: usize = 0;
        while k < n
            invariant
                k <= n,
                self.index + n <= usize::MAX,
                n > 0 ==> self.index + n <= self.items@.len(),
                n <= before.len(),
                before == self@,
                text_views(v@) == before.take(k as int),
            decreases n - k,
        {
            let ghost so_far = text_views(v@);
            assert(before[k as int] == self.items@[self.index + k]@);
            v.push(self.items[self.index + k].clone());
            assert(text_views(v@) =~= so_far.push(before[k as int]));
            assert(before.take(k + 1) =~= before.take(k as int).push(before[k as int]));
            k += 1;
        }
        assert(text_views(v@) =~= front(before, capacity as nat));
        self.index = self.index + n;
        assert(self@ =~= behind(before, capacity as nat));
        v
    }
}

/// Reading in two goes gives what reading in one go gives, and leaves the same.
pub proof fn lemma_reading_in_parts(left: Seq<Seq<char>>, a: nat, b: nat)
    ensures
        front(left, a) + front(behind(left, a), b) == front(left, a + b),
        behind(behind(left, a), b) == behind(left, a + b),
{
    assert(front(left, a) + front(behind(left, a), b) =~= front(left, a + b));
    assert(behind(behind(left, a), b) =~= behind(left, a + b));
}

/// What is read and what is left make up what was there.
pub proof fn lemma_reading_loses_nothing(left: Seq<Seq<char>>, n: nat)
    ensures
        front(left, n) + behind(left, n) == left,
{
    assert(front(left, n) + behind(left, n) =~= left);
}

} // verus!

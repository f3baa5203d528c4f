use vstd::prelude::*;
use vstd::std_specs::iter::IteratorSpec;
use vstd::std_specs::slice::axiom_spec_slice_iter;

verus! {

/// The commands that were submitted, oldest first, and a cursor over them.
///
/// The cursor is meant to lie between -1 and the number of commands; that
/// number itself stands for fresh input, no command recalled. Any other value
/// is tolerated: it recalls nothing.
pub struct History {
    pub history: Vec<String>,
    pub index: isize,
}

/// The command under the cursor, if the cursor is on one.
pub open spec fn entry_at(entries: Seq<Seq<char>>, cursor: int) -> Option<Seq<char>> {
    if 0 <= cursor < entries.len() {
        Some(entries[cursor])
    } else {
        None
    }
}

/// Where the cursor stands after a step towards the oldest command.
pub open spec fn stepped_back(index: int) -> int {
    if index >= 0 {
        index - 1
    } else {
        index
    }
}

/// Where the cursor stands after a step towards fresh input, with `len`
/// commands stored.
pub open spec fn stepped_on(index: int, len: int) -> int {
    if index < len {
        index + 1
    } else {
        index
    }
}

/// The text of an optional string.
pub open spec fn text_of(s: Option<String>) -> Option<Seq<char>> {
    match s {
        Some(s) => Some(s@),
        None => None,
    }
}

impl History {
    /// The stored commands, oldest first.
    pub open spec fn entries(&self) -> Seq<Seq<char>> {
        self.history@.map_values(|s: String| s@)
    }

    /// The stored commands in the order in which they came, whatever the
    /// cursor; the cursor is left alone.
    pub fn iter(&self) -> (it: core::slice::Iter<'_, String>)
        ensures
            it.remaining().map_values(|s: &String| s@) == self.entries(),
    {
        broadcast use axiom_spec_slice_iter;

        let it = self.history.as_slice().iter();
        assert(it.remaining().map_values(|s: &String| s@) =~= self.entries());
        it
    }

    pub fn new() -> (h: Self)
        ensures
            h.entries() == Seq::<Seq<char>>::empty(),
            h.index == 0,
    {
        let h = Self { history: Vec::new(), index: 0 };
        assert(h.entries() =~= Seq::<Seq<char>>::empty());
        h
    }

    /// How many commands are stored.
    pub fn len(&self) -> (n: usize)
        ensures
            n == self.entries().len(),
    {
        self.history.len()
    }

    /// Stores a command and puts the cursor behind it, on fresh input.
    pub fn push(&mut self, cmd: String)
        requires
            old(self).entries().len() < isize::MAX,
        ensures
            final(self).entries() == old(self).entries().push(cmd@),
            final(self).index == final(self).entries().len(),
    {
        self.history.push(cmd);
        self.index = self.history.len() as isize;
        assert(self.entries() =~= old(self).entries().push(cmd@));
    }

    /// Steps the cursor towards the oldest command and returns the command
    /// it then stands on. Below the oldest the cursor stays at -1, and the
    /// result is `None`.
    pub fn prev(&mut self) -> (r: Option<String>)
        ensures
            final(self).entries() == old(self).entries(),
            final(self).index == stepped_back(old(self).index as int),
            text_of(r) == entry_at(final(self).entries(), final(self).index as int),
    {
        if self.index >= 0 {
            self.index = self.index - 1;
            if self.index >= 0 && (self.index as usize) < self.history.len() {
                return Some(self.history[self.index as usize].clone());
            }
        }
        None
    }

    /// Steps the cursor towards fresh input and returns the command it then
    /// stands on. Behind the newest the cursor stays at the number of
    /// commands, and the result is `None`.
    pub fn next(&mut self) -> (r: Option<String>)
        requires
            old(self).entries().len() <= isize::MAX,
        ensures
            final(self).entries() == old(self).entries(),
            final(self).index == stepped_on(
                old(self).index as int,
                old(self).entries().len() as int,
            ),
            text_of(r) == entry_at(final(self).entries(), final(self).index as int),
    {
        if self.index < 0 || (self.index as usize) < self.history.len() {
            self.index = self.index + 1;
            if self.index >= 0 && (self.index as usize) < self.history.len() {
                return Some(self.history[self.index as usize].clone());
            }
        }
        None
    }
}

impl Default for History {
    fn default() -> (h: Self)
        ensures
            h.entries() == Seq::<Seq<char>>::empty(),
            h.index == 0,
    {
        Self::new()
    }
}

/// A cursor between -1 and the number of commands stays there, whichever
/// way it steps. At either end it recalls nothing, and a further step
/// outwards leaves it where it is.
pub proof fn lemma_cursor_stays_in_range(entries: Seq<Seq<char>>, index: int)
    requires
        -1 <= index <= entries.len(),
    ensures
        -1 <= stepped_back(index) <= entries.len(),
        -1 <= stepped_on(index, entries.len() as int) <= entries.len(),
        stepped_back(-1) == -1,
        stepped_on(entries.len() as int, entries.len() as int) == entries.len(),
        entry_at(entries, -1) is None,
        entry_at(entries, entries.len() as int) is None,
{
}

/// A step back and then a step on, or the other way round, brings the
/// cursor back to the command it was on.
pub proof fn lemma_steps_undo_each_other(entries: Seq<Seq<char>>, index: int)
    requires
        0 <= index < entries.len(),
    ensures
        stepped_on(stepped_back(index), entries.len() as int) == index,
        stepped_back(stepped_on(index, entries.len() as int)) == index,
{
}

} // verus!

//! The command registry: an immutable table of command names built once at
//! session start. The surrounding program keeps the actions in a parallel
//! table in the same order; the library resolves a name to its index.

use vstd::prelude::*;

verus! {

/// The names the session recognizes as commands, in registration order.
pub struct CommandTable {
    names: Vec<String>,
}

impl View for CommandTable {
    type V = Seq<Seq<char>>;

    closed spec fn view(&self) -> Seq<Seq<char>> {
        Seq::new(self.names@.len(), |i: int| self.names@[i]@)
    }
}

/// Whether `table` holds an entry equal to `key`.
pub open spec fn has_command(table: Seq<Seq<char>>, key: Seq<char>) -> bool {
    exists|i: int| 0 <= i < table.len() && table[i] == key
}

impl CommandTable {
    /// An empty table.
    pub fn new() -> (t: CommandTable)
        ensures
            t@ == Seq::<Seq<char>>::empty(),
    {
        let t = CommandTable { names: Vec::new() };
        proof {
            assert(t@ =~= Seq::<Seq<char>>::empty());
        }
        t
    }

    /// Adds one name at the end of the table.
    pub fn register(&mut self, name: String)
        ensures
            final(self)@ == old(self)@.push(name@),
    {
        self.names.push(name);
        proof {
            assert(self@ =~= old(self)@.push(name@));
        }
    }

    /// How many names are registered.
    pub fn len(&self) -> (n: usize)
        ensures
            n == self@.len(),
    {
        self.names.len()
    }

    /// The index of the first entry equal to `key`, if the table holds one:
    /// lookups are case-sensitive exact matches.
    pub fn lookup(&self, key: &str) -> (r: Option<usize>)
        ensures
            match r {
                Some(i) => i < self@.len() && self@[i as int] == key@ && (forall|j: int|
                    0 <= j < i ==> self@[j] != key@),
                None => !has_command(self@, key@),
            },
    {
        let owned = String::from_str(key);
        let n = self.names.len();
        for i in 0..n
            invariant
                n == self.names.len(),
                owned@ == key@,
                forall|j: int| 0 <= j < i ==> self@[j] != key@,
        {
            if self.names[i] == owned {
                return Some(i);
            }
        }
        None
    }
}

} // verus!

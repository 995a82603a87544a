//! The table of actions: the commands to run for each gesture key.
use vstd::prelude::*;

verus! {

/// An executable and its arguments.
#[derive(Debug)]
pub struct Command {
    pub program: String,
    pub args: Vec<String>,
}

/// Commands by gesture key; commands of one key run in order.
#[derive(Debug)]
pub struct Actions {
    pub portrait: bool,
    pub actions: Vec<(String, Vec<Command>)>,
}

/// Whether entry `i` is the first one with the key.
pub open spec fn is_first_entry(es: Seq<(String, Vec<Command>)>, key: Seq<char>, i: int) -> bool {
    &&& 0 <= i < es.len()
    &&& es[i].0@ == key
    &&& forall|j: int| 0 <= j < i ==> es[j].0@ != key
}

/// Whether some entry has the key.
pub open spec fn has_entry(es: Seq<(String, Vec<Command>)>, key: Seq<char>) -> bool {
    exists|i: int| 0 <= i < es.len() && es[i].0@ == key
}

impl Actions {
    /// An empty table.
    pub fn new() -> (r: Actions)
        ensures
            r.actions@.len() == 0,
            !r.portrait,
    {
        Actions { portrait: false, actions: Vec::new() }
    }

    /// Position of the first entry with the key, if any.
    pub fn find(&self, key: &String) -> (r: Option<usize>)
        ensures
            r is None <==> !has_entry(self.actions@, key@),
            r is Some ==> is_first_entry(self.actions@, key@, r->Some_0 as int),
    {
        let mut i: usize = 0;
        while i < self.actions.len()
            invariant
                i <= self.actions@.len(),
                forall|j: int| 0 <= j < i ==> self.actions@[j].0@ != key@,
            decreases self.actions@.len() - i,
        {
            if self.actions[i].0 == *key {
                return Some(i);
            }
            i += 1;
        }
        None
    }

    /// The commands of a gesture key: those of the first entry with the key.
    pub fn resolve(&self, key: &String) -> (r: Option<&Vec<Command>>)
        ensures
            r is None <==> !has_entry(self.actions@, key@),
            r is Some ==> exists|i: int|
                is_first_entry(self.actions@, key@, i) && r->Some_0 == &self.actions@[i].1,
    {
        match self.find(key) {
            Some(i) => Some(&self.actions[i].1),
            None => None,
        }
    }

    /// Sets the commands of a key, in place of those of its first entry if it has
    /// one, else in a new entry at the end.
    pub fn insert(&mut self, key: String, commands: Vec<Command>)
        ensures
            final(self).portrait == old(self).portrait,
            has_entry(old(self).actions@, key@) ==> exists|i: int|
                is_first_entry(old(self).actions@, key@, i) && final(self).actions@
                    == old(self).actions@.update(i, (key, commands)),
            !has_entry(old(self).actions@, key@) ==> final(self).actions@
                == old(self).actions@.push((key, commands)),
    {
        match self.find(&key) {
            Some(i) => {
                self.actions.set(i, (key, commands));
            },
            None => {
                self.actions.push((key, commands));
            },
        }
    }
}

impl Default for Actions {
    fn default() -> (r: Actions)
        ensures
            r.actions@.len() == 0,
            !r.portrait,
    {
        Actions::new()
    }
}

} // verus!

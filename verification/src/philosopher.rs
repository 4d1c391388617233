//! A named philosopher. In the running program each philosopher eats on a
//! task of their own; the eating is a timed suspension with console output,
//! done by the runtime. The library holds only the data.

use vstd::prelude::*;

verus! {

/// A philosopher, known by name.
pub struct Philosopher {
    name: String,
}

impl View for Philosopher {
    type V = Seq<char>;

    closed spec fn view(&self) -> Seq<char> {
        self.name@
    }
}

impl Philosopher {
    /// Creates a philosopher with the given name.
    pub fn new(name: &str) -> (philosopher: Philosopher)
        ensures
            philosopher@ == name@,
    {
        Philosopher { name: name.to_string() }
    }

    /// The philosopher's name.
    pub fn name(&self) -> (name: &String)
        ensures
            name@ == self@,
    {
        &self.name
    }
}

} // verus!

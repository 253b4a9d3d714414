use vstd::prelude::*;

verus! {

/// A tiny counter application: a counter that counts down no further once it reaches
/// zero, and an exit flag.
#[derive(Debug, Default)]
pub struct App {
    pub exit: bool,
    pub counter: i64,
}

impl App {
    /// Marks the application as finished.
    pub fn exit(&mut self)
        ensures
            final(self).exit,
            final(self).counter == old(self).counter,
    {
        self.exit = true;
    }

    /// Counts one down; a counter at zero stays at zero.
    pub fn decrement(&mut self)
        requires
            old(self).counter > i64::MIN,
        ensures
            final(self).exit == old(self).exit,
            final(self).counter == if old(self).counter != 0 { old(self).counter - 1 } else { 0 },
    {
        if self.counter != 0 {
            self.counter = self.counter - 1;
        }
    }

    /// Counts one up.
    pub fn increment(&mut self)
        requires
            old(self).counter < i64::MAX,
        ensures
            final(self).exit == old(self).exit,
            final(self).counter == old(self).counter + 1,
    {
        self.counter = self.counter + 1;
    }
}

} // verus!

//! The keystroke agent: each tick it presses one generated key.

use vstd::prelude::*;
use crate::backend::KeyboardBackend;
use crate::generator::KeyGenerator;

verus! {

/// Presses, on every update, the key its generator hands it.
pub struct KeyboardAgent<B, K> where B: KeyboardBackend, K: KeyGenerator {
    backend: B,
    key_generator: K,
    drawn: Ghost<Seq<char>>,
    pressed: Ghost<Seq<char>>,
}

impl<B, K> KeyboardAgent<B, K> where B: KeyboardBackend, K: KeyGenerator {
    /// The keyboard this agent presses keys on.
    pub closed spec fn backend(&self) -> B {
        self.backend
    }

    /// The generator this agent takes its keys from.
    pub closed spec fn key_generator(&self) -> K {
        self.key_generator
    }

    /// Every key this agent has drawn from its generator, oldest first.
    pub closed spec fn drawn(&self) -> Seq<char> {
        self.drawn@
    }

    /// Every key this agent has pressed on its backend, oldest first.
    pub closed spec fn pressed(&self) -> Seq<char> {
        self.pressed@
    }

    /// An agent that presses the keys of `key_generator` on `backend`.
    /// Nothing is drawn or pressed yet.
    pub fn new(backend: B, key_generator: K) -> (agent: Self)
        ensures
            agent.backend() == backend,
            agent.key_generator() == key_generator,
            agent.drawn() == Seq::<char>::empty(),
            agent.pressed() == Seq::<char>::empty(),
    {
        Self { backend, key_generator, drawn: Ghost(Seq::empty()), pressed: Ghost(Seq::empty()) }
    }

    /// Draws a key, and notes the call.
    fn draw(&mut self) -> (key: char)
        ensures
            old(self).key_generator().may_produce(key),
            old(self).key_generator().follows_key(key, &final(self).key_generator()),
            final(self).backend() == old(self).backend(),
            final(self).drawn() == old(self).drawn().push(key),
            final(self).pressed() == old(self).pressed(),
    {
        let key = self.key_generator.next_key();
        self.drawn = Ghost(self.drawn@.push(key));
        key
    }

    /// Presses a key, and notes the call.
    fn press(&mut self, key: char)
        ensures
            old(self).backend().follows_press(key, &final(self).backend()),
            final(self).key_generator() == old(self).key_generator(),
            final(self).drawn() == old(self).drawn(),
            final(self).pressed() == old(self).pressed().push(key),
    {
        self.backend.press_key(key);
        self.pressed = Ghost(self.pressed@.push(key));
    }

    /// One tick: draws one key from the generator and presses it, once.
    /// Returns the key. The key is one of the generator's, and generator and
    /// backend are left as that one draw and that one press leave them.
    pub fn update(&mut self) -> (key: char)
        ensures
            old(self).key_generator().may_produce(key),
            old(self).key_generator().follows_key(key, &final(self).key_generator()),
            old(self).backend().follows_press(key, &final(self).backend()),
            final(self).drawn() == old(self).drawn().push(key),
            final(self).pressed() == old(self).pressed().push(key),
    {
        let key = self.draw();
        self.press(key);
        key
    }
}

} // verus!

use vstd::prelude::*;
use vstd::string::*;

verus! {

/// The keys held down at the moment, by key code (such as `"ArrowRight"`).
///
/// The codes are kept in a `Vec` of distinct strings rather than a `HashMap`:
/// vstd's `HashMap` specification holds only for key types that obey its key
/// model, and `String` is not among them. A handful of keys is held at once.
pub struct KeyState {
    pressed_keys: Vec<String>,
}

pub open spec fn distinct_codes(keys: Seq<String>) -> bool {
    forall|i: int, j: int| 0 <= i < j < keys.len() ==> #[trigger] keys[i]@ != #[trigger] keys[j]@
}

impl View for KeyState {
    type V = Set<Seq<char>>;

    closed spec fn view(&self) -> Set<Seq<char>> {
        Set::new(
            |k: Seq<char>|
                exists|i: int| 0 <= i < self.pressed_keys@.len() && self.pressed_keys@[i]@ == k,
        )
    }
}

impl KeyState {
    #[verifier::type_invariant]
    spec fn wf(&self) -> bool {
        distinct_codes(self.pressed_keys@)
    }

    pub fn new() -> (r: KeyState)
        ensures
            r@ == Set::<Seq<char>>::empty(),
    {
        let r = KeyState { pressed_keys: Vec::new() };
        assert(r@ =~= Set::<Seq<char>>::empty());
        r
    }

    fn position(&self, code: &String) -> (r: Option<usize>)
        ensures
            match r {
                Some(i) => i < self.pressed_keys@.len() && self.pressed_keys@[i as int]@ == code@,
                None => !self@.contains(code@),
            },
    {
        let mut i: usize = 0;
        while i < self.pressed_keys.len()
            invariant
                i <= self.pressed_keys@.len(),
                forall|j: int| 0 <= j < i ==> self.pressed_keys@[j]@ != code@,
            decreases self.pressed_keys@.len() - i,
        {
            if self.pressed_keys[i] == *code {
                return Some(i);
            }
            i = i + 1;
        }
        None
    }

    pub fn is_pressed(&self, code: &str) -> (r: bool)
        ensures
            r == self@.contains(code@),
    {
        let key = String::from_str(code);
        self.position(&key).is_some()
    }

    pub fn set_pressed(&mut self, code: &str)
        ensures
            final(self)@ == old(self)@.insert(code@),
    {
        proof {
            use_type_invariant(&*self);
        }
        let key = String::from_str(code);
        if self.position(&key).is_none() {
            let ghost before = self.pressed_keys@;
            let mut keys: Vec<String> = Vec::new();
            std::mem::swap(&mut keys, &mut self.pressed_keys);
            keys.push(key);
            assert forall|a: int, b: int|
                0 <= a < b < keys@.len() implies #[trigger] keys@[a]@ != #[trigger] keys@[b]@ by {
                if b < before.len() {
                    assert(before[a]@ != before[b]@);
                } else {
                    assert(old(self)@.contains(before[a]@));
                }
            }
            self.pressed_keys = keys;
            assert forall|k: Seq<char>| #[trigger] self@.contains(k) == old(self)@.insert(
                code@,
            ).contains(k) by {
                if self@.contains(k) && k != code@ {
                    let j = choose|j: int|
                        0 <= j < self.pressed_keys@.len() && self.pressed_keys@[j]@ == k;
                    assert(before[j]@ == k);
                }
                if old(self)@.contains(k) {
                    let j = choose|j: int| 0 <= j < before.len() && before[j]@ == k;
                    assert(self.pressed_keys@[j]@ == k);
                }
                if k == code@ {
                    assert(self.pressed_keys@[before.len() as int]@ == k);
                }
            }
            assert(self@ =~= old(self)@.insert(code@));
        } else {
            assert(self@ =~= old(self)@.insert(code@));
        }
    }

    pub fn set_released(&mut self, code: &str)
        ensures
            final(self)@ == old(self)@.remove(code@),
    {
        proof {
            use_type_invariant(&*self);
        }
        let key = String::from_str(code);
        match self.position(&key) {
            None => {
                assert(self@ =~= old(self)@.remove(code@));
            },
            Some(i) => {
                let ghost before = self.pressed_keys@;
                let mut keys: Vec<String> = Vec::new();
                std::mem::swap(&mut keys, &mut self.pressed_keys);
                keys.remove(i);
                assert(keys@ == before.remove(i as int));
                assert forall|a: int, b: int|
                    0 <= a < b < keys@.len() implies #[trigger] keys@[a]@
                    != #[trigger] keys@[b]@ by {
                    let a0 = if a < i { a } else { a + 1 };
                    let b0 = if b < i { b } else { b + 1 };
                    assert(keys@[a] == before[a0]);
                    assert(keys@[b] == before[b0]);
                    assert(before[a0]@ != before[b0]@);
                }
                self.pressed_keys = keys;
                assert forall|k: Seq<char>| #[trigger] self@.contains(k) == old(self)@.remove(
                    code@,
                ).contains(k) by {
                    if self@.contains(k) {
                        let j = choose|j: int|
                            0 <= j < self.pressed_keys@.len() && self.pressed_keys@[j]@ == k;
                        let j0 = if j < i { j } else { j + 1 };
                        assert(before[j0]@ == k);
                        assert(before[j0]@ != before[i as int]@);
                    }
                    if old(self)@.contains(k) && k != code@ {
                        let j = choose|j: int| 0 <= j < before.len() && before[j]@ == k;
                        assert(j != i);
                        let j1 = if j < i { j } else { j - 1 };
                        assert(self.pressed_keys@[j1]@ == k);
                    }
                }
                assert(self@ =~= old(self)@.remove(code@));
            },
        }
    }
}

} // verus!

use vstd::prelude::*;
use vstd::string::*;

verus! {

/// A rectangle inside a sprite atlas, as a sprite-sheet descriptor gives it.
#[derive(Clone, Copy, Debug, PartialEq, Eq, Structural)]
pub struct SheetRect {
    pub x: i16,
    pub y: i16,
    pub w: i16,
    pub h: i16,
}

/// One named frame of a sprite sheet: where it lies in the atlas, and where
/// its trimmed image sits inside the untrimmed sprite.
#[derive(Clone, Copy, Debug, PartialEq, Eq, Structural)]
pub struct Cell {
    pub frame: SheetRect,
    pub sprite_source_size: SheetRect,
}

/// A sprite-sheet descriptor: frame names mapped to cells. Each name occurs
/// once.
///
/// The entries are kept in a `Vec` rather than a `HashMap<String, Cell>`:
/// vstd's `HashMap` specification holds only for key types that obey its key
/// model, and `String` is not among them, so no lookup in such a map could be
/// proved. Sheets hold a few dozen frames, so a linear search is cheap.
pub struct Sheet {
    frames: Vec<(String, Cell)>,
}

impl View for Sheet {
    type V = Map<Seq<char>, Cell>;

    closed spec fn view(&self) -> Map<Seq<char>, Cell> {
        Map::new(
            |k: Seq<char>| exists|i: int| 0 <= i < self.frames@.len() && self.frames@[i].0@ == k,
            |k: Seq<char>|
                self.frames@[choose|i: int| 0 <= i < self.frames@.len() && self.frames@[i].0@ == k].1,
        )
    }
}

pub open spec fn unique_names(frames: Seq<(String, Cell)>) -> bool {
    forall|i: int, j: int|
        0 <= i < j < frames.len() ==> #[trigger] frames[i].0@ != #[trigger] frames[j].0@
}

impl Sheet {
    /// No two entries share a name.
    #[verifier::type_invariant]
    spec fn wf(&self) -> bool {
        unique_names(self.frames@)
    }

    proof fn lemma_entry(&self, i: int)
        requires
            unique_names(self.frames@),
            0 <= i < self.frames@.len(),
        ensures
            self@.contains_key(self.frames@[i].0@),
            self@[self.frames@[i].0@] == self.frames@[i].1,
    {
        let k = self.frames@[i].0@;
        assert(self@.dom().contains(k));
        let j = choose|j: int| 0 <= j < self.frames@.len() && self.frames@[j].0@ == k;
        assert(j == i) by {
            if j < i {
                assert(self.frames@[j].0@ != self.frames@[i].0@);
            } else if i < j {
                assert(self.frames@[i].0@ != self.frames@[j].0@);
            }
        }
    }

    pub fn new() -> (r: Sheet)
        ensures
            r@ == Map::<Seq<char>, Cell>::empty(),
    {
        let r = Sheet { frames: Vec::new() };
        assert(r@ =~= Map::<Seq<char>, Cell>::empty());
        r
    }

    /// Index of the entry named `name`, if any.
    fn position(&self, name: &String) -> (r: Option<usize>)
        ensures
            match r {
                Some(i) => i < self.frames@.len() && self.frames@[i as int].0@ == name@,
                None => !self@.contains_key(name@),
            },
    {
        let mut i: usize = 0;
        while i < self.frames.len()
            invariant
                i <= self.frames@.len(),
                forall|j: int| 0 <= j < i ==> self.frames@[j].0@ != name@,
            decreases self.frames@.len() - i,
        {
            if self.frames[i].0 == *name {
                return Some(i);
            }
            i = i + 1;
        }
        None
    }

    /// Adds a frame, or replaces the cell of a frame of that name.
    pub fn insert(&mut self, name: String, cell: Cell)
        ensures
            final(self)@ == old(self)@.insert(name@, cell),
    {
        proof {
            use_type_invariant(&*self);
        }
        let ghost old_sheet = *self;
        let ghost before = self.frames@;
        let ghost mut at: int = 0;
        let mut frames: Vec<(String, Cell)> = Vec::new();
        let found = self.position(&name);
        std::mem::swap(&mut frames, &mut self.frames);
        match found {
            Some(i) => {
                proof {
                    at = i as int;
                }
                frames.set(i, (name, cell));
                assert forall|a: int, b: int|
                    0 <= a < b < frames@.len() implies #[trigger] frames@[a].0@
                    != #[trigger] frames@[b].0@ by {
                    assert(before[a].0@ != before[b].0@);
                }
            },
            None => {
                proof {
                    at = before.len() as int;
                }
                frames.push((name, cell));
                assert forall|a: int, b: int|
                    0 <= a < b < frames@.len() implies #[trigger] frames@[a].0@
                    != #[trigger] frames@[b].0@ by {
                    if b < before.len() {
                        assert(before[a].0@ != before[b].0@);
                    } else if before[a].0@ == name@ {
                        old_sheet.lemma_entry(a);
                    }
                }
            },
        }
        self.frames = frames;
        proof {
            assert forall|k: Seq<char>| #[trigger] self@.contains_key(k) == old_sheet@.insert(
                name@,
                cell,
            ).contains_key(k) by {
                if self@.contains_key(k) {
                    let j = choose|j: int| 0 <= j < self.frames@.len() && self.frames@[j].0@ == k;
                    if k != name@ {
                        assert(before[j].0@ == k);
                    }
                }
                if k != name@ && old_sheet@.contains_key(k) {
                    let j = choose|j: int| 0 <= j < before.len() && before[j].0@ == k;
                    assert(self.frames@[j].0@ == k);
                }
                if k == name@ {
                    self.lemma_entry(at);
                }
            }
            assert forall|k: Seq<char>| #[trigger] self@.contains_key(k) implies self@[k]
                == old_sheet@.insert(name@, cell)[k] by {
                let j = choose|j: int| 0 <= j < self.frames@.len() && self.frames@[j].0@ == k;
                self.lemma_entry(j);
                if k != name@ {
                    assert(before[j] == self.frames@[j]);
                    old_sheet.lemma_entry(j);
                }
            }
            assert(self@ =~= old_sheet@.insert(name@, cell));
        }
    }

    /// The cell of the frame named `name`.
    pub fn get(&self, name: &str) -> (r: Option<&Cell>)
        ensures
            match r {
                Some(c) => self@.contains_key(name@) && *c == self@[name@],
                None => !self@.contains_key(name@),
            },
    {
        proof {
            use_type_invariant(self);
        }
        let key = String::from_str(name);
        match self.position(&key) {
            Some(i) => {
                proof { self.lemma_entry(i as int); }
                Some(&self.frames[i].1)
            },
            None => None,
        }
    }
}

pub open spec fn digit(d: int) -> char {
    seq!['0', '1', '2', '3', '4', '5', '6', '7', '8', '9'][d]
}

/// Decimal notation of `n`, without leading zeros.
pub open spec fn decimal(n: nat) -> Seq<char>
    decreases n,
{
    if n < 10 {
        seq![digit(n as int)]
    } else {
        decimal(n / 10).push(digit((n % 10) as int))
    }
}

/// Sheet key of an animation frame: `"{label} ({frame / 3 + 1}).png"`. Each
/// sprite is shown for three simulation frames.
pub open spec fn sprite_name(label: Seq<char>, frame: u8) -> Seq<char> {
    label + " ("@ + decimal((frame / 3 + 1) as nat) + ").png"@
}

fn digit_str(d: u8) -> (r: &'static str)
    requires
        d < 10,
    ensures
        r@ == seq![digit(d as int)],
{
    proof {
        reveal_strlit("0");
        reveal_strlit("1");
        reveal_strlit("2");
        reveal_strlit("3");
        reveal_strlit("4");
        reveal_strlit("5");
        reveal_strlit("6");
        reveal_strlit("7");
        reveal_strlit("8");
        reveal_strlit("9");
    }
    let r = match d {
        0 => "0",
        1 => "1",
        2 => "2",
        3 => "3",
        4 => "4",
        5 => "5",
        6 => "6",
        7 => "7",
        8 => "8",
        _ => "9",
    };
    assert(r@ =~= seq![digit(d as int)]);
    r
}

/// Appends the decimal notation of `n`.
fn push_decimal(s: &mut String, n: u8)
    ensures
        final(s)@ == old(s)@ + decimal(n as nat),
{
    if n >= 100 {
        s.append(digit_str(n / 100));
    }
    if n >= 10 {
        s.append(digit_str((n / 10) % 10));
    }
    s.append(digit_str(n % 10));
    proof {
        let n = n as nat;
        if n >= 100 {
            assert(decimal(n / 100) == seq![digit((n / 100) as int)]);
            assert(decimal(n / 10) == decimal(n / 100).push(digit(((n / 10) % 10) as int)));
        } else if n >= 10 {
            assert(decimal(n / 10) == seq![digit((n / 10) as int)]);
        }
    }
    assert(s@ =~= old(s)@ + decimal(n as nat));
}

/// The sheet key of frame `frame` of the animation labelled `label`.
pub fn sprite_key(label: &str, frame: u8) -> (r: String)
    ensures
        r@ == sprite_name(label@, frame),
{
    let mut key = String::from_str(label);
    key.append(" (");
    push_decimal(&mut key, frame / 3 + 1);
    key.append(").png");
    assert(key@ =~= sprite_name(label@, frame));
    key
}

} // verus!

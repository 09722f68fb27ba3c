//! The mapping from keyboard inputs to the keys of the keypad.
use vstd::prelude::*;

use super::NUM_KEYS;

verus! {

/// A key mapping as a mathematical value: the pairs of a keyboard input and
/// the key it stands for, in the order in which they were mapped.
pub type Keymap = Seq<(Seq<char>, usize)>;

/// Maps keyboard inputs to keys of the keypad. No input is mapped twice, no
/// key has two inputs, and every key mapped to exists.
#[derive(Debug)]
pub struct Input {
    keymapping: Vec<(String, usize)>,
}

/// Why a mapping cannot be set.
#[derive(Debug, PartialEq, Eq, Clone, Copy)]
pub enum InputError {
    /// The keypad has no key of that number.
    InvalidKey,
}

/// The pairs of a list of entries as mathematical values.
pub open spec fn entries_view(entries: Seq<(String, usize)>) -> Keymap {
    Seq::new(entries.len(), |i: int| (entries[i].0@, entries[i].1))
}

/// No input occurs twice, no key occurs twice, and every key is below
/// sixteen.
pub open spec fn keymap_wf(m: Keymap) -> bool {
    &&& forall|i: int, j: int| 0 <= i < j < m.len() ==> m[i].0 != m[j].0
    &&& forall|i: int, j: int| 0 <= i < j < m.len() ==> m[i].1 != m[j].1
    &&& forall|i: int| 0 <= i < m.len() ==> m[i].1 < 16
}

/// Whether an entry survives the mapping of `input` to `key`: it is about
/// another input and another key.
pub open spec fn unaffected(input: Seq<char>, key: usize) -> spec_fn((Seq<char>, usize)) -> bool {
    |e: (Seq<char>, usize)| e.0 != input && e.1 != key
}

/// The mapping after `input` is mapped to `key`: what `input` stood for
/// before and what stood for `key` before are forgotten, and the new pair is
/// added at the end.
pub open spec fn remapped(m: Keymap, input: Seq<char>, key: usize) -> Keymap {
    m.filter(unaffected(input, key)).push((input, key))
}

/// The mapping that a keyboard starts with: the left-hand block of a QWERTY
/// keyboard laid over the keypad.
pub open spec fn default_keymap() -> Keymap {
    seq![
        ("x"@, 0usize),
        ("1"@, 1usize),
        ("2"@, 2usize),
        ("3"@, 3usize),
        ("q"@, 4usize),
        ("w"@, 5usize),
        ("e"@, 6usize),
        ("a"@, 7usize),
        ("s"@, 8usize),
        ("d"@, 9usize),
        ("z"@, 10usize),
        ("c"@, 11usize),
        ("4"@, 12usize),
        ("r"@, 13usize),
        ("f"@, 14usize),
        ("v"@, 15usize),
    ]
}

/// The default mapping is well formed.
pub proof fn lemma_default_keymap_wf()
    ensures
        keymap_wf(default_keymap()),
        default_keymap().len() == 16,
{
    reveal_strlit("x");
    reveal_strlit("1");
    reveal_strlit("2");
    reveal_strlit("3");
    reveal_strlit("q");
    reveal_strlit("w");
    reveal_strlit("e");
    reveal_strlit("a");
    reveal_strlit("s");
    reveal_strlit("d");
    reveal_strlit("z");
    reveal_strlit("c");
    reveal_strlit("4");
    reveal_strlit("r");
    reveal_strlit("f");
    reveal_strlit("v");
    let m = default_keymap();
    assert forall|i: int, j: int| 0 <= i < j < m.len() implies m[i].0 != m[j].0 by {
        assert(m[i].0.len() == 1 && m[j].0.len() == 1);
        assert(m[i].0[0] != m[j].0[0]);
    }
}

/// Dropping entries from a well-formed mapping leaves it well formed, and
/// what is left are entries of the mapping that pass the test.
pub proof fn lemma_filter_keymap(m: Keymap, pred: spec_fn((Seq<char>, usize)) -> bool)
    requires
        keymap_wf(m),
    ensures
        keymap_wf(m.filter(pred)),
        forall|i: int|
            0 <= i < m.filter(pred).len() ==> m.contains(#[trigger] m.filter(pred)[i]) && pred(
                m.filter(pred)[i],
            ),
        forall|i: int| 0 <= i < m.len() && pred(m[i]) ==> m.filter(pred).contains(#[trigger] m[i]),
    decreases m.len(),
{
    reveal(Seq::filter);
    if m.len() > 0 {
        let rest = m.drop_last();
        let last = m.last();
        lemma_filter_keymap(rest, pred);
        let kept = rest.filter(pred);
        assert forall|i: int| 0 <= i < kept.len() implies m.contains(#[trigger] kept[i])
            && kept[i].0 != last.0 && kept[i].1 != last.1 by {
            assert(rest.contains(kept[i]));
            let k = choose|k: int| 0 <= k < rest.len() && rest[k] == kept[i];
            assert(m[k] == kept[i]);
        }
        assert forall|i: int| 0 <= i < m.len() && pred(m[i]) implies m.filter(pred).contains(
            #[trigger] m[i],
        ) by {
            if i < rest.len() {
                assert(rest[i] == m[i]);
                assert(kept.contains(rest[i]));
                let k = choose|k: int| 0 <= k < kept.len() && kept[k] == rest[i];
                assert(m.filter(pred)[k] == m[i]);
            } else {
                assert(m.filter(pred)[kept.len() as int] == m[i]);
            }
        }
    }
}

/// Mapping `input` to a key of the keypad keeps a mapping well formed. After
/// it `input` stands for `key`; what stood for `key` before, if it was
/// another input, stands for nothing; every other input stands for what it
/// stood for before.
pub proof fn lemma_remapped(m: Keymap, input: Seq<char>, key: usize)
    requires
        keymap_wf(m),
        key < 16,
    ensures
        keymap_wf(remapped(m, input, key)),
        remapped(m, input, key).contains((input, key)),
        forall|other: Seq<char>, k: usize|
            other != input ==> (remapped(m, input, key).contains((other, k)) <==> k != key
                && m.contains((other, k))),
{
    let pred = unaffected(input, key);
    let kept = m.filter(pred);
    let after = remapped(m, input, key);
    lemma_filter_keymap(m, pred);
    assert(after[kept.len() as int] == (input, key));
    assert forall|i: int| 0 <= i < kept.len() implies after[i] == kept[i] && pred(after[i])
        && m.contains(after[i]) by {}
    assert forall|other: Seq<char>, k: usize| other != input implies (after.contains((other, k))
        <==> k != key && m.contains((other, k))) by {
        if after.contains((other, k)) {
            let i = choose|i: int| 0 <= i < after.len() && after[i] == (other, k);
            assert(i < kept.len());
        }
        if k != key && m.contains((other, k)) {
            let i = choose|i: int| 0 <= i < m.len() && m[i] == (other, k);
            assert(pred(m[i]));
            assert(kept.contains(m[i]));
            let j = choose|j: int| 0 <= j < kept.len() && kept[j] == m[i];
            assert(after[j] == (other, k));
        }
    }
}

impl View for Input {
    type V = Keymap;

    closed spec fn view(&self) -> Keymap {
        entries_view(self.keymapping@)
    }
}

impl Default for Input {
    /// The default mapping.
    fn default() -> (input: Self)
        ensures
            input@ == default_keymap(),
    {
        let mut keys: Vec<(String, usize)> = Vec::new();
        keys.push(("x".to_string(), 0));
        keys.push(("1".to_string(), 1));
        keys.push(("2".to_string(), 2));
        keys.push(("3".to_string(), 3));
        keys.push(("q".to_string(), 4));
        keys.push(("w".to_string(), 5));
        keys.push(("e".to_string(), 6));
        keys.push(("a".to_string(), 7));
        keys.push(("s".to_string(), 8));
        keys.push(("d".to_string(), 9));
        keys.push(("z".to_string(), 10));
        keys.push(("c".to_string(), 11));
        keys.push(("4".to_string(), 12));
        keys.push(("r".to_string(), 13));
        keys.push(("f".to_string(), 14));
        keys.push(("v".to_string(), 15));
        proof {
            lemma_default_keymap_wf();
            assert(entries_view(keys@) =~= default_keymap());
        }
        Input { keymapping: keys }
    }
}

impl Input {
    #[verifier::type_invariant]
    spec fn inv(&self) -> bool {
        keymap_wf(entries_view(self.keymapping@))
    }

    /// A mapping in which no input stands for a key.
    pub fn new() -> (input: Self)
        ensures
            input@ == Seq::<(Seq<char>, usize)>::empty(),
    {
        let keys: Vec<(String, usize)> = Vec::new();
        proof {
            assert(entries_view(keys@) =~= Seq::<(Seq<char>, usize)>::empty());
        }
        Input { keymapping: keys }
    }

    /// The number of inputs that are mapped.
    pub fn len(&self) -> (n: usize)
        ensures
            n == self@.len(),
    {
        self.keymapping.len()
    }

    /// Whether no input is mapped.
    pub fn is_empty(&self) -> (b: bool)
        ensures
            b == (self@.len() == 0),
    {
        self.keymapping.len() == 0
    }

    /// Maps `input` to `key`. What `input` stood for before, and what stood
    /// for `key` before, are forgotten. Fails with `InvalidKey`, and changes
    /// nothing, if the keypad has no key `key`.
    pub fn set_key_mapping(&mut self, input: &str, key: usize) -> (r: Result<(), InputError>)
        ensures
            key < 16 ==> r == Ok::<(), InputError>(()) && final(self)@ == remapped(
                old(self)@,
                input@,
                key,
            ),
            key >= 16 ==> r == Err::<(), InputError>(InputError::InvalidKey) && final(self)@
                == old(self)@,
            keymap_wf(final(self)@),
    {
        proof {
            use_type_invariant(&*self);
        }
        if key >= NUM_KEYS {
            return Err(InputError::InvalidKey);
        }
        let needle = input.to_owned();
        let mut kept: Vec<(String, usize)> = Vec::new();
        let ghost pred = unaffected(input@, key);
        let mut i: usize = 0;
        proof {
            reveal(Seq::filter);
            assert(self@.take(0).filter(pred) =~= entries_view(kept@));
        }
        while i < self.keymapping.len()
            invariant
                i <= self.keymapping@.len(),
                needle@ == input@,
                pred == unaffected(input@, key),
                self@ == old(self)@,
                self@ == entries_view(self.keymapping@),
                entries_view(kept@) == self@.take(i as int).filter(pred),
            decreases self.keymapping@.len() - i,
        {
            let same_input = self.keymapping[i].0 == needle;
            let ghost before = entries_view(kept@);
            if self.keymapping[i].1 != key && !same_input {
                let entry = (self.keymapping[i].0.clone(), self.keymapping[i].1);
                kept.push(entry);
                proof {
                    assert(entries_view(kept@) =~= before.push(self@[i as int]));
                }
            }
            proof {
                Seq::lemma_filter_push(self@.take(i as int), self@[i as int], pred);
                assert(self@.take(i + 1) =~= self@.take(i as int).push(self@[i as int]));
            }
            i += 1;
        }
        proof {
            assert(self@.take(i as int) =~= self@);
        }
        let ghost before = entries_view(kept@);
        kept.push((needle, key));
        proof {
            assert(entries_view(kept@) =~= before.push((input@, key)));
            lemma_remapped(old(self)@, input@, key);
        }
        self.keymapping = kept;
        Ok(())
    }

    /// The key that `input` stands for, if it stands for one.
    #[must_use]
    pub fn get_key_mapping(&self, input: &str) -> (r: Option<&usize>)
        ensures
            keymap_wf(self@),
            match r {
                Some(key) => self@.contains((input@, *key)),
                None => forall|i: int| 0 <= i < self@.len() ==> self@[i].0 != input@,
            },
    {
        proof {
            use_type_invariant(self);
        }
        let needle = input.to_owned();
        let mut i: usize = 0;
        while i < self.keymapping.len()
            invariant
                i <= self.keymapping@.len(),
                needle@ == input@,
                self@ == entries_view(self.keymapping@),
                keymap_wf(self@),
                forall|j: int| 0 <= j < i ==> self@[j].0 != input@,
            decreases self.keymapping@.len() - i,
        {
            if self.keymapping[i].0 == needle {
                proof {
                    assert(self@[i as int] == (input@, self.keymapping@[i as int].1));
                }
                return Some(&self.keymapping[i].1);
            }
            i += 1;
        }
        None
    }
}

} // verus!

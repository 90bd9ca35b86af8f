use vstd::prelude::*;
use vstd::string::*;
use crate::keybind::{binding_chord, parse_keybind, texts};

verus! {

/// A semantic intent, independent of the keys bound to it.
#[derive(Clone, Copy, Debug, PartialEq, Eq, Hash, Structural)]
pub enum Action {
    Quit,
    Left,
    Right,
    Up,
    Down,
    Enter,
    Exit,
    TimerToggle,
    TimerStartRelease,
}

/// The base key of a chord.
#[derive(Clone, Copy, Debug, PartialEq, Eq, Hash, Structural)]
pub enum KeyCode {
    Backspace,
    Enter,
    Left,
    Right,
    Up,
    Down,
    Home,
    End,
    PageUp,
    PageDown,
    Tab,
    BackTab,
    Delete,
    Insert,
    F(u8),
    Char(char),
    Null,
    Esc,
    Pause,
    Menu,
    /// A key that no binding can name (a lock key, a media key, ...).
    Other,
}

/// The set of modifier keys held during a chord.
#[derive(Clone, Copy, Debug, PartialEq, Eq, Hash, Structural)]
pub struct Modifiers {
    pub shift: bool,
    pub ctrl: bool,
    pub alt: bool,
    pub super_key: bool,
    pub hyper: bool,
    pub meta: bool,
}

/// Whether a chord is the press, the auto-repeat or the release of its key.
#[derive(Clone, Copy, Debug, PartialEq, Eq, Hash, Structural)]
pub enum KeyKind {
    Press,
    Repeat,
    Release,
}

/// A base key, a modifier set and a phase: the unit matched against input.
#[derive(Clone, Copy, Debug, PartialEq, Eq, Hash, Structural)]
pub struct KeyChord {
    pub code: KeyCode,
    pub modifiers: Modifiers,
    pub kind: KeyKind,
}

pub open spec fn is_ascii_upper(c: char) -> bool {
    'A' <= c && c <= 'Z'
}

pub open spec fn is_ascii_lower(c: char) -> bool {
    'a' <= c && c <= 'z'
}

pub open spec fn ascii_upper(c: char) -> char {
    if is_ascii_lower(c) {
        ((c as u32) - 32) as char
    } else {
        c
    }
}

/// The canonical form under which two chords count as the same: an ASCII
/// upper-case letter implies shift, and shift turns an ASCII letter upper-case.
pub open spec fn normal_form(k: KeyChord) -> KeyChord {
    match k.code {
        KeyCode::Char(c) => if is_ascii_upper(c) {
            KeyChord { modifiers: Modifiers { shift: true, ..k.modifiers }, ..k }
        } else if k.modifiers.shift {
            KeyChord { code: KeyCode::Char(ascii_upper(c)), ..k }
        } else {
            k
        },
        _ => k,
    }
}

/// Whether `a` and `b` denote the same chord.
pub open spec fn same_chord(a: KeyChord, b: KeyChord) -> bool {
    normal_form(a) == normal_form(b)
}

impl KeyChord {
    /// A chord of `code` and `modifiers` in the given phase.
    pub fn new(code: KeyCode, modifiers: Modifiers, kind: KeyKind) -> (r: KeyChord)
        ensures
            r == (KeyChord { code, modifiers, kind }),
    {
        KeyChord { code, modifiers, kind }
    }

    /// The canonical form of this chord.
    pub fn normalized(&self) -> (r: KeyChord)
        ensures
            r == normal_form(*self),
    {
        match self.code {
            KeyCode::Char(c) => {
                if c >= 'A' && c <= 'Z' {
                    let mut m = self.modifiers;
                    m.shift = true;
                    KeyChord { code: self.code, modifiers: m, kind: self.kind }
                } else if self.modifiers.shift {
                    let u = if c >= 'a' && c <= 'z' {
                        ((c as u32 - 32) as u8) as char
                    } else {
                        c
                    };
                    KeyChord { code: KeyCode::Char(u), modifiers: self.modifiers, kind: self.kind }
                } else {
                    *self
                }
            },
            _ => *self,
        }
    }

    /// Whether this chord and `other` denote the same chord.
    pub fn matches(&self, other: &KeyChord) -> (r: bool)
        ensures
            r == same_chord(*self, *other),
    {
        let a = self.normalized();
        let b = other.normalized();
        a == b
    }
}


/// Bindings in the order they are applied: each action with its raw
/// binding strings.
pub type RawKeyBindings = Vec<(Action, Vec<String>)>;

/// The chords that the bindings `strs` write, in order; bindings that write
/// none are skipped.
pub open spec fn parsed_chords(strs: Seq<Seq<char>>) -> Seq<KeyChord>
    decreases strs.len(),
{
    if strs.len() == 0 {
        Seq::empty()
    } else {
        let r = parsed_chords(strs.drop_last());
        match binding_chord(strs.last()) {
            Some(c) => r.push(c),
            None => r,
        }
    }
}

pub open spec fn paired_with(cs: Seq<KeyChord>, a: Action) -> Seq<(KeyChord, Action)> {
    cs.map_values(|c: KeyChord| (c, a))
}

/// Every (chord, action) binding that `raw` makes, in the order made.
pub open spec fn binding_pairs(raw: Seq<(Action, Seq<Seq<char>>)>) -> Seq<(KeyChord, Action)>
    decreases raw.len(),
{
    if raw.len() == 0 {
        Seq::empty()
    } else {
        binding_pairs(raw.drop_last()) + paired_with(parsed_chords(raw.last().1), raw.last().0)
    }
}

/// Each action of `raw` with the chords its strings write.
pub open spec fn action_chords(raw: Seq<(Action, Seq<Seq<char>>)>) -> Seq<(Action, Seq<KeyChord>)> {
    raw.map_values(|e: (Action, Seq<Seq<char>>)| (e.0, parsed_chords(e.1)))
}

/// The action bound to `k`: that of the last binding of the same chord.
pub open spec fn resolve(pairs: Seq<(KeyChord, Action)>, k: KeyChord) -> Option<Action>
    decreases pairs.len(),
{
    if pairs.len() == 0 {
        None
    } else if same_chord(pairs.last().0, k) {
        Some(pairs.last().1)
    } else {
        resolve(pairs.drop_last(), k)
    }
}

pub open spec fn raw_view(raw: Seq<(Action, Vec<String>)>) -> Seq<(Action, Seq<Seq<char>>)> {
    raw.map_values(|e: (Action, Vec<String>)| (e.0, texts(e.1@)))
}

/// The binding table: from each action to its chords, and from chords to
/// actions. A later binding of a chord shadows an earlier one.
pub struct ActionMap {
    action_to_keys: Vec<(Action, Vec<KeyChord>)>,
    key_to_action: Vec<(KeyChord, Action)>,
}

/// The chords of the last entry of `entries` for the action `a`.
pub open spec fn keys_in(entries: Seq<(Action, Seq<KeyChord>)>, a: Action) -> Option<Seq<KeyChord>>
    decreases entries.len(),
{
    if entries.len() == 0 {
        None
    } else if entries.last().0 == a {
        Some(entries.last().1)
    } else {
        keys_in(entries.drop_last(), a)
    }
}

/// The chords of each entry of `v`.
pub open spec fn chord_lists(v: Seq<(Action, Vec<KeyChord>)>) -> Seq<(Action, Seq<KeyChord>)> {
    v.map_values(|e: (Action, Vec<KeyChord>)| (e.0, e.1@))
}

impl ActionMap {
    /// Every (chord, action) binding, oldest first.
    pub closed spec fn bindings(self) -> Seq<(KeyChord, Action)> {
        self.key_to_action@
    }

    /// Each action with the chords bound to it, in the order added.
    pub closed spec fn action_keys(self) -> Seq<(Action, Seq<KeyChord>)> {
        chord_lists(self.action_to_keys@)
    }

    /// The action that `key_event` resolves to, if any.
    pub fn get_action(&self, key_event: KeyChord) -> (r: Option<Action>)
        ensures
            r == resolve(self.bindings(), key_event),
    {
        let ghost b = self.key_to_action@;
        let mut i: usize = self.key_to_action.len();
        assert(b.take(i as int) =~= b);
        while i > 0
            invariant
                b == self.key_to_action@,
                i <= b.len(),
                resolve(b, key_event) == resolve(b.take(i as int), key_event),
            decreases i,
        {
            let entry = &self.key_to_action[i - 1];
            assert(b.take(i as int).drop_last() =~= b.take(i - 1));
            if entry.0.matches(&key_event) {
                return Some(entry.1);
            }
            i = i - 1;
        }
        None
    }

    /// The chords bound to `action`, if it has an entry.
    pub fn keys_for(&self, action: Action) -> (r: Option<&Vec<KeyChord>>)
        ensures
            match keys_in(self.action_keys(), action) {
                Some(ks) => r is Some && r->0@ == ks,
                None => r is None,
            },
    {
        let ghost e = self.action_keys();
        let mut i: usize = self.action_to_keys.len();
        assert(e.take(i as int) =~= e);
        while i > 0
            invariant
                e == chord_lists(self.action_to_keys@),
                i <= e.len(),
                keys_in(e, action) == keys_in(e.take(i as int), action),
            decreases i,
        {
            assert(e.take(i as int).drop_last() =~= e.take(i - 1));
            if self.action_to_keys[i - 1].0 == action {
                return Some(&self.action_to_keys[i - 1].1);
            }
            i = i - 1;
        }
        None
    }

    /// Builds the table from raw bindings, applied in order: each string is
    /// parsed, those that write no chord are skipped, and a chord bound
    /// twice resolves to the action bound last.
    pub fn from_raw_bindings(raw_bindings: &RawKeyBindings) -> (r: ActionMap)
        ensures
            r.bindings() == binding_pairs(raw_view(raw_bindings@)),
            r.action_keys() == action_chords(raw_view(raw_bindings@)),
    {
        let ghost rv = raw_view(raw_bindings@);
        let mut action_to_keys: Vec<(Action, Vec<KeyChord>)> = Vec::new();
        let mut key_to_action: Vec<(KeyChord, Action)> = Vec::new();
        let mut i: usize = 0;
        while i < raw_bindings.len()
            invariant
                rv == raw_view(raw_bindings@),
                i <= raw_bindings@.len(),
                key_to_action@ == binding_pairs(rv.take(i as int)),
                chord_lists(action_to_keys@) == action_chords(rv.take(i as int)),
            decreases raw_bindings@.len() - i,
        {
            let action = raw_bindings[i].0;
            let raw_keybinds = &raw_bindings[i].1;
            let ghost strs = texts(raw_keybinds@);
            let ghost before = key_to_action@;
            let mut keybinds: Vec<KeyChord> = Vec::new();
            let mut j: usize = 0;
            while j < raw_keybinds.len()
                invariant
                    strs == texts(raw_keybinds@),
                    j <= raw_keybinds@.len(),
                    keybinds@ == parsed_chords(strs.take(j as int)),
                    key_to_action@ == before + paired_with(keybinds@, action),
                decreases raw_keybinds@.len() - j,
            {
                assert(strs.take(j + 1).drop_last() =~= strs.take(j as int));
                let parsed = parse_keybind(raw_keybinds[j].as_str());
                if let Some(keybind) = parsed {
                    let ghost kb = keybinds@;
                    keybinds.push(keybind);
                    key_to_action.push((keybind, action));
                    assert(paired_with(keybinds@, action) =~= paired_with(kb, action).push(
                        (keybind, action),
                    ));
                    assert(key_to_action@ =~= before + paired_with(keybinds@, action));
                }
                j = j + 1;
            }
            assert(strs.take(j as int) =~= strs);
            assert(rv.take(i + 1).drop_last() =~= rv.take(i as int));
            assert(rv[i as int] == (action, strs));
            let ghost ak = action_to_keys@;
            action_to_keys.push((action, keybinds));
            assert(chord_lists(action_to_keys@) =~= action_chords(rv.take(i + 1))) by {
                assert(chord_lists(action_to_keys@) =~= chord_lists(ak).push((action, keybinds@)));
                assert(action_chords(rv.take(i + 1)) =~= action_chords(rv.take(i as int)).push(
                    (action, parsed_chords(strs)),
                ));
            }
            i = i + 1;
        }
        assert(rv.take(i as int) =~= rv);
        ActionMap { action_to_keys, key_to_action }
    }
}


/// The bindings the table starts from, in declaration order.
pub open spec fn default_bindings() -> Seq<(Action, Seq<Seq<char>>)> {
    seq![
        (Action::Quit, seq!["q"@]),
        (Action::Left, seq!["left"@, "h"@]),
        (Action::Right, seq!["right"@, "l"@]),
        (Action::Up, seq!["up"@, "k"@]),
        (Action::Down, seq!["down"@, "j"@]),
        (Action::TimerToggle, seq!["space"@]),
        (Action::TimerStartRelease, seq!["release:space"@]),
    ]
}

/// The default raw bindings.
pub fn default_raw_bindings() -> (r: RawKeyBindings)
    ensures
        raw_view(r@) == default_bindings(),
{
    let mut raw: RawKeyBindings = Vec::new();
    raw.push((Action::Quit, vec![String::from_str("q")]));
    raw.push((Action::Left, vec![String::from_str("left"), String::from_str("h")]));
    raw.push((Action::Right, vec![String::from_str("right"), String::from_str("l")]));
    raw.push((Action::Up, vec![String::from_str("up"), String::from_str("k")]));
    raw.push((Action::Down, vec![String::from_str("down"), String::from_str("j")]));
    raw.push((Action::TimerToggle, vec![String::from_str("space")]));
    raw.push((Action::TimerStartRelease, vec![String::from_str("release:space")]));
    assert(raw_view(raw@) =~~= default_bindings());
    raw
}

impl Default for ActionMap {
    /// The table built from the default bindings.
    fn default() -> (r: ActionMap)
        ensures
            r.bindings() == binding_pairs(default_bindings()),
            r.action_keys() == action_chords(default_bindings()),
    {
        ActionMap::from_raw_bindings(&default_raw_bindings())
    }
}

} // verus!

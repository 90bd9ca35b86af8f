use vstd::prelude::*;
use vstd::string::*;
use crate::input::{KeyChord, KeyCode, KeyKind, Modifiers};

verus! {

/// What one token of a binding stands for.
#[derive(Clone, Copy, Debug, PartialEq, Eq, Structural)]
pub enum Token {
    Alt,
    Ctrl,
    Meta,
    Shift,
    Key(KeyCode),
    /// The word `none`: the whole binding binds nothing.
    Unbound,
    /// Anything else: the whole binding is discarded.
    Invalid,
}

pub open spec fn is_digit(c: char) -> bool {
    '0' <= c && c <= '9'
}

/// The number written by the decimal digits `s`.
pub open spec fn digits_value(s: Seq<char>) -> nat
    decreases s.len(),
{
    if s.len() == 0 {
        0
    } else {
        digits_value(s.drop_last()) * 10 + ((s.last() as nat) - ('0' as nat)) as nat
    }
}

/// The function-key number written after the `f` of a token: one or more
/// decimal digits whose value fits in a byte.
pub open spec fn key_number(s: Seq<char>) -> Option<u8> {
    if s.len() > 0 && (forall|i: int| 0 <= i < s.len() ==> is_digit(#[trigger] s[i]))
        && digits_value(s) <= 255 {
        Some(digits_value(s) as u8)
    } else {
        None
    }
}

/// The meaning of a token that has already been trimmed and lower-cased.
pub open spec fn token_meaning(t: Seq<char>) -> Token {
    if t == "alt"@ {
        Token::Alt
    } else if t == "ctrl"@ {
        Token::Ctrl
    } else if t == "meta"@ {
        Token::Meta
    } else if t == "shift"@ {
        Token::Shift
    } else if t == "backspace"@ {
        Token::Key(KeyCode::Backspace)
    } else if t == "enter"@ {
        Token::Key(KeyCode::Enter)
    } else if t == "left"@ {
        Token::Key(KeyCode::Left)
    } else if t == "right"@ {
        Token::Key(KeyCode::Right)
    } else if t == "up"@ {
        Token::Key(KeyCode::Up)
    } else if t == "down"@ {
        Token::Key(KeyCode::Down)
    } else if t == "home"@ {
        Token::Key(KeyCode::Home)
    } else if t == "end"@ {
        Token::Key(KeyCode::End)
    } else if t == "pageup"@ || t == "page_up"@ {
        Token::Key(KeyCode::PageUp)
    } else if t == "pagedown"@ || t == "page_down"@ {
        Token::Key(KeyCode::PageDown)
    } else if t == "tab"@ {
        Token::Key(KeyCode::Tab)
    } else if t == "backtab"@ {
        Token::Key(KeyCode::BackTab)
    } else if t == "delete"@ {
        Token::Key(KeyCode::Delete)
    } else if t == "insert"@ {
        Token::Key(KeyCode::Insert)
    } else if t == "null"@ {
        Token::Key(KeyCode::Null)
    } else if t == "esc"@ || t == "escape"@ {
        Token::Key(KeyCode::Esc)
    } else if t == "pause"@ {
        Token::Key(KeyCode::Pause)
    } else if t == "menu"@ {
        Token::Key(KeyCode::Menu)
    } else if t == "space"@ {
        Token::Key(KeyCode::Char(' '))
    } else if t == "none"@ {
        Token::Unbound
    } else if t.len() == 1 {
        Token::Key(KeyCode::Char(t[0]))
    } else if t.len() >= 2 && t[0] == 'f' && key_number(t.skip(1)) is Some {
        Token::Key(KeyCode::F(key_number(t.skip(1))->0))
    } else {
        Token::Invalid
    }
}

/// Whether two strings hold the same characters.
fn str_eq(a: &str, b: &str) -> (r: bool)
    ensures
        r == (a@ == b@),
{
    let n = a.unicode_len();
    if n != b.unicode_len() {
        return false;
    }
    let mut i: usize = 0;
    while i < n
        invariant
            n == a@.len(),
            n == b@.len(),
            i <= n,
            forall|j: int| 0 <= j < i ==> a@[j] == b@[j],
        decreases n - i,
    {
        if a.get_char(i) != b.get_char(i) {
            return false;
        }
        i = i + 1;
    }
    assert(a@ =~= b@);
    true
}

/// The function-key number of the digits `s`, if they write one.
fn parse_key_number(s: &str) -> (r: Option<u8>)
    ensures
        r == key_number(s@),
{
    let n = s.unicode_len();
    if n == 0 {
        return None;
    }
    let mut acc: u32 = 0;
    let mut big = false;
    let mut i: usize = 0;
    while i < n
        invariant
            n == s@.len(),
            i <= n,
            forall|j: int| 0 <= j < i ==> is_digit(#[trigger] s@[j]),
            !big ==> acc as nat == digits_value(s@.take(i as int)) && acc <= 255,
            big ==> digits_value(s@.take(i as int)) > 255,
        decreases n - i,
    {
        let c = s.get_char(i);
        if !(c >= '0' && c <= '9') {
            return None;
        }
        assert(s@.take(i + 1).drop_last() =~= s@.take(i as int));
        if !big {
            let d = (c as u32) - ('0' as u32);
            acc = acc * 10 + d;
            if acc > 255 {
                big = true;
            }
        }
        i = i + 1;
    }
    assert(s@.take(n as int) =~= s@);
    if big {
        None
    } else {
        Some(acc as u8)
    }
}

/// The meaning of the token `t`, which has already been trimmed and
/// lower-cased.
pub fn classify_token(t: &str) -> (r: Token)
    ensures
        r == token_meaning(t@),
{
    if str_eq(t, "alt") {
        Token::Alt
    } else if str_eq(t, "ctrl") {
        Token::Ctrl
    } else if str_eq(t, "meta") {
        Token::Meta
    } else if str_eq(t, "shift") {
        Token::Shift
    } else if str_eq(t, "backspace") {
        Token::Key(KeyCode::Backspace)
    } else if str_eq(t, "enter") {
        Token::Key(KeyCode::Enter)
    } else if str_eq(t, "left") {
        Token::Key(KeyCode::Left)
    } else if str_eq(t, "right") {
        Token::Key(KeyCode::Right)
    } else if str_eq(t, "up") {
        Token::Key(KeyCode::Up)
    } else if str_eq(t, "down") {
        Token::Key(KeyCode::Down)
    } else if str_eq(t, "home") {
        Token::Key(KeyCode::Home)
    } else if str_eq(t, "end") {
        Token::Key(KeyCode::End)
    } else if str_eq(t, "pageup") || str_eq(t, "page_up") {
        Token::Key(KeyCode::PageUp)
    } else if str_eq(t, "pagedown") || str_eq(t, "page_down") {
        Token::Key(KeyCode::PageDown)
    } else if str_eq(t, "tab") {
        Token::Key(KeyCode::Tab)
    } else if str_eq(t, "backtab") {
        Token::Key(KeyCode::BackTab)
    } else if str_eq(t, "delete") {
        Token::Key(KeyCode::Delete)
    } else if str_eq(t, "insert") {
        Token::Key(KeyCode::Insert)
    } else if str_eq(t, "null") {
        Token::Key(KeyCode::Null)
    } else if str_eq(t, "esc") || str_eq(t, "escape") {
        Token::Key(KeyCode::Esc)
    } else if str_eq(t, "pause") {
        Token::Key(KeyCode::Pause)
    } else if str_eq(t, "menu") {
        Token::Key(KeyCode::Menu)
    } else if str_eq(t, "space") {
        Token::Key(KeyCode::Char(' '))
    } else if str_eq(t, "none") {
        Token::Unbound
    } else {
        let n = t.unicode_len();
        if n == 1 {
            Token::Key(KeyCode::Char(t.get_char(0)))
        } else if n >= 2 && t.get_char(0) == 'f' {
            match parse_key_number(t.substring_char(1, n)) {
                Some(k) => Token::Key(KeyCode::F(k)),
                None => Token::Invalid,
            }
        } else {
            Token::Invalid
        }
    }
}


/// The key of the last key token in `m`, if there is one.
pub open spec fn last_key(m: Seq<Token>) -> Option<KeyCode>
    decreases m.len(),
{
    if m.len() == 0 {
        None
    } else {
        match m.last() {
            Token::Key(c) => Some(c),
            _ => last_key(m.drop_last()),
        }
    }
}

pub open spec fn spoils(t: Token) -> bool {
    t is Unbound || t is Invalid
}

/// The modifiers named among the tokens `m`.
pub open spec fn named_modifiers(m: Seq<Token>) -> Modifiers {
    Modifiers {
        shift: m.contains(Token::Shift),
        ctrl: m.contains(Token::Ctrl),
        alt: m.contains(Token::Alt),
        super_key: false,
        hyper: false,
        meta: m.contains(Token::Meta),
    }
}

/// The chord written by a sequence of token meanings: none if a token is
/// `none` or invalid, or if no token names a key; otherwise the last key
/// named, with every modifier named.
pub open spec fn chord_of_meanings(kind: KeyKind, m: Seq<Token>) -> Option<KeyChord> {
    if exists|i: int| 0 <= i < m.len() && spoils(#[trigger] m[i]) {
        None
    } else {
        match last_key(m) {
            Some(code) => Some(KeyChord { code, modifiers: named_modifiers(m), kind }),
            None => None,
        }
    }
}

pub open spec fn meanings(tokens: Seq<Seq<char>>) -> Seq<Token> {
    tokens.map_values(|t: Seq<char>| token_meaning(t))
}

/// The characters of each string of `v`.
pub open spec fn texts(v: Seq<String>) -> Seq<Seq<char>> {
    v.map_values(|t: String| t@)
}

/// The chord written by `tokens` (each trimmed and lower-cased) in the phase
/// `kind`.
pub fn chord_from_tokens(kind: KeyKind, tokens: &Vec<String>) -> (r: Option<KeyChord>)
    ensures
        r == chord_of_meanings(kind, meanings(texts(tokens@))),
{
    let ghost views = texts(tokens@);
    let ghost m = meanings(views);
    let mut code: Option<KeyCode> = None;
    let mut mods = Modifiers {
        shift: false,
        ctrl: false,
        alt: false,
        super_key: false,
        hyper: false,
        meta: false,
    };
    let mut i: usize = 0;
    while i < tokens.len()
        invariant
            m.len() == tokens@.len(),
            i <= tokens@.len(),
            forall|j: int| 0 <= j < m.len() ==> #[trigger] m[j] == token_meaning(tokens@[j]@),
            forall|j: int| 0 <= j < i ==> !spoils(#[trigger] m[j]),
            code == last_key(m.take(i as int)),
            mods == named_modifiers(m.take(i as int)),
        decreases tokens@.len() - i,
    {
        let t = classify_token(tokens[i].as_str());
        assert(m.take(i + 1).drop_last() =~= m.take(i as int));
        assert(m.take(i + 1).last() == t);
        match t {
            Token::Unbound | Token::Invalid => {
                assert(spoils(m[i as int]));
                assert(m == meanings(texts(tokens@)));
                assert(chord_of_meanings(kind, m) is None);
                return None;
            },
            Token::Alt => {
                mods.alt = true;
            },
            Token::Ctrl => {
                mods.ctrl = true;
            },
            Token::Meta => {
                mods.meta = true;
            },
            Token::Shift => {
                mods.shift = true;
            },
            Token::Key(c) => {
                code = Some(c);
            },
        }
        proof {
            let p = m.take(i + 1);
            let q = m.take(i as int);
            assert(p =~= q.push(t));
            assert(forall|x: Token| p.contains(x) <==> (q.contains(x) || x == t)) by {
                assert forall|x: Token| p.contains(x) implies (q.contains(x) || x == t) by {
                    let k = choose|k: int| 0 <= k < p.len() && p[k] == x;
                    if k < q.len() {
                        assert(q[k] == x);
                    }
                }
                assert forall|x: Token| (q.contains(x) || x == t) implies p.contains(x) by {
                    if x == t {
                        assert(p[i as int] == x);
                    } else {
                        let k = choose|k: int| 0 <= k < q.len() && q[k] == x;
                        assert(p[k] == x);
                    }
                }
            }
        }
        i = i + 1;
    }
    assert(m.take(i as int) =~= m);
    match code {
        Some(c) => Some(KeyChord { code: c, modifiers: mods, kind }),
        None => None,
    }
}


/// `s` cut at every occurrence of `sep`: always at least one piece, and one
/// more than there are separators.
pub open spec fn split_on(s: Seq<char>, sep: char) -> Seq<Seq<char>>
    decreases s.len(),
{
    if s.len() == 0 {
        seq![Seq::<char>::empty()]
    } else {
        let r = split_on(s.drop_last(), sep);
        if s.last() == sep {
            r.push(Seq::<char>::empty())
        } else {
            r.update(r.len() - 1, r.last().push(s.last()))
        }
    }
}

/// The index of the first `c` in `s`, if `c` occurs in it.
pub open spec fn first_index(s: Seq<char>, c: char) -> Option<int> {
    if exists|i: int| 0 <= i < s.len() && s[i] == c && (forall|j: int| 0 <= j < i ==> s[j] != c) {
        Some(choose|i: int| 0 <= i < s.len() && s[i] == c && (forall|j: int| 0 <= j < i ==> s[j] != c))
    } else {
        None
    }
}

/// What `str::trim` returns for a string of the characters `s`.
pub uninterp spec fn trim_of(s: Seq<char>) -> Seq<char>;

/// What `str::to_lowercase` returns for a string of the characters `s`.
pub uninterp spec fn lower_of(s: Seq<char>) -> Seq<char>;

/// Relies on `str::trim`: the string without its leading and trailing
/// whitespace, which depends on the characters of `s` alone.
#[verifier::external_body]
fn trim<'a>(s: &'a str) -> (r: &'a str)
    ensures
        r@ == trim_of(s@),
{
    s.trim()
}

/// Relies on `str::to_lowercase`: the lower-case mapping of each character,
/// which depends on the characters of `s` alone.
#[verifier::external_body]
fn lowercase(s: &str) -> (r: String)
    ensures
        r@ == lower_of(s@),
{
    s.to_lowercase()
}

/// The phase named by the prefix before `:` (already lower-cased): `release`
/// names the release; anything else leaves the default, the press.
pub open spec fn phase_of(prefix: Seq<char>) -> KeyKind {
    if prefix == "release"@ {
        KeyKind::Release
    } else {
        KeyKind::Press
    }
}

/// The tokens of the body of a binding: its `+`-separated parts, each trimmed
/// and lower-cased.
pub open spec fn tokens_of(body: Seq<char>) -> Seq<Seq<char>> {
    split_on(body, '+').map_values(|p: Seq<char>| lower_of(trim_of(p)))
}

/// The chord that the binding `s` writes: `[<phase>:]<token>(+<token>)*`.
pub open spec fn binding_chord(s: Seq<char>) -> Option<KeyChord> {
    let t = trim_of(s);
    match first_index(t, ':') {
        Some(i) => chord_of_meanings(
            phase_of(lower_of(t.take(i))),
            meanings(tokens_of(trim_of(t.skip(i + 1)))),
        ),
        None => chord_of_meanings(KeyKind::Press, meanings(tokens_of(t))),
    }
}

/// The `+`-separated parts of `s`.
fn split_plus<'a>(s: &'a str) -> (r: Vec<&'a str>)
    ensures
        r@.map_values(|p: &str| p@) == split_on(s@, '+'),
{
    let n = s.unicode_len();
    let mut parts: Vec<&'a str> = Vec::new();
    let mut start: usize = 0;
    let mut i: usize = 0;
    assert(s@.take(0) =~= Seq::<char>::empty());
    assert(parts@.map_values(|p: &str| p@).push(s@.subrange(0, 0)) =~= seq![Seq::<char>::empty()]);
    while i < n
        invariant
            n == s@.len(),
            start <= i <= n,
            split_on(s@.take(i as int), '+') == parts@.map_values(|p: &str| p@).push(
                s@.subrange(start as int, i as int),
            ),
        decreases n - i,
    {
        let c = s.get_char(i);
        assert(s@.take(i + 1).drop_last() =~= s@.take(i as int));
        assert(s@.take(i + 1).last() == c);
        if c == '+' {
            let ghost before = parts@;
            parts.push(s.substring_char(start, i));
            assert(parts@.map_values(|p: &str| p@) =~= before.map_values(|p: &str| p@).push(
                s@.subrange(start as int, i as int),
            ));
            start = i + 1;
            assert(s@.subrange(start as int, i + 1) =~= Seq::<char>::empty());
        } else {
            assert(s@.subrange(start as int, i + 1) =~= s@.subrange(start as int, i as int).push(c));
        }
        i = i + 1;
    }
    assert(s@.take(n as int) =~= s@);
    let ghost before = parts@;
    parts.push(s.substring_char(start, n));
    assert(parts@.map_values(|p: &str| p@) =~= before.map_values(|p: &str| p@).push(
        s@.subrange(start as int, n as int),
    ));
    parts
}

/// The tokens of the body `body`.
fn tokens(body: &str) -> (r: Vec<String>)
    ensures
        texts(r@) == tokens_of(body@),
{
    let parts = split_plus(body);
    let ghost pv = parts@.map_values(|p: &str| p@);
    let mut out: Vec<String> = Vec::new();
    let mut i: usize = 0;
    while i < parts.len()
        invariant
            pv == parts@.map_values(|p: &str| p@),
            pv == split_on(body@, '+'),
            i <= parts@.len(),
            out@.len() == i,
            forall|j: int| 0 <= j < i ==> (#[trigger] out@[j])@ == lower_of(trim_of(pv[j])),
        decreases parts@.len() - i,
    {
        let t = lowercase(trim(parts[i]));
        out.push(t);
        i = i + 1;
    }
    assert(texts(out@) =~= tokens_of(body@));
    out
}

/// Parses one binding, `[<phase>:]<token>(+<token>)*`, into the chord it
/// names; `None` when it names none or holds a token that is not understood.
pub fn parse_keybind(binding: &str) -> (r: Option<KeyChord>)
    ensures
        r == binding_chord(binding@),
{
    let t = trim(binding);
    let n = t.unicode_len();
    let mut i: usize = 0;
    while i < n && t.get_char(i) != ':'
        invariant
            n == t@.len(),
            i <= n,
            forall|j: int| 0 <= j < i ==> t@[j] != ':',
        decreases n - i,
    {
        i = i + 1;
    }
    if i < n {
        assert(t@[i as int] == ':');
        assert(first_index(t@, ':') == Some(i as int));
        let prefix = lowercase(t.substring_char(0, i));
        let kind = if str_eq(prefix.as_str(), "release") {
            KeyKind::Release
        } else {
            KeyKind::Press
        };
        let body = trim(t.substring_char(i + 1, n));
        assert(t@.skip(i + 1) =~= t@.subrange(i + 1, n as int));
        let toks = tokens(body);
        chord_from_tokens(kind, &toks)
    } else {
        assert(first_index(t@, ':') is None);
        let toks = tokens(t);
        chord_from_tokens(KeyKind::Press, &toks)
    }
}

} // verus!

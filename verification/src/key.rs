//! Keys, named keys, key sequences and modifier sets.
//!
//! A key sequence is a chord of up to two keys, written as a run of
//! literal characters in which `<name>` stands for a named key such as
//! `<space>` or `<f12>`. A modifier set is a `+`-separated list of
//! `ctrl`, `alt`, `super` (also spelled `windows` or `command`) and
//! `shift`.

use vstd::prelude::*;

use crate::text::{chars_eq_str, str_chars};

verus! {

/// A named, non-character key, identified in a key sequence by its
/// lower-case name in angle brackets.
#[derive(Clone, Copy, Debug, PartialEq, Eq, Structural)]
pub enum NamedKey {
    /// The alt modifier key.
    Alt,
    /// The control modifier key.
    Control,
    /// The shift modifier key.
    Shift,
    /// The super (windows, command) modifier key.
    Super,
    /// The meta modifier key.
    Meta,
    /// The enter key.
    Enter,
    /// The tab key.
    Tab,
    /// The space bar.
    Space,
    /// The down arrow key.
    ArrowDown,
    /// The left arrow key.
    ArrowLeft,
    /// The right arrow key.
    ArrowRight,
    /// The up arrow key.
    ArrowUp,
    /// The end key.
    End,
    /// The home key.
    Home,
    /// The page-down key.
    PageDown,
    /// The page-up key.
    PageUp,
    /// The backspace key.
    Backspace,
    /// The delete key.
    Delete,
    /// The insert key.
    Insert,
    /// The escape key.
    Escape,
    /// A function key, `F1` through `F35`.
    Function(u8),
}

/// A key: either a printable character or a named key.
#[derive(Clone, Copy, Debug, PartialEq, Eq, Structural)]
pub enum Key {
    /// A printable character key.
    Character(char),
    /// A named key.
    Named(NamedKey),
}

/// A chord of one or two keys. When two bindings `(k, None)` and
/// `(k, Some(x))` both exist, lookups try the two-key form first.
#[derive(Clone, Copy, Debug, PartialEq, Eq, Structural)]
pub struct KeySequence {
    /// The first key of the chord.
    pub first: Key,
    /// The second key, for two-key chords.
    pub second: Option<Key>,
}

/// A set of modifier keys.
#[derive(Clone, Copy, Debug, Default, PartialEq, Eq, Structural)]
pub struct KeyMods {
    /// Control is held.
    pub ctrl: bool,
    /// Alt is held.
    pub alt: bool,
    /// Super (windows, command) is held.
    pub logo: bool,
    /// Shift is held.
    pub shift: bool,
}

/// The display form of a modifier set: the names of the held
/// modifiers, concatenated in the order control, alt, super, shift.
pub open spec fn spec_mods_string(m: KeyMods) -> Seq<char> {
    (if m.ctrl {
        "ctrl"@
    } else {
        Seq::<char>::empty()
    }) + (if m.alt {
        "alt"@
    } else {
        Seq::<char>::empty()
    }) + (if m.logo {
        "super"@
    } else {
        Seq::<char>::empty()
    }) + (if m.shift {
        "shift"@
    } else {
        Seq::<char>::empty()
    })
}

impl KeyMods {
    /// The empty modifier set.
    pub fn empty() -> (r: KeyMods)
        ensures
            r == (KeyMods { ctrl: false, alt: false, logo: false, shift: false }),
    {
        KeyMods { ctrl: false, alt: false, logo: false, shift: false }
    }

    /// The names of the held modifiers, concatenated in the order
    /// control, alt, super, shift.
    pub fn display_string(&self) -> (r: String)
        ensures
            r@ == spec_mods_string(*self),
    {
        let mut s = String::new();
        if self.ctrl {
            s.append("ctrl");
        }
        if self.alt {
            s.append("alt");
        }
        if self.logo {
            s.append("super");
        }
        if self.shift {
            s.append("shift");
        }
        assert(s@ =~= spec_mods_string(*self));
        s
    }
}

/// The named key for a lower-case name, if the name is known. The
/// function keys are `f1` through `f35`.
pub open spec fn spec_named_of(s: Seq<char>) -> Option<NamedKey> {
    if s == "alt"@ {
        Some(NamedKey::Alt)
    } else if s == "ctrl"@ {
        Some(NamedKey::Control)
    } else if s == "shift"@ {
        Some(NamedKey::Shift)
    } else if s == "super"@ {
        Some(NamedKey::Super)
    } else if s == "meta"@ {
        Some(NamedKey::Meta)
    } else if s == "enter"@ {
        Some(NamedKey::Enter)
    } else if s == "tab"@ {
        Some(NamedKey::Tab)
    } else if s == "space"@ {
        Some(NamedKey::Space)
    } else if s == "down"@ {
        Some(NamedKey::ArrowDown)
    } else if s == "left"@ {
        Some(NamedKey::ArrowLeft)
    } else if s == "right"@ {
        Some(NamedKey::ArrowRight)
    } else if s == "up"@ {
        Some(NamedKey::ArrowUp)
    } else if s == "end"@ {
        Some(NamedKey::End)
    } else if s == "home"@ {
        Some(NamedKey::Home)
    } else if s == "pagedown"@ {
        Some(NamedKey::PageDown)
    } else if s == "pageup"@ {
        Some(NamedKey::PageUp)
    } else if s == "backspace"@ {
        Some(NamedKey::Backspace)
    } else if s == "delete"@ {
        Some(NamedKey::Delete)
    } else if s == "insert"@ {
        Some(NamedKey::Insert)
    } else if s == "esc"@ {
        Some(NamedKey::Escape)
    } else if s.len() >= 2 && s[0] == 'f' && crate::text::all_digits(s.subrange(1, s.len() as int))
        && s.len() <= 3 && 1 <= crate::text::digits_val(s.subrange(1, s.len() as int)) <= 35 && s[1]
        != '0' {
        Some(NamedKey::Function(crate::text::digits_val(s.subrange(1, s.len() as int)) as u8))
    } else {
        None
    }
}

/// The named key for a lower-case name, as [`spec_named_of`] states.
fn named_of(buf: &Vec<char>) -> (r: Option<NamedKey>)
    ensures
        r == spec_named_of(buf@),
{
    if chars_eq_str(buf, "alt") {
        Some(NamedKey::Alt)
    } else if chars_eq_str(buf, "ctrl") {
        Some(NamedKey::Control)
    } else if chars_eq_str(buf, "shift") {
        Some(NamedKey::Shift)
    } else if chars_eq_str(buf, "super") {
        Some(NamedKey::Super)
    } else if chars_eq_str(buf, "meta") {
        Some(NamedKey::Meta)
    } else if chars_eq_str(buf, "enter") {
        Some(NamedKey::Enter)
    } else if chars_eq_str(buf, "tab") {
        Some(NamedKey::Tab)
    } else if chars_eq_str(buf, "space") {
        Some(NamedKey::Space)
    } else if chars_eq_str(buf, "down") {
        Some(NamedKey::ArrowDown)
    } else if chars_eq_str(buf, "left") {
        Some(NamedKey::ArrowLeft)
    } else if chars_eq_str(buf, "right") {
        Some(NamedKey::ArrowRight)
    } else if chars_eq_str(buf, "up") {
        Some(NamedKey::ArrowUp)
    } else if chars_eq_str(buf, "end") {
        Some(NamedKey::End)
    } else if chars_eq_str(buf, "home") {
        Some(NamedKey::Home)
    } else if chars_eq_str(buf, "pagedown") {
        Some(NamedKey::PageDown)
    } else if chars_eq_str(buf, "pageup") {
        Some(NamedKey::PageUp)
    } else if chars_eq_str(buf, "backspace") {
        Some(NamedKey::Backspace)
    } else if chars_eq_str(buf, "delete") {
        Some(NamedKey::Delete)
    } else if chars_eq_str(buf, "insert") {
        Some(NamedKey::Insert)
    } else if chars_eq_str(buf, "esc") {
        Some(NamedKey::Escape)
    } else if buf.len() >= 2 && buf.len() <= 3 && buf[0] == 'f' && buf[1] != '0' {
        match crate::text::parse_u32_range(buf, 1, buf.len()) {
            Some(n) if 1 <= n && n <= 35 => {
                proof {
                    if crate::text::all_digits(buf@.subrange(1, buf@.len() as int)) {
                        crate::text::lemma_digits_val_prefix(
                            buf@.subrange(1, buf@.len() as int),
                            0,
                        );
                    }
                }
                Some(NamedKey::Function(n as u8))
            },
            _ => None,
        }
    } else {
        None
    }
}

/// State of the key-sequence scanner: the keys collected so far,
/// whether a `<` has opened a possible named key, and the name
/// characters collected since then.
pub ghost struct KeyScan {
    /// Keys collected so far.
    pub keys: Seq<Key>,
    /// A `<` has been seen and may open a named key.
    pub in_named: bool,
    /// Characters collected inside the possible named key.
    pub buf: Seq<char>,
}

/// One scanner step on character `ch`; `at_end` says this is the last
/// character. A second `<` in a row makes the first one a literal key,
/// as does a `<` that ends the input; `<>` gives the two literal
/// characters; a `>` closes a non-empty name, which must be known.
/// Fails with the unknown name.
pub open spec fn key_scan_step(st: KeyScan, ch: char, at_end: bool) -> Result<KeyScan, Seq<char>> {
    if ch == '<' {
        let keys1 = if st.in_named {
            st.keys.push(Key::Character('<'))
        } else {
            st.keys
        };
        let keys2 = if at_end {
            keys1.push(Key::Character('<'))
        } else {
            keys1
        };
        Ok(KeyScan { keys: keys2, in_named: true, buf: st.buf })
    } else if st.in_named {
        if ch == '>' {
            if st.buf.len() == 0 {
                Ok(
                    KeyScan {
                        keys: st.keys.push(Key::Character('<')).push(Key::Character('>')),
                        in_named: false,
                        buf: st.buf,
                    },
                )
            } else {
                match spec_named_of(st.buf) {
                    Some(k) => Ok(
                        KeyScan {
                            keys: st.keys.push(Key::Named(k)),
                            in_named: false,
                            buf: Seq::empty(),
                        },
                    ),
                    None => Err(st.buf),
                }
            }
        } else {
            Ok(KeyScan { keys: st.keys, in_named: st.in_named, buf: st.buf.push(ch) })
        }
    } else {
        Ok(KeyScan { keys: st.keys.push(Key::Character(ch)), in_named: false, buf: st.buf })
    }
}

/// The scanner state after the first `i` characters of `s`.
pub open spec fn key_scan(s: Seq<char>, i: int) -> Result<KeyScan, Seq<char>>
    decreases i,
{
    if i <= 0 {
        Ok(KeyScan { keys: Seq::empty(), in_named: false, buf: Seq::empty() })
    } else {
        match key_scan(s, i - 1) {
            Err(e) => Err(e),
            Ok(st) => key_scan_step(st, s[i - 1], i == s.len()),
        }
    }
}

/// What parsing a key-sequence text comes to.
pub ghost enum KeyParseOutcome {
    /// One or two keys.
    Parsed(KeySequence),
    /// A named key with this unknown name.
    BadName(Seq<char>),
    /// No keys at all.
    NoKey,
    /// More than two keys.
    TooMany,
}

/// Once the scan has failed, it stays failed with the same name.
pub proof fn lemma_key_scan_err(s: Seq<char>, i: int, j: int)
    requires
        0 <= i <= j,
        key_scan(s, i) is Err,
    ensures
        key_scan(s, j) == key_scan(s, i),
    decreases j - i,
{
    if j > i {
        lemma_key_scan_err(s, i, j - 1);
    }
}

/// The outcome of parsing `s` as a key sequence: scan the characters,
/// then demand at least one and at most two keys.
pub open spec fn spec_parse_key_sequence(s: Seq<char>) -> KeyParseOutcome {
    match key_scan(s, s.len() as int) {
        Err(name) => KeyParseOutcome::BadName(name),
        Ok(st) => {
            if st.keys.len() == 0 {
                KeyParseOutcome::NoKey
            } else if st.keys.len() == 1 {
                KeyParseOutcome::Parsed(KeySequence { first: st.keys[0], second: None })
            } else if st.keys.len() == 2 {
                KeyParseOutcome::Parsed(
                    KeySequence { first: st.keys[0], second: Some(st.keys[1]) },
                )
            } else {
                KeyParseOutcome::TooMany
            }
        },
    }
}

impl KeySequence {
    /// Parse a key-sequence text: a run of literal character keys, in
    /// which `<name>` is a named key, `<<` is two literal `<` keys, `<>`
    /// is `<` then `>`, and a trailing `<` is a literal `<`. At least
    /// one and at most two keys are allowed. The error is a message
    /// naming what went wrong.
    pub fn parse(s: &str) -> (r: Result<KeySequence, String>)
        ensures
            match spec_parse_key_sequence(s@) {
                KeyParseOutcome::Parsed(ks) => r matches Ok(k) && k == ks,
                KeyParseOutcome::BadName(n) => r matches Err(m) && m@ == "Invalid key: <"@ + n
                    + ">. Matching variant not found"@,
                KeyParseOutcome::NoKey => r matches Err(m) && m@ == "Expected at least 1 key."@,
                KeyParseOutcome::TooMany => r matches Err(m) && m@
                    == "At the moment, only up to 2 keys in a sequence are supported."@,
            },
    {
        let v = str_chars(s);
        let mut keys: Vec<Key> = Vec::new();
        let mut in_named = false;
        let mut buf: Vec<char> = Vec::new();
        let mut i: usize = 0;
        while i < v.len()
            invariant
                0 <= i <= v@.len(),
                v@ == s@,
                key_scan(s@, i as int) == Ok::<_, Seq<char>>(
                    KeyScan { keys: keys@, in_named, buf: buf@ },
                ),
            decreases v@.len() - i,
        {
            let ch = v[i];
            let at_end = i + 1 == v.len();
            if ch == '<' {
                if in_named {
                    keys.push(Key::Character('<'));
                } else {
                    in_named = true;
                }
                if at_end {
                    keys.push(Key::Character('<'));
                }
            } else if in_named {
                if ch == '>' {
                    if buf.len() == 0 {
                        keys.push(Key::Character('<'));
                        keys.push(Key::Character('>'));
                    } else {
                        match named_of(&buf) {
                            Some(k) => {
                                keys.push(Key::Named(k));
                            },
                            None => {
                                proof {
                                    assert(key_scan(s@, i + 1 as int) == Err::<KeyScan, _>(buf@));
                                    lemma_key_scan_err(s@, i + 1 as int, s@.len() as int);
                                }
                                let mut msg = String::new();
                                msg.append("Invalid key: <");
                                msg.append(crate::text::chars_to_string(&buf).as_str());
                                msg.append(">. Matching variant not found");
                                assert(msg@ =~= "Invalid key: <"@ + buf@
                                    + ">. Matching variant not found"@);
                                return Err(msg);
                            },
                        }
                        buf = Vec::new();
                    }
                    in_named = false;
                } else {
                    buf.push(ch);
                }
            } else {
                keys.push(Key::Character(ch));
            }
            i = i + 1;
        }
        if keys.len() == 0 {
            let mut msg = String::new();
            msg.append("Expected at least 1 key.");
            return Err(msg);
        }
        if keys.len() > 2 {
            let mut msg = String::new();
            msg.append("At the moment, only up to 2 keys in a sequence are supported.");
            return Err(msg);
        }
        let first = keys[0];
        let second = if keys.len() == 2 {
            Some(keys[1])
        } else {
            None
        };
        Ok(KeySequence { first, second })
    }
}

/// The character is ASCII whitespace.
pub open spec fn is_ws(c: char) -> bool {
    c == ' ' || c == '\t' || c == '\n' || c == '\r'
}

/// Index of the first non-whitespace character at or after `from`, or
/// the length of `s`.
pub open spec fn skip_ws(s: Seq<char>, from: int) -> int
    decreases s.len() - from,
{
    if from < 0 {
        0
    } else if from >= s.len() {
        s.len() as int
    } else if is_ws(s[from]) {
        skip_ws(s, from + 1)
    } else {
        from
    }
}

/// End of the non-whitespace content at or before `upto`: the smallest
/// cut below which everything from `upto` down is whitespace.
pub open spec fn rtrim_end(s: Seq<char>, upto: int) -> int
    decreases upto,
{
    if upto <= 0 {
        0
    } else if upto > s.len() {
        s.len() as int
    } else if is_ws(s[upto - 1]) {
        rtrim_end(s, upto - 1)
    } else {
        upto
    }
}

/// `s` with leading and trailing ASCII whitespace removed.
pub open spec fn spec_trim(s: Seq<char>) -> Seq<char> {
    let a = skip_ws(s, 0);
    let b = rtrim_end(s, s.len() as int);
    if a >= b {
        Seq::empty()
    } else {
        s.subrange(a, b)
    }
}

/// What parsing a modifier text comes to.
pub ghost enum ModsOutcome {
    /// A well-formed modifier set.
    ParsedMods(KeyMods),
    /// A token (after trimming) that names no modifier.
    InvalidMod(Seq<char>),
    /// A token that names a modifier already seen; kept untrimmed.
    DuplicateMod(Seq<char>),
}

/// The modifier named by a trimmed token, as a set with that one
/// member; `super`, `windows` and `command` name the same modifier.
pub open spec fn spec_mod_of(tok: Seq<char>) -> Option<KeyMods> {
    if tok == "ctrl"@ {
        Some(KeyMods { ctrl: true, alt: false, logo: false, shift: false })
    } else if tok == "alt"@ {
        Some(KeyMods { ctrl: false, alt: true, logo: false, shift: false })
    } else if tok == "super"@ || tok == "windows"@ || tok == "command"@ {
        Some(KeyMods { ctrl: false, alt: false, logo: true, shift: false })
    } else if tok == "shift"@ {
        Some(KeyMods { ctrl: false, alt: false, logo: false, shift: true })
    } else {
        None
    }
}

/// The union of two modifier sets.
pub open spec fn mods_union(a: KeyMods, b: KeyMods) -> KeyMods {
    KeyMods {
        ctrl: a.ctrl || b.ctrl,
        alt: a.alt || b.alt,
        logo: a.logo || b.logo,
        shift: a.shift || b.shift,
    }
}

/// The two modifier sets share a member.
pub open spec fn mods_overlap(a: KeyMods, b: KeyMods) -> bool {
    (a.ctrl && b.ctrl) || (a.alt && b.alt) || (a.logo && b.logo) || (a.shift && b.shift)
}

/// Scan the `+`-separated modifier tokens of `s` from `pos` on, with
/// the modifiers `acc` already seen.
pub open spec fn spec_mods_scan(s: Seq<char>, pos: int, acc: KeyMods) -> ModsOutcome
    decreases s.len() - pos,
{
    let raw_stop = crate::text::find_at(s, pos, '+');
    let stop = if pos <= raw_stop <= s.len() {
        raw_stop
    } else {
        s.len() as int
    };
    let tok_raw = s.subrange(pos, stop);
    let tok = spec_trim(tok_raw);
    match spec_mod_of(tok) {
        None => ModsOutcome::InvalidMod(tok),
        Some(m) => {
            if mods_overlap(acc, m) {
                ModsOutcome::DuplicateMod(tok_raw)
            } else if stop >= s.len() {
                ModsOutcome::ParsedMods(mods_union(acc, m))
            } else {
                spec_mods_scan(s, stop + 1, mods_union(acc, m))
            }
        },
    }
}

/// The outcome of parsing `s` as a modifier set: the empty text is the
/// empty set; otherwise every `+`-separated token must name a distinct
/// modifier.
pub open spec fn spec_parse_mods(s: Seq<char>) -> ModsOutcome {
    if s.len() == 0 {
        ModsOutcome::ParsedMods(KeyMods { ctrl: false, alt: false, logo: false, shift: false })
    } else {
        spec_mods_scan(s, 0, KeyMods { ctrl: false, alt: false, logo: false, shift: false })
    }
}

/// The whitespace cut from the right never goes past its start.
proof fn lemma_rtrim_le(s: Seq<char>, upto: int)
    requires
        0 <= upto <= s.len(),
    ensures
        0 <= rtrim_end(s, upto) <= upto,
    decreases upto,
{
    if upto > 0 && is_ws(s[upto - 1]) {
        lemma_rtrim_le(s, upto - 1);
    }
}

/// `v[from..to]` with leading and trailing ASCII whitespace removed.
fn trim_range(v: &Vec<char>, from: usize, to: usize) -> (r: Vec<char>)
    requires
        from <= to <= v@.len(),
    ensures
        r@ == spec_trim(v@.subrange(from as int, to as int)),
{
    let ghost tok = v@.subrange(from as int, to as int);
    let mut a: usize = from;
    while a < to && (v[a] == ' ' || v[a] == '\t' || v[a] == '\n' || v[a] == '\r')
        invariant
            from <= a <= to <= v@.len(),
            tok == v@.subrange(from as int, to as int),
            skip_ws(tok, 0) == skip_ws(tok, a - from),
        decreases to - a,
    {
        proof {
            assert(tok[a - from] == v@[a as int]);
            assert(skip_ws(tok, a - from) == skip_ws(tok, a - from + 1));
        }
        a = a + 1;
    }
    proof {
        if a < to {
            assert(tok[a - from] == v@[a as int]);
        }
        assert(skip_ws(tok, a - from) == a - from);
    }
    let mut b: usize = to;
    while b > a && (v[b - 1] == ' ' || v[b - 1] == '\t' || v[b - 1] == '\n' || v[b - 1] == '\r')
        invariant
            from <= a <= b <= to <= v@.len(),
            tok == v@.subrange(from as int, to as int),
            skip_ws(tok, 0) == a - from,
            rtrim_end(tok, to - from) == rtrim_end(tok, b - from),
        decreases b,
    {
        proof {
            assert(tok[b - from - 1] == v@[b as int - 1]);
            assert(rtrim_end(tok, b - from) == rtrim_end(tok, b - from - 1));
        }
        b = b - 1;
    }
    let out = crate::text::copy_range(v, a, b);
    proof {
        if b > a {
            assert(tok[b - from - 1] == v@[b as int - 1]);
            assert(rtrim_end(tok, b - from) == b - from);
            assert(out@ =~= spec_trim(tok));
        } else {
            lemma_rtrim_le(tok, b - from);
            assert(rtrim_end(tok, tok.len() as int) <= skip_ws(tok, 0));
            assert(out@ =~= Seq::<char>::empty());
            assert(spec_trim(tok) == Seq::<char>::empty());
        }
    }
    out
}

impl KeyMods {
    /// Parse a `+`-separated modifier list: `ctrl`, `alt`, `super`
    /// (also `windows` or `command`) and `shift`, each at most once,
    /// whitespace around tokens ignored; the empty text is the empty
    /// set. The error is a message naming the offending token.
    pub fn parse(s: &str) -> (r: Result<KeyMods, String>)
        ensures
            match spec_parse_mods(s@) {
                ModsOutcome::ParsedMods(m) => r matches Ok(k) && k == m,
                ModsOutcome::InvalidMod(t) => r matches Err(msg) && msg@ == "Invalid modifier: "@
                    + t,
                ModsOutcome::DuplicateMod(t) => r matches Err(msg) && msg@
                    == "Duplicate modifier: "@ + t,
            },
    {
        let v = str_chars(s);
        let mut acc = KeyMods::empty();
        if v.len() == 0 {
            return Ok(acc);
        }
        let mut pos: usize = 0;
        loop
            invariant
                0 <= pos <= v@.len(),
                v@ == s@,
                s@.len() > 0,
                spec_parse_mods(s@) == spec_mods_scan(s@, pos as int, acc),
            decreases v@.len() - pos,
        {
            let stop = crate::text::find_char_at(&v, pos, '+');
            proof {
                crate::text::lemma_find_at(v@, pos as int, '+');
            }
            let tok = trim_range(&v, pos, stop);
            let m = if chars_eq_str(&tok, "ctrl") {
                Some(KeyMods { ctrl: true, alt: false, logo: false, shift: false })
            } else if chars_eq_str(&tok, "alt") {
                Some(KeyMods { ctrl: false, alt: true, logo: false, shift: false })
            } else if chars_eq_str(&tok, "super") || chars_eq_str(&tok, "windows") || chars_eq_str(
                &tok,
                "command",
            ) {
                Some(KeyMods { ctrl: false, alt: false, logo: true, shift: false })
            } else if chars_eq_str(&tok, "shift") {
                Some(KeyMods { ctrl: false, alt: false, logo: false, shift: true })
            } else {
                None
            };
            let m = match m {
                None => {
                    let mut msg = String::new();
                    msg.append("Invalid modifier: ");
                    msg.append(crate::text::chars_to_string(&tok).as_str());
                    assert(msg@ =~= "Invalid modifier: "@ + tok@);
                    return Err(msg);
                },
                Some(m) => m,
            };
            if (acc.ctrl && m.ctrl) || (acc.alt && m.alt) || (acc.logo && m.logo) || (acc.shift
                && m.shift) {
                let raw = crate::text::copy_range(&v, pos, stop);
                let mut msg = String::new();
                msg.append("Duplicate modifier: ");
                msg.append(crate::text::chars_to_string(&raw).as_str());
                assert(msg@ =~= "Duplicate modifier: "@ + v@.subrange(pos as int, stop as int));
                return Err(msg);
            }
            acc =
            KeyMods {
                ctrl: acc.ctrl || m.ctrl,
                alt: acc.alt || m.alt,
                logo: acc.logo || m.logo,
                shift: acc.shift || m.shift,
            };
            if stop == v.len() {
                return Ok(acc);
            }
            pos = stop + 1;
        }
    }
}

} // verus!

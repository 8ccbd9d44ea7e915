//! The keymap: from chords with modifiers to commands, later entries
//! overriding earlier ones, with the two-stage chord lookup.

use vstd::prelude::*;

use crate::commands::Command;
use crate::key::{Key, KeyMods, KeySequence, NamedKey};

verus! {

/// One keybinding: a command under a chord and a modifier set.
#[derive(Clone, Copy, Debug, PartialEq, Eq, Structural)]
pub struct KeymappableCommand {
    /// What to do.
    pub command: Command,
    /// The chord that triggers it.
    pub keys: KeySequence,
    /// The modifiers that must be held.
    pub mods: KeyMods,
}

/// The raw keybindings, in the order they were declared; a later
/// binding of the same chord and modifiers overrides an earlier one.
#[derive(Clone, Debug, PartialEq, Eq)]
pub struct Keys {
    /// The bindings as declared.
    pub keys: Vec<KeymappableCommand>,
}

/// The keybinding lookup table.
#[derive(Clone, Debug, PartialEq, Eq)]
pub struct KeyMap {
    /// The bindings, in declaration order; lookups search from the end.
    pub entries: Vec<KeymappableCommand>,
}

/// The command bound to the chord and modifiers: the latest matching
/// entry wins.
pub open spec fn spec_get(
    entries: Seq<KeymappableCommand>,
    seq: KeySequence,
    mods: KeyMods,
) -> Option<Command>
    decreases entries.len(),
{
    if entries.len() == 0 {
        None
    } else if entries.last().keys == seq && entries.last().mods == mods {
        Some(entries.last().command)
    } else {
        spec_get(entries.drop_last(), seq, mods)
    }
}

/// The key is one of the four arrow keys.
pub open spec fn spec_is_arrow(key: Key) -> bool {
    ||| key == Key::Named(NamedKey::ArrowLeft)
    ||| key == Key::Named(NamedKey::ArrowRight)
    ||| key == Key::Named(NamedKey::ArrowUp)
    ||| key == Key::Named(NamedKey::ArrowDown)
}

/// The modifiers compared during a lookup: shift is ignored, except for
/// the arrow keys, where it is significant.
pub open spec fn spec_lookup_mods(key: Key, mods: KeyMods) -> KeyMods {
    if spec_is_arrow(key) {
        mods
    } else {
        KeyMods { shift: false, ..mods }
    }
}

/// The command a key press resolves to: with shift masked as
/// [`spec_lookup_mods`] states, first the pair of the previously
/// pressed key and the current one as a two-key chord, then the current
/// key alone.
pub open spec fn spec_resolve(
    entries: Seq<KeymappableCommand>,
    last_key_pressed: Option<Key>,
    key: Key,
    modified_key: Key,
    mods: KeyMods,
) -> Option<Command> {
    let m = spec_lookup_mods(key, mods);
    let two = match last_key_pressed {
        Some(lk) => spec_get(
            entries,
            KeySequence { first: lk, second: Some(modified_key) },
            m,
        ),
        None => None,
    };
    match two {
        Some(c) => Some(c),
        None => spec_get(entries, KeySequence { first: modified_key, second: None }, m),
    }
}

impl KeyMap {
    /// The empty keymap.
    pub fn new() -> (r: KeyMap)
        ensures
            r.entries@ =~= Seq::<KeymappableCommand>::empty(),
    {
        KeyMap { entries: Vec::new() }
    }

    /// Build the lookup table from declared bindings, keeping their
    /// order so that later bindings override earlier ones.
    pub fn from_list(keys: Keys) -> (r: KeyMap)
        ensures
            r.entries@ == keys.keys@,
    {
        KeyMap { entries: keys.keys }
    }

    /// Add one binding after all existing ones.
    pub fn insert(&mut self, binding: KeymappableCommand)
        ensures
            final(self).entries@ == old(self).entries@.push(binding),
    {
        self.entries.push(binding);
    }

    /// The command bound to the chord `(first, second)` under `mods`,
    /// as [`spec_get`] states: the latest matching binding wins.
    pub fn get(&self, first: Key, second: Option<Key>, mods: KeyMods) -> (r: Option<Command>)
        ensures
            r == spec_get(self.entries@, KeySequence { first, second }, mods),
    {
        let seq = KeySequence { first, second };
        let mut i: usize = self.entries.len();
        assert(self.entries@.subrange(0, self.entries@.len() as int) =~= self.entries@);
        while i > 0
            invariant
                i <= self.entries@.len(),
                seq == (KeySequence { first, second }),
                spec_get(self.entries@, seq, mods) == spec_get(
                    self.entries@.subrange(0, i as int),
                    seq,
                    mods,
                ),
            decreases i,
        {
            i = i - 1;
            let entry = &self.entries[i];
            proof {
                assert(self.entries@.subrange(0, i + 1 as int).last() == self.entries@[i as int]);
                assert(self.entries@.subrange(0, i + 1 as int).drop_last() =~= self
                    .entries@.subrange(0, i as int));
            }
            if entry.keys == seq && entry.mods == mods {
                return Some(entry.command);
            }
        }
        assert(self.entries@.subrange(0, 0) =~= Seq::<KeymappableCommand>::empty());
        None
    }

    /// Resolve a key press, as [`spec_resolve`] states: shift is
    /// excluded from the comparison except for arrow keys; the pair
    /// `(previous, current)` is tried as a two-key chord before the
    /// current key alone.
    pub fn resolve(
        &self,
        last_key_pressed: Option<Key>,
        key: Key,
        modified_key: Key,
        mods: KeyMods,
    ) -> (r: Option<Command>)
        ensures
            r == spec_resolve(self.entries@, last_key_pressed, key, modified_key, mods),
    {
        let is_arrow = match key {
            Key::Named(NamedKey::ArrowLeft) => true,
            Key::Named(NamedKey::ArrowRight) => true,
            Key::Named(NamedKey::ArrowUp) => true,
            Key::Named(NamedKey::ArrowDown) => true,
            _ => false,
        };
        let m = if is_arrow {
            mods
        } else {
            KeyMods { shift: false, ..mods }
        };
        let two = match last_key_pressed {
            Some(lk) => self.get(lk, Some(modified_key), m),
            None => None,
        };
        match two {
            Some(c) => Some(c),
            None => self.get(modified_key, None, m),
        }
    }
}

} // verus!

//! Key sequences, named keys and modifier sets.

use peashot::key::Key;
use peashot::key::KeyMods;
use peashot::key::KeySequence;
use peashot::key::NamedKey;

fn ch(c: char) -> Key {
    Key::Character(c)
}

fn seq(first: Key, second: Option<Key>) -> KeySequence {
    KeySequence { first, second }
}

fn parse(input: &str, expected: Result<KeySequence, String>) {
    assert_eq!(
        KeySequence::parse(input),
        expected,
        "failed to parse {:?}",
        input
    );
}

#[test]
fn key_seq_parse_key_sequence() {
    parse("gh", Ok(seq(ch('g'), Some(ch('h')))));
    parse("ge", Ok(seq(ch('g'), Some(ch('e')))));
    parse("x", Ok(seq(ch('x'), None)));
    parse("Lx", Ok(seq(ch('L'), Some(ch('x')))));
    parse("", Err("Expected at least 1 key.".to_string()));
    parse("<space>x", Ok(seq(Key::Named(NamedKey::Space), Some(ch('x')))));
    parse("x<space>", Ok(seq(ch('x'), Some(Key::Named(NamedKey::Space)))));
    parse("<space><space>", Ok(seq(Key::Named(NamedKey::Space), Some(Key::Named(NamedKey::Space)))));
    parse("<<", Ok(seq(ch('<'), Some(ch('<')))));
    parse("<>", Ok(seq(ch('<'), Some(ch('>')))));
    parse("<", Ok(seq(ch('<'), None)));
    parse(">>", Ok(seq(ch('>'), Some(ch('>')))));
    parse("<<space>", Ok(seq(ch('<'), Some(Key::Named(NamedKey::Space)))));
    parse(
        "<f32><f31>",
        Ok(seq(Key::Named(NamedKey::Function(32)), Some(Key::Named(NamedKey::Function(31))))),
    );
    parse("><f32>", Ok(seq(ch('>'), Some(Key::Named(NamedKey::Function(32))))));
    parse(
        "abc",
        Err("At the moment, only up to 2 keys in a sequence are supported.".to_string()),
    );
    parse(
        "<f32>b<f16>",
        Err("At the moment, only up to 2 keys in a sequence are supported.".to_string()),
    );
    parse(
        "<@>",
        Err("Invalid key: <@>. Matching variant not found".to_string()),
    );
}

#[test]
fn key_map_parse_key_sequence() {
    parse("gh", Ok(seq(ch('g'), Some(ch('h')))));
    parse("ge", Ok(seq(ch('g'), Some(ch('e')))));
    parse("x", Ok(seq(ch('x'), None)));
    parse("Lx", Ok(seq(ch('L'), Some(ch('x')))));
    parse("", Err("Expected at least 1 key.".to_string()));
    parse("<space>x", Ok(seq(Key::Named(NamedKey::Space), Some(ch('x')))));
    parse("x<space>", Ok(seq(ch('x'), Some(Key::Named(NamedKey::Space)))));
    parse("<space><space>", Ok(seq(Key::Named(NamedKey::Space), Some(Key::Named(NamedKey::Space)))));
    parse("<<", Ok(seq(ch('<'), Some(ch('<')))));
    parse("<>", Ok(seq(ch('<'), Some(ch('>')))));
    parse("<", Ok(seq(ch('<'), None)));
    parse(">>", Ok(seq(ch('>'), Some(ch('>')))));
    parse("<<space>", Ok(seq(ch('<'), Some(Key::Named(NamedKey::Space)))));
    parse(
        "<f32><f31>",
        Ok(seq(Key::Named(NamedKey::Function(32)), Some(Key::Named(NamedKey::Function(31))))),
    );
    parse("><f32>", Ok(seq(ch('>'), Some(Key::Named(NamedKey::Function(32))))));
    parse(
        "abc",
        Err("At the moment, only up to 2 keys in a sequence are supported.".to_string()),
    );
    parse(
        "<f32>b<f16>",
        Err("At the moment, only up to 2 keys in a sequence are supported.".to_string()),
    );
    parse(
        "<@>",
        Err("Invalid key: <@>. Matching variant not found".to_string()),
    );
}

#[test]
fn named_keys_parse_by_name() {
    parse("<esc>", Ok(seq(Key::Named(NamedKey::Escape), None)));
    parse("<enter>", Ok(seq(Key::Named(NamedKey::Enter), None)));
    parse(
        "<up><down>",
        Ok(seq(
            Key::Named(NamedKey::ArrowUp),
            Some(Key::Named(NamedKey::ArrowDown)),
        )),
    );
    parse("<left>", Ok(seq(Key::Named(NamedKey::ArrowLeft), None)));
    parse("<right>", Ok(seq(Key::Named(NamedKey::ArrowRight), None)));
    parse(
        "<f36>",
        Err("Invalid key: <f36>. Matching variant not found".to_string()),
    );
    parse(
        "<f0>",
        Err("Invalid key: <f0>. Matching variant not found".to_string()),
    );
}

fn mods(ctrl: bool, alt: bool, logo: bool, shift: bool) -> KeyMods {
    KeyMods { ctrl, alt, logo, shift }
}

#[test]
fn parse_key_mods() {
    assert_eq!(KeyMods::parse(""), Ok(mods(false, false, false, false)));
    assert_eq!(KeyMods::parse("ctrl"), Ok(mods(true, false, false, false)));
    assert_eq!(
        KeyMods::parse("ctrl+alt"),
        Ok(mods(true, true, false, false))
    );
    assert_eq!(
        KeyMods::parse("super+shift"),
        Ok(mods(false, false, true, true))
    );
    assert_eq!(
        KeyMods::parse("windows"),
        Ok(mods(false, false, true, false))
    );
    assert_eq!(
        KeyMods::parse("command"),
        Ok(mods(false, false, true, false))
    );
    // whitespace around tokens is ignored
    assert_eq!(
        KeyMods::parse(" ctrl + shift "),
        Ok(mods(true, false, false, true))
    );
    assert_eq!(
        KeyMods::parse("metaKey"),
        Err("Invalid modifier: metaKey".to_string())
    );
    assert_eq!(
        KeyMods::parse("ctrl+ctrl"),
        Err("Duplicate modifier: ctrl".to_string())
    );
    // the duplicate token is reported untrimmed
    assert_eq!(
        KeyMods::parse("super+windows"),
        Err("Duplicate modifier: windows".to_string())
    );
}

#[test]
fn key_mods_display_string() {
    assert_eq!(KeyMods::parse("").unwrap().display_string(), "");
    assert_eq!(KeyMods::parse("ctrl").unwrap().display_string(), "ctrl");
    assert_eq!(
        KeyMods::parse("shift+alt+ctrl").unwrap().display_string(),
        "ctrlaltshift"
    );
    assert_eq!(
        KeyMods::parse("windows+shift").unwrap().display_string(),
        "supershift"
    );
}

//! The configuration document's format: one flat JSON object holding
//! every field of [`GameConfig`]. `render_config` produces the document
//! that is persisted; `parse_config` reads it back. Parsing the
//! rendering of any configuration yields that configuration again —
//! the round-trip law `lemma_config_round_trip` — so no field, absent
//! option included, is lost across a save and a load; and conversely
//! whatever the parser accepts is the rendering of what it returns
//! (`lemma_config_parse_inverse`), so the accepted documents are
//! exactly the canonical renderings.

use vstd::prelude::*;

use crate::game_config::GameConfig;
use crate::game_config::GameConfigView;

verus! {

/// Relies on `str::chars`: the characters of the string, in order.
#[verifier::external_body]
fn string_to_chars(s: &str) -> (r: Vec<char>)
    ensures
        r@ == s@,
{
    s.chars().collect()
}

/// Relies on `String`'s `FromIterator` over characters: the string of
/// exactly those characters, in order.
#[verifier::external_body]
fn chars_to_string(v: &Vec<char>) -> (r: String)
    ensures
        r@ == v@,
{
    v.iter().collect()
}

/// How one character is written inside a quoted string: the quote and
/// the backslash carry a backslash in front, every other character
/// stands for itself.
pub open spec fn esc_char(c: char) -> Seq<char> {
    if c == '"' || c == '\\' {
        seq!['\\', c]
    } else {
        seq![c]
    }
}

/// A string's characters as they are written inside quotes.
pub open spec fn esc(s: Seq<char>) -> Seq<char>
    decreases s.len(),
{
    if s.len() == 0 {
        Seq::<char>::empty()
    } else {
        esc_char(s[0]) + esc(s.drop_first())
    }
}

/// Escaping one more character appends its written form.
pub proof fn lemma_esc_push(s: Seq<char>, c: char)
    ensures
        esc(s.push(c)) == esc(s) + esc_char(c),
    decreases s.len(),
{
    if s.len() == 0 {
        assert(s.push(c) =~= seq![c]);
        assert(esc(seq![c]) == esc_char(c) + esc(seq![c].drop_first()));
        assert(seq![c].drop_first() =~= Seq::<char>::empty());
        assert(esc(Seq::<char>::empty()) == Seq::<char>::empty());
        assert(esc(s.push(c)) =~= esc(s) + esc_char(c));
    } else {
        assert(s.push(c).drop_first() =~= s.drop_first().push(c));
        assert(s.push(c)[0] == s[0]);
        lemma_esc_push(s.drop_first(), c);
        assert(esc(s.push(c)) =~= esc(s) + esc_char(c));
    }
}

/// A string as it is written: quoted, with its characters escaped.
pub open spec fn quoted(s: Seq<char>) -> Seq<char> {
    seq!['"'] + esc(s) + seq!['"']
}

/// A boolean as it is written.
pub open spec fn bool_text(b: bool) -> Seq<char> {
    if b {
        "true"@
    } else {
        "false"@
    }
}

/// An optional string as it is written: `null`, or the quoted string.
pub open spec fn opt_text(o: Option<Seq<char>>) -> Seq<char> {
    match o {
        None => "null"@,
        Some(s) => quoted(s),
    }
}

/// The configuration document of a configuration value: one JSON
/// object, fields in declaration order.
pub open spec fn spec_render_config(c: GameConfigView) -> Seq<char> {
    "{\"config_dir\":"@ + quoted(c.config_dir) + ",\"is_wine_installed\":"@ + bool_text(
        c.is_wine_installed,
    ) + ",\"is_dxvk_installed\":"@ + bool_text(c.is_dxvk_installed) + ",\"is_font_installed\":"@
        + bool_text(c.is_font_installed) + ",\"is_dependecies_installed\":"@ + bool_text(
        c.is_dependecies_installed,
    ) + ",\"game_dir\":"@ + opt_text(c.game_dir) + ",\"is_game_installed\":"@ + bool_text(
        c.is_game_installed,
    ) + ",\"is_game_patched\":"@ + bool_text(c.is_game_patched) + ",\"launch_options\":"@
        + opt_text(c.launch_options) + "}"@
}

/// Consume an exact literal from the front of the input.
pub open spec fn spec_expect(t: Seq<char>, lit: Seq<char>) -> Option<Seq<char>> {
    if t.len() >= lit.len() && t.take(lit.len() as int) == lit {
        Some(t.skip(lit.len() as int))
    } else {
        None
    }
}

/// Consuming a literal that stands at the front leaves the rest.
pub proof fn lemma_expect_prefix(lit: Seq<char>, rest: Seq<char>)
    ensures
        spec_expect(lit + rest, lit) == Some(rest),
{
    assert((lit + rest).take(lit.len() as int) =~= lit);
    assert((lit + rest).skip(lit.len() as int) =~= rest);
}

/// Scan a quoted string's body up to and including its closing quote:
/// the unescaped characters and the input that follows. Nothing when
/// the quote never closes or an escape is not one of the two known
/// ones.
pub open spec fn spec_scan_string(t: Seq<char>) -> Option<(Seq<char>, Seq<char>)>
    decreases t.len(),
{
    if t.len() == 0 {
        None
    } else if t[0] == '"' {
        Some((Seq::<char>::empty(), t.drop_first()))
    } else if t[0] == '\\' {
        if t.len() < 2 || (t[1] != '"' && t[1] != '\\') {
            None
        } else {
            match spec_scan_string(t.skip(2)) {
                None => None,
                Some((x, rest)) => Some((seq![t[1]] + x, rest)),
            }
        }
    } else {
        match spec_scan_string(t.drop_first()) {
            None => None,
            Some((x, rest)) => Some((seq![t[0]] + x, rest)),
        }
    }
}

/// Scanning the written form of a string recovers exactly that string.
pub proof fn lemma_scan_esc(x: Seq<char>, rest: Seq<char>)
    ensures
        spec_scan_string(esc(x) + seq!['"'] + rest) == Some((x, rest)),
    decreases x.len(),
{
    let t = esc(x) + seq!['"'] + rest;
    if x.len() == 0 {
        assert(esc(x) =~= Seq::<char>::empty());
        assert(t[0] == '"');
        assert(t.drop_first() =~= rest);
    } else {
        let c = x[0];
        lemma_scan_esc(x.drop_first(), rest);
        if c == '"' || c == '\\' {
            assert(t[0] == '\\');
            assert(t[1] == c);
            assert(t.len() >= 2);
            assert(t.skip(2) =~= esc(x.drop_first()) + seq!['"'] + rest);
            assert(seq![c] + x.drop_first() =~= x);
        } else {
            assert(t[0] == c);
            assert(t.drop_first() =~= esc(x.drop_first()) + seq!['"'] + rest);
            assert(seq![c] + x.drop_first() =~= x);
        }
    }
}

/// Parse a quoted string: the opening quote, then the scan.
pub open spec fn spec_parse_str(t: Seq<char>) -> Option<(Seq<char>, Seq<char>)> {
    match spec_expect(t, seq!['"']) {
        None => None,
        Some(t2) => spec_scan_string(t2),
    }
}

/// Parsing the written form of a string recovers exactly that string.
pub proof fn lemma_parse_quoted(x: Seq<char>, rest: Seq<char>)
    ensures
        spec_parse_str(quoted(x) + rest) == Some((x, rest)),
{
    assert(quoted(x) + rest =~= seq!['"'] + (esc(x) + seq!['"'] + rest));
    lemma_expect_prefix(seq!['"'], esc(x) + seq!['"'] + rest);
    lemma_scan_esc(x, rest);
}

/// Parse a boolean: `true` or `false`.
pub open spec fn spec_parse_bool(t: Seq<char>) -> Option<(bool, Seq<char>)> {
    match spec_expect(t, "true"@) {
        Some(rest) => Some((true, rest)),
        None => match spec_expect(t, "false"@) {
            Some(rest) => Some((false, rest)),
            None => None,
        },
    }
}

/// Parsing the written form of a boolean recovers exactly that value.
pub proof fn lemma_parse_bool_text(b: bool, rest: Seq<char>)
    ensures
        spec_parse_bool(bool_text(b) + rest) == Some((b, rest)),
{
    reveal_strlit("true");
    reveal_strlit("false");
    if b {
        lemma_expect_prefix("true"@, rest);
    } else {
        lemma_expect_prefix("false"@, rest);
        let t = "false"@ + rest;
        assert(t[0] == 'f');
        assert(spec_expect(t, "true"@) is None) by {
            if t.len() >= "true"@.len() && t.take("true"@.len() as int) == "true"@ {
                assert(t.take("true"@.len() as int)[0] == 't');
                assert(t[0] == 't');
            }
        }
    }
}

/// Parse an optional string: `null`, or a quoted string.
pub open spec fn spec_parse_opt(t: Seq<char>) -> Option<(Option<Seq<char>>, Seq<char>)> {
    match spec_expect(t, "null"@) {
        Some(rest) => Some((None, rest)),
        None => match spec_parse_str(t) {
            None => None,
            Some((x, rest)) => Some((Some(x), rest)),
        },
    }
}

/// Parsing the written form of an optional string recovers exactly
/// that value.
pub proof fn lemma_parse_opt_text(o: Option<Seq<char>>, rest: Seq<char>)
    ensures
        spec_parse_opt(opt_text(o) + rest) == Some((o, rest)),
{
    reveal_strlit("null");
    match o {
        None => {
            lemma_expect_prefix("null"@, rest);
        },
        Some(x) => {
            lemma_parse_quoted(x, rest);
            let t = quoted(x) + rest;
            assert(t[0] == '"');
            assert(spec_expect(t, "null"@) is None) by {
                if t.len() >= "null"@.len() && t.take("null"@.len() as int) == "null"@ {
                    assert(t.take("null"@.len() as int)[0] == 'n');
                    assert(t[0] == 'n');
                }
            }
        },
    }
}

/// Parse one string field: its key, then the quoted value.
pub open spec fn spec_parse_str_field(t: Seq<char>, key: Seq<char>) -> Option<
    (Seq<char>, Seq<char>),
> {
    match spec_expect(t, key) {
        None => None,
        Some(t2) => spec_parse_str(t2),
    }
}

/// Parse one boolean field: its key, then `true` or `false`.
pub open spec fn spec_parse_bool_field(t: Seq<char>, key: Seq<char>) -> Option<
    (bool, Seq<char>),
> {
    match spec_expect(t, key) {
        None => None,
        Some(t2) => spec_parse_bool(t2),
    }
}

/// Parse one optional-string field: its key, then `null` or the
/// quoted value.
pub open spec fn spec_parse_opt_field(t: Seq<char>, key: Seq<char>) -> Option<
    (Option<Seq<char>>, Seq<char>),
> {
    match spec_expect(t, key) {
        None => None,
        Some(t2) => spec_parse_opt(t2),
    }
}

/// Parsing a written string field recovers exactly its value.
pub proof fn lemma_str_field(key: Seq<char>, x: Seq<char>, rest: Seq<char>)
    ensures
        spec_parse_str_field(key + (quoted(x) + rest), key) == Some((x, rest)),
{
    lemma_expect_prefix(key, quoted(x) + rest);
    lemma_parse_quoted(x, rest);
}

/// Parsing a written boolean field recovers exactly its value.
pub proof fn lemma_bool_field(key: Seq<char>, b: bool, rest: Seq<char>)
    ensures
        spec_parse_bool_field(key + (bool_text(b) + rest), key) == Some((b, rest)),
{
    lemma_expect_prefix(key, bool_text(b) + rest);
    lemma_parse_bool_text(b, rest);
}

/// Parsing a written optional-string field recovers exactly its value.
pub proof fn lemma_opt_field(key: Seq<char>, o: Option<Seq<char>>, rest: Seq<char>)
    ensures
        spec_parse_opt_field(key + (opt_text(o) + rest), key) == Some((o, rest)),
{
    lemma_expect_prefix(key, opt_text(o) + rest);
    lemma_parse_opt_text(o, rest);
}

/// Parse a whole configuration document: every field in order, then
/// the closing brace, then nothing.
pub open spec fn spec_parse_config(s: Seq<char>) -> Option<GameConfigView> {
    match spec_parse_str_field(s, "{\"config_dir\":"@) {
        None => None,
        Some((config_dir, t1)) => match spec_parse_bool_field(t1, ",\"is_wine_installed\":"@) {
            None => None,
            Some((wine, t2)) => match spec_parse_bool_field(t2, ",\"is_dxvk_installed\":"@) {
                None => None,
                Some((dxvk, t3)) => match spec_parse_bool_field(t3, ",\"is_font_installed\":"@) {
                    None => None,
                    Some((font, t4)) => match spec_parse_bool_field(
                        t4,
                        ",\"is_dependecies_installed\":"@,
                    ) {
                        None => None,
                        Some((dep, t5)) => match spec_parse_opt_field(t5, ",\"game_dir\":"@) {
                            None => None,
                            Some((game_dir, t6)) => match spec_parse_bool_field(
                                t6,
                                ",\"is_game_installed\":"@,
                            ) {
                                None => None,
                                Some((inst, t7)) => match spec_parse_bool_field(
                                    t7,
                                    ",\"is_game_patched\":"@,
                                ) {
                                    None => None,
                                    Some((patched, t8)) => match spec_parse_opt_field(
                                        t8,
                                        ",\"launch_options\":"@,
                                    ) {
                                        None => None,
                                        Some((opts, t9)) => match spec_expect(t9, "}"@) {
                                            None => None,
                                            Some(t10) => if t10.len() == 0 {
                                                Some(
                                                    GameConfigView {
                                                        config_dir,
                                                        is_wine_installed: wine,
                                                        is_dxvk_installed: dxvk,
                                                        is_font_installed: font,
                                                        is_dependecies_installed: dep,
                                                        game_dir,
                                                        is_game_installed: inst,
                                                        is_game_patched: patched,
                                                        launch_options: opts,
                                                    },
                                                )
                                            } else {
                                                None
                                            },
                                        },
                                    },
                                },
                            },
                        },
                    },
                },
            },
        },
    }
}

/// The round-trip law: parsing the rendering of any configuration
/// yields exactly that configuration — every flag, the directory, and
/// each optional field, absent or present.
#[verifier::spinoff_prover]
#[verifier::rlimit(100)]
pub proof fn lemma_config_round_trip(v: GameConfigView)
    ensures
        spec_parse_config(spec_render_config(v)) == Some(v),
{
    let s = spec_render_config(v);
    let a1 = "{\"config_dir\":"@;
    let a2 = quoted(v.config_dir);
    let a3 = ",\"is_wine_installed\":"@;
    let a4 = bool_text(v.is_wine_installed);
    let a5 = ",\"is_dxvk_installed\":"@;
    let a6 = bool_text(v.is_dxvk_installed);
    let a7 = ",\"is_font_installed\":"@;
    let a8 = bool_text(v.is_font_installed);
    let a9 = ",\"is_dependecies_installed\":"@;
    let a10 = bool_text(v.is_dependecies_installed);
    let a11 = ",\"game_dir\":"@;
    let a12 = opt_text(v.game_dir);
    let a13 = ",\"is_game_installed\":"@;
    let a14 = bool_text(v.is_game_installed);
    let a15 = ",\"is_game_patched\":"@;
    let a16 = bool_text(v.is_game_patched);
    let a17 = ",\"launch_options\":"@;
    let a18 = opt_text(v.launch_options);
    let a19 = "}"@;
    let l1 = a1;
    let l2 = l1 + a2;
    let l3 = l2 + a3;
    let l4 = l3 + a4;
    let l5 = l4 + a5;
    let l6 = l5 + a6;
    let l7 = l6 + a7;
    let l8 = l7 + a8;
    let l9 = l8 + a9;
    let l10 = l9 + a10;
    let l11 = l10 + a11;
    let l12 = l11 + a12;
    let l13 = l12 + a13;
    let l14 = l13 + a14;
    let l15 = l14 + a15;
    let l16 = l15 + a16;
    let l17 = l16 + a17;
    let l18 = l17 + a18;
    let l19 = l18 + a19;
    let t19 = a19;
    let t18 = a18 + t19;
    let t17 = a17 + t18;
    let t16 = a16 + t17;
    let t15 = a15 + t16;
    let t14 = a14 + t15;
    let t13 = a13 + t14;
    let t12 = a12 + t13;
    let t11 = a11 + t12;
    let t10 = a10 + t11;
    let t9 = a9 + t10;
    let t8 = a8 + t9;
    let t7 = a7 + t8;
    let t6 = a6 + t7;
    let t5 = a5 + t6;
    let t4 = a4 + t5;
    let t3 = a3 + t4;
    let t2 = a2 + t3;
    let t1 = a1 + t2;
    assert(s == l19);
    vstd::seq_lib::lemma_concat_associative(l17, a18, t19);
    vstd::seq_lib::lemma_concat_associative(l16, a17, t18);
    vstd::seq_lib::lemma_concat_associative(l15, a16, t17);
    vstd::seq_lib::lemma_concat_associative(l14, a15, t16);
    vstd::seq_lib::lemma_concat_associative(l13, a14, t15);
    vstd::seq_lib::lemma_concat_associative(l12, a13, t14);
    vstd::seq_lib::lemma_concat_associative(l11, a12, t13);
    vstd::seq_lib::lemma_concat_associative(l10, a11, t12);
    vstd::seq_lib::lemma_concat_associative(l9, a10, t11);
    vstd::seq_lib::lemma_concat_associative(l8, a9, t10);
    vstd::seq_lib::lemma_concat_associative(l7, a8, t9);
    vstd::seq_lib::lemma_concat_associative(l6, a7, t8);
    vstd::seq_lib::lemma_concat_associative(l5, a6, t7);
    vstd::seq_lib::lemma_concat_associative(l4, a5, t6);
    vstd::seq_lib::lemma_concat_associative(l3, a4, t5);
    vstd::seq_lib::lemma_concat_associative(l2, a3, t4);
    vstd::seq_lib::lemma_concat_associative(l1, a2, t3);
    assert(s == t1);
    lemma_str_field(a1, v.config_dir, t3);
    lemma_bool_field(a3, v.is_wine_installed, t5);
    lemma_bool_field(a5, v.is_dxvk_installed, t7);
    lemma_bool_field(a7, v.is_font_installed, t9);
    lemma_bool_field(a9, v.is_dependecies_installed, t11);
    lemma_opt_field(a11, v.game_dir, t13);
    lemma_bool_field(a13, v.is_game_installed, t15);
    lemma_bool_field(a15, v.is_game_patched, t17);
    lemma_opt_field(a17, v.launch_options, t19);
    assert(t19 =~= "}"@ + Seq::<char>::empty());
    lemma_expect_prefix("}"@, Seq::<char>::empty());
}

/// A successful literal consumption decomposes the input.
proof fn lemma_expect_inverse(t: Seq<char>, lit: Seq<char>, rest: Seq<char>)
    requires
        spec_expect(t, lit) == Some(rest),
    ensures
        t == lit + rest,
{
    assert(t =~= t.take(lit.len() as int) + t.skip(lit.len() as int));
}

/// A successful scan decomposes the input into the written form of
/// what was read.
proof fn lemma_scan_inverse(t: Seq<char>, x: Seq<char>, rest: Seq<char>)
    requires
        spec_scan_string(t) == Some((x, rest)),
    ensures
        t == esc(x) + seq!['"'] + rest,
    decreases t.len(),
{
    if t.len() == 0 {
        assert(false);
    } else if t[0] == '"' {
        assert(x =~= Seq::<char>::empty());
        assert(esc(x) == Seq::<char>::empty());
        assert(t =~= seq![t[0]] + t.drop_first());
        assert(esc(x) + seq!['"'] + rest =~= t);
    } else if t[0] == '\\' {
        match spec_scan_string(t.skip(2)) {
            Some(p) => {
                let x2 = p.0;
                assert(x == seq![t[1]] + x2);
                assert(p.1 == rest);
                lemma_scan_inverse(t.skip(2), x2, rest);
                assert(x[0] == t[1]);
                assert(x.drop_first() =~= x2);
                assert(esc(x) == esc_char(x[0]) + esc(x.drop_first()));
                assert(t =~= seq![t[0], t[1]] + t.skip(2));
                assert(esc(x) + seq!['"'] + rest =~= t);
            },
            None => {
                assert(false);
            },
        }
    } else {
        match spec_scan_string(t.drop_first()) {
            Some(p) => {
                assert(x == seq![t[0]] + p.0);
                assert(p.1 == rest);
                lemma_scan_inverse(t.drop_first(), p.0, rest);
                assert(x[0] == t[0]);
                assert(x.drop_first() =~= p.0);
                assert(esc(x) == esc_char(x[0]) + esc(x.drop_first()));
                assert(t =~= seq![t[0]] + t.drop_first());
                assert(esc(x) + seq!['"'] + rest =~= t);
            },
            None => {
                assert(false);
            },
        }
    }
}

/// A successfully parsed string decomposes the input.
proof fn lemma_parse_str_inverse(t: Seq<char>, x: Seq<char>, rest: Seq<char>)
    requires
        spec_parse_str(t) == Some((x, rest)),
    ensures
        t == quoted(x) + rest,
{
    match spec_expect(t, seq!['"']) {
        Some(t2) => {
            lemma_expect_inverse(t, seq!['"'], t2);
            lemma_scan_inverse(t2, x, rest);
            assert(quoted(x) + rest =~= seq!['"'] + (esc(x) + seq!['"'] + rest));
        },
        None => {
            assert(false);
        },
    }
}

/// A successfully parsed boolean decomposes the input.
proof fn lemma_parse_bool_inverse(t: Seq<char>, b: bool, rest: Seq<char>)
    requires
        spec_parse_bool(t) == Some((b, rest)),
    ensures
        t == bool_text(b) + rest,
{
    match spec_expect(t, "true"@) {
        Some(r) => {
            lemma_expect_inverse(t, "true"@, r);
        },
        None => match spec_expect(t, "false"@) {
            Some(r) => {
                lemma_expect_inverse(t, "false"@, r);
            },
            None => {
                assert(false);
            },
        },
    }
}

/// A successfully parsed optional string decomposes the input.
proof fn lemma_parse_opt_inverse(t: Seq<char>, o: Option<Seq<char>>, rest: Seq<char>)
    requires
        spec_parse_opt(t) == Some((o, rest)),
    ensures
        t == opt_text(o) + rest,
{
    match spec_expect(t, "null"@) {
        Some(r) => {
            lemma_expect_inverse(t, "null"@, r);
        },
        None => match spec_parse_str(t) {
            Some(p) => {
                lemma_parse_str_inverse(t, p.0, p.1);
            },
            None => {
                assert(false);
            },
        },
    }
}

/// A successfully parsed string field decomposes the input.
proof fn lemma_str_field_inverse(t: Seq<char>, key: Seq<char>, x: Seq<char>, rest: Seq<char>)
    requires
        spec_parse_str_field(t, key) == Some((x, rest)),
    ensures
        t == key + (quoted(x) + rest),
{
    match spec_expect(t, key) {
        Some(t2) => {
            lemma_expect_inverse(t, key, t2);
            lemma_parse_str_inverse(t2, x, rest);
        },
        None => {
            assert(false);
        },
    }
}

/// A successfully parsed boolean field decomposes the input.
proof fn lemma_bool_field_inverse(t: Seq<char>, key: Seq<char>, b: bool, rest: Seq<char>)
    requires
        spec_parse_bool_field(t, key) == Some((b, rest)),
    ensures
        t == key + (bool_text(b) + rest),
{
    match spec_expect(t, key) {
        Some(t2) => {
            lemma_expect_inverse(t, key, t2);
            lemma_parse_bool_inverse(t2, b, rest);
        },
        None => {
            assert(false);
        },
    }
}

/// A successfully parsed optional-string field decomposes the input.
proof fn lemma_opt_field_inverse(
    t: Seq<char>,
    key: Seq<char>,
    o: Option<Seq<char>>,
    rest: Seq<char>,
)
    requires
        spec_parse_opt_field(t, key) == Some((o, rest)),
    ensures
        t == key + (opt_text(o) + rest),
{
    match spec_expect(t, key) {
        Some(t2) => {
            lemma_expect_inverse(t, key, t2);
            lemma_parse_opt_inverse(t2, o, rest);
        },
        None => {
            assert(false);
        },
    }
}

/// The configuration document with its fields grouped from the right;
/// the same characters as [`spec_render_config`].
pub open spec fn spec_render_nested(c: GameConfigView) -> Seq<char> {
    let t9 = "}"@;
    let t8 = ",\"launch_options\":"@ + (opt_text(c.launch_options) + t9);
    let t7 = ",\"is_game_patched\":"@ + (bool_text(c.is_game_patched) + t8);
    let t6 = ",\"is_game_installed\":"@ + (bool_text(c.is_game_installed) + t7);
    let t5 = ",\"game_dir\":"@ + (opt_text(c.game_dir) + t6);
    let t4 = ",\"is_dependecies_installed\":"@ + (bool_text(c.is_dependecies_installed) + t5);
    let t3 = ",\"is_font_installed\":"@ + (bool_text(c.is_font_installed) + t4);
    let t2 = ",\"is_dxvk_installed\":"@ + (bool_text(c.is_dxvk_installed) + t3);
    let t1 = ",\"is_wine_installed\":"@ + (bool_text(c.is_wine_installed) + t2);
    "{\"config_dir\":"@ + (quoted(c.config_dir) + t1)
}

/// Grouping the document's concatenations from the right changes
/// nothing.
#[verifier::spinoff_prover]
#[verifier::rlimit(100)]
pub proof fn lemma_render_nested(v: GameConfigView)
    ensures
        spec_render_config(v) == spec_render_nested(v),
{
    let s = spec_render_config(v);
    let a1 = "{\"config_dir\":"@;
    let a2 = quoted(v.config_dir);
    let a3 = ",\"is_wine_installed\":"@;
    let a4 = bool_text(v.is_wine_installed);
    let a5 = ",\"is_dxvk_installed\":"@;
    let a6 = bool_text(v.is_dxvk_installed);
    let a7 = ",\"is_font_installed\":"@;
    let a8 = bool_text(v.is_font_installed);
    let a9 = ",\"is_dependecies_installed\":"@;
    let a10 = bool_text(v.is_dependecies_installed);
    let a11 = ",\"game_dir\":"@;
    let a12 = opt_text(v.game_dir);
    let a13 = ",\"is_game_installed\":"@;
    let a14 = bool_text(v.is_game_installed);
    let a15 = ",\"is_game_patched\":"@;
    let a16 = bool_text(v.is_game_patched);
    let a17 = ",\"launch_options\":"@;
    let a18 = opt_text(v.launch_options);
    let a19 = "}"@;
    let l1 = a1;
    let l2 = l1 + a2;
    let l3 = l2 + a3;
    let l4 = l3 + a4;
    let l5 = l4 + a5;
    let l6 = l5 + a6;
    let l7 = l6 + a7;
    let l8 = l7 + a8;
    let l9 = l8 + a9;
    let l10 = l9 + a10;
    let l11 = l10 + a11;
    let l12 = l11 + a12;
    let l13 = l12 + a13;
    let l14 = l13 + a14;
    let l15 = l14 + a15;
    let l16 = l15 + a16;
    let l17 = l16 + a17;
    let l18 = l17 + a18;
    let l19 = l18 + a19;
    let t19 = a19;
    let t18 = a18 + t19;
    let t17 = a17 + t18;
    let t16 = a16 + t17;
    let t15 = a15 + t16;
    let t14 = a14 + t15;
    let t13 = a13 + t14;
    let t12 = a12 + t13;
    let t11 = a11 + t12;
    let t10 = a10 + t11;
    let t9 = a9 + t10;
    let t8 = a8 + t9;
    let t7 = a7 + t8;
    let t6 = a6 + t7;
    let t5 = a5 + t6;
    let t4 = a4 + t5;
    let t3 = a3 + t4;
    let t2 = a2 + t3;
    let t1 = a1 + t2;
    assert(s == l19);
    vstd::seq_lib::lemma_concat_associative(l17, a18, t19);
    vstd::seq_lib::lemma_concat_associative(l16, a17, t18);
    vstd::seq_lib::lemma_concat_associative(l15, a16, t17);
    vstd::seq_lib::lemma_concat_associative(l14, a15, t16);
    vstd::seq_lib::lemma_concat_associative(l13, a14, t15);
    vstd::seq_lib::lemma_concat_associative(l12, a13, t14);
    vstd::seq_lib::lemma_concat_associative(l11, a12, t13);
    vstd::seq_lib::lemma_concat_associative(l10, a11, t12);
    vstd::seq_lib::lemma_concat_associative(l9, a10, t11);
    vstd::seq_lib::lemma_concat_associative(l8, a9, t10);
    vstd::seq_lib::lemma_concat_associative(l7, a8, t9);
    vstd::seq_lib::lemma_concat_associative(l6, a7, t8);
    vstd::seq_lib::lemma_concat_associative(l5, a6, t7);
    vstd::seq_lib::lemma_concat_associative(l4, a5, t6);
    vstd::seq_lib::lemma_concat_associative(l3, a4, t5);
    vstd::seq_lib::lemma_concat_associative(l2, a3, t4);
    vstd::seq_lib::lemma_concat_associative(l1, a2, t3);
    assert(s == t1);
    assert(spec_render_nested(v) == t1);
}

/// The converse of the round-trip law: whatever the parser accepts is
/// exactly the rendering of what it returns, so the accepted documents
/// are precisely the canonical renderings.
#[verifier::spinoff_prover]
#[verifier::rlimit(100)]
pub proof fn lemma_config_parse_inverse(s: Seq<char>, v: GameConfigView)
    requires
        spec_parse_config(s) == Some(v),
    ensures
        s == spec_render_config(v),
{
    let r1 = spec_parse_str_field(s, "{\"config_dir\":"@);
    assert(r1 is Some);
    let cd = (r1->0).0;
    let t1 = (r1->0).1;
    let r2 = spec_parse_bool_field(t1, ",\"is_wine_installed\":"@);
    assert(r2 is Some);
    let wine = (r2->0).0;
    let t2 = (r2->0).1;
    let r3 = spec_parse_bool_field(t2, ",\"is_dxvk_installed\":"@);
    assert(r3 is Some);
    let dxvk = (r3->0).0;
    let t3 = (r3->0).1;
    let r4 = spec_parse_bool_field(t3, ",\"is_font_installed\":"@);
    assert(r4 is Some);
    let font = (r4->0).0;
    let t4 = (r4->0).1;
    let r5 = spec_parse_bool_field(t4, ",\"is_dependecies_installed\":"@);
    assert(r5 is Some);
    let dep = (r5->0).0;
    let t5 = (r5->0).1;
    let r6 = spec_parse_opt_field(t5, ",\"game_dir\":"@);
    assert(r6 is Some);
    let game_dir = (r6->0).0;
    let t6 = (r6->0).1;
    let r7 = spec_parse_bool_field(t6, ",\"is_game_installed\":"@);
    assert(r7 is Some);
    let inst = (r7->0).0;
    let t7 = (r7->0).1;
    let r8 = spec_parse_bool_field(t7, ",\"is_game_patched\":"@);
    assert(r8 is Some);
    let patched = (r8->0).0;
    let t8 = (r8->0).1;
    let r9 = spec_parse_opt_field(t8, ",\"launch_options\":"@);
    assert(r9 is Some);
    let opts = (r9->0).0;
    let t9 = (r9->0).1;
    let r10 = spec_expect(t9, "}"@);
    assert(r10 is Some);
    let t10 = r10->0;
    assert(t10.len() == 0);
    assert(v.config_dir == cd);
    assert(v.is_wine_installed == wine);
    assert(v.is_dxvk_installed == dxvk);
    assert(v.is_font_installed == font);
    assert(v.is_dependecies_installed == dep);
    assert(v.game_dir == game_dir);
    assert(v.is_game_installed == inst);
    assert(v.is_game_patched == patched);
    assert(v.launch_options == opts);
    lemma_str_field_inverse(s, "{\"config_dir\":"@, cd, t1);
    lemma_bool_field_inverse(t1, ",\"is_wine_installed\":"@, wine, t2);
    lemma_bool_field_inverse(t2, ",\"is_dxvk_installed\":"@, dxvk, t3);
    lemma_bool_field_inverse(t3, ",\"is_font_installed\":"@, font, t4);
    lemma_bool_field_inverse(t4, ",\"is_dependecies_installed\":"@, dep, t5);
    lemma_opt_field_inverse(t5, ",\"game_dir\":"@, game_dir, t6);
    lemma_bool_field_inverse(t6, ",\"is_game_installed\":"@, inst, t7);
    lemma_bool_field_inverse(t7, ",\"is_game_patched\":"@, patched, t8);
    lemma_opt_field_inverse(t8, ",\"launch_options\":"@, opts, t9);
    lemma_expect_inverse(t9, "}"@, t10);
    assert(t9 =~= "}"@);
    lemma_render_nested(v);
    assert(s == spec_render_nested(v));
}

fn append_chars(out: &mut Vec<char>, add: &Vec<char>)
    ensures
        final(out)@ == old(out)@ + add@,
{
    let mut k: usize = 0;
    proof {
        assert(out@ + add@.take(0) =~= out@);
    }
    while k < add.len()
        invariant
            0 <= k <= add@.len(),
            out@ == old(out)@ + add@.take(k as int),
        decreases add@.len() - k,
    {
        out.push(add[k]);
        proof {
            assert(old(out)@ + add@.take(k + 1) =~= (old(out)@ + add@.take(k as int)).push(
                add@[k as int],
            ));
        }
        k = k + 1;
    }
    proof {
        assert(add@.take(add@.len() as int) =~= add@);
    }
}

fn append_escaped(out: &mut Vec<char>, add: &Vec<char>)
    ensures
        final(out)@ == old(out)@ + esc(add@),
{
    let mut k: usize = 0;
    proof {
        assert(esc(add@.take(0)) == Seq::<char>::empty());
        assert(out@ + esc(add@.take(0)) =~= out@);
    }
    while k < add.len()
        invariant
            0 <= k <= add@.len(),
            out@ == old(out)@ + esc(add@.take(k as int)),
        decreases add@.len() - k,
    {
        let c = add[k];
        proof {
            assert(add@.take(k + 1) =~= add@.take(k as int).push(add@[k as int]));
            lemma_esc_push(add@.take(k as int), add@[k as int]);
        }
        if c == '"' || c == '\\' {
            out.push('\\');
            out.push(c);
            proof {
                assert(old(out)@ + esc(add@.take(k + 1)) =~= (old(out)@ + esc(
                    add@.take(k as int),
                )).push('\\').push(add@[k as int]));
            }
        } else {
            out.push(c);
            proof {
                assert(old(out)@ + esc(add@.take(k + 1)) =~= (old(out)@ + esc(
                    add@.take(k as int),
                )).push(add@[k as int]));
            }
        }
        k = k + 1;
    }
    proof {
        assert(add@.take(add@.len() as int) =~= add@);
    }
}

fn append_quoted(out: &mut Vec<char>, text: &str)
    ensures
        final(out)@ == old(out)@ + quoted(text@),
{
    let chars = string_to_chars(text);
    out.push('"');
    append_escaped(out, &chars);
    out.push('"');
    proof {
        assert(old(out)@ + quoted(text@) =~= old(out)@.push('"') + esc(text@) + seq!['"']);
        assert(old(out)@.push('"') + esc(text@) + seq!['"'] =~= (old(out)@.push('"') + esc(
            text@,
        )).push('"'));
    }
}

fn append_bool(out: &mut Vec<char>, b: bool)
    ensures
        final(out)@ == old(out)@ + bool_text(b),
{
    let word = if b {
        string_to_chars("true")
    } else {
        string_to_chars("false")
    };
    append_chars(out, &word);
}

fn append_opt(out: &mut Vec<char>, o: &Option<String>)
    ensures
        final(out)@ == old(out)@ + opt_text(match o {
            Some(s) => Some(s@),
            None => None,
        }),
{
    match o {
        None => {
            let word = string_to_chars("null");
            append_chars(out, &word);
        },
        Some(s) => {
            append_quoted(out, s.as_str());
        },
    }
}

/// Render the configuration document that is persisted on disk.
pub fn render_config(c: &GameConfig) -> (r: String)
    ensures
        r@ == spec_render_config(c@),
{
    let mut out: Vec<char> = Vec::new();
    let key1 = string_to_chars("{\"config_dir\":");
    append_chars(&mut out, &key1);
    proof {
        assert(Seq::<char>::empty() + "{\"config_dir\":"@ =~= "{\"config_dir\":"@);
    }
    append_quoted(&mut out, c.config_dir.as_str());
    let key2 = string_to_chars(",\"is_wine_installed\":");
    append_chars(&mut out, &key2);
    append_bool(&mut out, c.is_wine_installed);
    let key3 = string_to_chars(",\"is_dxvk_installed\":");
    append_chars(&mut out, &key3);
    append_bool(&mut out, c.is_dxvk_installed);
    let key4 = string_to_chars(",\"is_font_installed\":");
    append_chars(&mut out, &key4);
    append_bool(&mut out, c.is_font_installed);
    let key5 = string_to_chars(",\"is_dependecies_installed\":");
    append_chars(&mut out, &key5);
    append_bool(&mut out, c.is_dependecies_installed);
    let key6 = string_to_chars(",\"game_dir\":");
    append_chars(&mut out, &key6);
    append_opt(&mut out, &c.game_dir);
    let key7 = string_to_chars(",\"is_game_installed\":");
    append_chars(&mut out, &key7);
    append_bool(&mut out, c.is_game_installed);
    let key8 = string_to_chars(",\"is_game_patched\":");
    append_chars(&mut out, &key8);
    append_bool(&mut out, c.is_game_patched);
    let key9 = string_to_chars(",\"launch_options\":");
    append_chars(&mut out, &key9);
    append_opt(&mut out, &c.launch_options);
    let end = string_to_chars("}");
    append_chars(&mut out, &end);
    chars_to_string(&out)
}

fn parse_lit_at(s: &Vec<char>, i: usize, lit: &Vec<char>) -> (r: Option<usize>)
    requires
        i <= s@.len(),
    ensures
        r matches Some(j) ==> i <= j <= s@.len() && spec_expect(s@.skip(i as int), lit@)
            == Some(s@.skip(j as int)),
        r is None ==> spec_expect(s@.skip(i as int), lit@) is None,
{
    let ghost t = s@.skip(i as int);
    if s.len() - i < lit.len() {
        return None;
    }
    let mut k: usize = 0;
    while k < lit.len()
        invariant
            0 <= k <= lit@.len(),
            i + lit@.len() <= s.len(),
            t == s@.skip(i as int),
            forall|m: int| 0 <= m < k ==> t[m] == lit@[m],
        decreases lit@.len() - k,
    {
        if s[i + k] != lit[k] {
            proof {
                assert(t[k as int] != lit@[k as int]);
                if t.len() >= lit@.len() && t.take(lit@.len() as int) == lit@ {
                    assert(t.take(lit@.len() as int)[k as int] == t[k as int]);
                }
            }
            return None;
        }
        k = k + 1;
    }
    proof {
        assert(t.take(lit@.len() as int) =~= lit@);
        assert(t.skip(lit@.len() as int) =~= s@.skip(i + lit@.len()));
    }
    Some(i + lit.len())
}

fn scan_string_at(s: &Vec<char>, i: usize) -> (r: Option<(Vec<char>, usize)>)
    requires
        i <= s@.len(),
    ensures
        r matches Some((x, j)) ==> i <= j <= s@.len() && spec_scan_string(s@.skip(i as int))
            == Some((x@, s@.skip(j as int))),
        r is None ==> spec_scan_string(s@.skip(i as int)) is None,
{
    let ghost t0 = s@.skip(i as int);
    let mut acc: Vec<char> = Vec::new();
    let mut j: usize = i;
    loop
        invariant
            i <= j <= s@.len(),
            t0 == s@.skip(i as int),
            spec_scan_string(t0) == (match spec_scan_string(s@.skip(j as int)) {
                None => None::<(Seq<char>, Seq<char>)>,
                Some(p) => Some((acc@ + p.0, p.1)),
            }),
        decreases s@.len() - j,
    {
        let ghost tj = s@.skip(j as int);
        if j >= s.len() {
            proof {
                assert(tj.len() == 0);
            }
            return None;
        }
        let c = s[j];
        proof {
            assert(tj[0] == s@[j as int]);
        }
        if c == '"' {
            proof {
                assert(spec_scan_string(tj) == Some(
                    (Seq::<char>::empty(), tj.drop_first()),
                ));
                assert(tj.drop_first() =~= s@.skip(j + 1));
                assert(acc@ + Seq::<char>::empty() =~= acc@);
            }
            return Some((acc, j + 1));
        } else if c == '\\' {
            if j + 1 >= s.len() {
                proof {
                    assert(tj.len() < 2);
                }
                return None;
            }
            let c2 = s[j + 1];
            proof {
                assert(tj[1] == s@[j + 1]);
            }
            if c2 != '"' && c2 != '\\' {
                return None;
            }
            let ghost pre = acc@;
            acc.push(c2);
            proof {
                assert(tj.skip(2) =~= s@.skip(j + 2));
                assert(acc@ =~= pre + seq![c2]);
                match spec_scan_string(s@.skip(j + 2)) {
                    Some(p) => {
                        vstd::seq_lib::lemma_concat_associative(pre, seq![c2], p.0);
                    },
                    None => {},
                }
            }
            j = j + 2;
        } else {
            let ghost pre = acc@;
            acc.push(c);
            proof {
                assert(tj.drop_first() =~= s@.skip(j + 1));
                assert(acc@ =~= pre + seq![c]);
                match spec_scan_string(s@.skip(j + 1)) {
                    Some(p) => {
                        vstd::seq_lib::lemma_concat_associative(pre, seq![c], p.0);
                    },
                    None => {},
                }
            }
            j = j + 1;
        }
    }
}

fn parse_str_at(s: &Vec<char>, i: usize) -> (r: Option<(Vec<char>, usize)>)
    requires
        i <= s@.len(),
    ensures
        r matches Some((x, j)) ==> i <= j <= s@.len() && spec_parse_str(s@.skip(i as int))
            == Some((x@, s@.skip(j as int))),
        r is None ==> spec_parse_str(s@.skip(i as int)) is None,
{
    let quote = string_to_chars("\"");
    proof {
        reveal_strlit("\"");
        assert(quote@ =~= seq!['"']);
    }
    match parse_lit_at(s, i, &quote) {
        None => None,
        Some(j1) => scan_string_at(s, j1),
    }
}

fn parse_bool_at(s: &Vec<char>, i: usize) -> (r: Option<(bool, usize)>)
    requires
        i <= s@.len(),
    ensures
        r matches Some((b, j)) ==> i <= j <= s@.len() && spec_parse_bool(s@.skip(i as int))
            == Some((b, s@.skip(j as int))),
        r is None ==> spec_parse_bool(s@.skip(i as int)) is None,
{
    let word_true = string_to_chars("true");
    match parse_lit_at(s, i, &word_true) {
        Some(j) => Some((true, j)),
        None => {
            let word_false = string_to_chars("false");
            match parse_lit_at(s, i, &word_false) {
                Some(j) => Some((false, j)),
                None => None,
            }
        },
    }
}

fn parse_opt_at(s: &Vec<char>, i: usize) -> (r: Option<(Option<Vec<char>>, usize)>)
    requires
        i <= s@.len(),
    ensures
        r matches Some((o, j)) ==> i <= j <= s@.len() && spec_parse_opt(s@.skip(i as int))
            == Some(
            (
                match o {
                    Some(x) => Some(x@),
                    None => None,
                },
                s@.skip(j as int),
            ),
        ),
        r is None ==> spec_parse_opt(s@.skip(i as int)) is None,
{
    let word_null = string_to_chars("null");
    match parse_lit_at(s, i, &word_null) {
        Some(j) => Some((None, j)),
        None => match parse_str_at(s, i) {
            Some((x, j)) => Some((Some(x), j)),
            None => None,
        },
    }
}

/// Read a configuration document back. Exactly the documents that
/// `render_config` produces are accepted: parsing the rendering of any
/// configuration yields that configuration, and whatever is accepted
/// renders back to the very input.
pub fn parse_config(s: &str) -> (r: Option<GameConfig>)
    ensures
        r matches Some(c) ==> spec_parse_config(s@) == Some(c@),
        r is None ==> spec_parse_config(s@) is None,
{
    let chars = string_to_chars(s);
    proof {
        assert(chars@.skip(0) =~= s@);
    }
    let key1 = string_to_chars("{\"config_dir\":");
    let j0 = match parse_lit_at(&chars, 0, &key1) {
        None => {
            return None;
        },
        Some(j) => j,
    };
    let (config_dir, j1) = match parse_str_at(&chars, j0) {
        None => {
            return None;
        },
        Some(p) => p,
    };
    let key2 = string_to_chars(",\"is_wine_installed\":");
    let j2 = match parse_lit_at(&chars, j1, &key2) {
        None => {
            return None;
        },
        Some(j) => j,
    };
    let (wine, j3) = match parse_bool_at(&chars, j2) {
        None => {
            return None;
        },
        Some(p) => p,
    };
    let key3 = string_to_chars(",\"is_dxvk_installed\":");
    let j4 = match parse_lit_at(&chars, j3, &key3) {
        None => {
            return None;
        },
        Some(j) => j,
    };
    let (dxvk, j5) = match parse_bool_at(&chars, j4) {
        None => {
            return None;
        },
        Some(p) => p,
    };
    let key4 = string_to_chars(",\"is_font_installed\":");
    let j6 = match parse_lit_at(&chars, j5, &key4) {
        None => {
            return None;
        },
        Some(j) => j,
    };
    let (font, j7) = match parse_bool_at(&chars, j6) {
        None => {
            return None;
        },
        Some(p) => p,
    };
    let key5 = string_to_chars(",\"is_dependecies_installed\":");
    let j8 = match parse_lit_at(&chars, j7, &key5) {
        None => {
            return None;
        },
        Some(j) => j,
    };
    let (dep, j9) = match parse_bool_at(&chars, j8) {
        None => {
            return None;
        },
        Some(p) => p,
    };
    let key6 = string_to_chars(",\"game_dir\":");
    let j10 = match parse_lit_at(&chars, j9, &key6) {
        None => {
            return None;
        },
        Some(j) => j,
    };
    let (game_dir, j11) = match parse_opt_at(&chars, j10) {
        None => {
            return None;
        },
        Some(p) => p,
    };
    let key7 = string_to_chars(",\"is_game_installed\":");
    let j12 = match parse_lit_at(&chars, j11, &key7) {
        None => {
            return None;
        },
        Some(j) => j,
    };
    let (inst, j13) = match parse_bool_at(&chars, j12) {
        None => {
            return None;
        },
        Some(p) => p,
    };
    let key8 = string_to_chars(",\"is_game_patched\":");
    let j14 = match parse_lit_at(&chars, j13, &key8) {
        None => {
            return None;
        },
        Some(j) => j,
    };
    let (patched, j15) = match parse_bool_at(&chars, j14) {
        None => {
            return None;
        },
        Some(p) => p,
    };
    let key9 = string_to_chars(",\"launch_options\":");
    let j16 = match parse_lit_at(&chars, j15, &key9) {
        None => {
            return None;
        },
        Some(j) => j,
    };
    let (opts, j17) = match parse_opt_at(&chars, j16) {
        None => {
            return None;
        },
        Some(p) => p,
    };
    let end = string_to_chars("}");
    let j18 = match parse_lit_at(&chars, j17, &end) {
        None => {
            return None;
        },
        Some(j) => j,
    };
    if j18 != chars.len() {
        proof {
            assert(s@.skip(j18 as int).len() != 0);
        }
        return None;
    }
    proof {
        assert(s@.skip(j18 as int).len() == 0);
    }
    let config = GameConfig {
        config_dir: chars_to_string(&config_dir),
        is_wine_installed: wine,
        is_dxvk_installed: dxvk,
        is_font_installed: font,
        is_dependecies_installed: dep,
        game_dir: match game_dir {
            Some(v) => Some(chars_to_string(&v)),
            None => None,
        },
        is_game_installed: inst,
        is_game_patched: patched,
        launch_options: match opts {
            Some(v) => Some(chars_to_string(&v)),
            None => None,
        },
    };
    Some(config)
}

impl GameConfig {
    /// The configuration the launcher works with: the parsed content of
    /// the configuration file, or a fresh default for the launcher
    /// directory when there is no file or its content does not parse.
    /// A parse failure silently discards the stored progress; that is
    /// the documented fallback, not an error.
    pub fn get_config(content: &Option<String>, config_dir: String) -> (c: GameConfig)
        ensures
            (match content {
                Some(text) => match spec_parse_config(text@) {
                    Some(v) => c@ == v,
                    None => c@ == crate::game_config::spec_default_config(config_dir@),
                },
                None => c@ == crate::game_config::spec_default_config(config_dir@),
            }),
    {
        match content {
            None => GameConfig::new(config_dir),
            Some(text) => match parse_config(text.as_str()) {
                Some(c) => c,
                None => GameConfig::new(config_dir),
            },
        }
    }
}

} // verus!

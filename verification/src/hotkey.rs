//! The hotkey value type: one key together with a set of modifiers.
//!
//! Two hotkeys are the same exactly when their keys agree up to ASCII case
//! and their case-folded modifier collections are equal as sets: order and
//! duplicates are irrelevant.

use vstd::prelude::*;
use vstd::string::*;
use crate::shortcut::{canonical_segment, canonical_token, join_plus, join_segments};
use crate::text::{lower_seq, str_eq, to_lower};

verus! {

/// One configured hotkey: a single key identifier plus a sequence of
/// modifier names, in insertion order.
#[derive(Clone, Debug)]
pub struct HotkeyConfig {
    pub key: String,
    pub modifiers: Vec<String>,
}

/// A shortcut in the vocabulary of the global-hotkey layer: one canonical
/// flag per recognized modifier, and the canonical (lower-case) key token.
#[derive(Clone, Debug)]
pub struct ParsedShortcut {
    pub control: bool,
    pub alt: bool,
    pub shift: bool,
    pub super_key: bool,
    pub key: String,
}

/// The modifier names of `h`, as character sequences, in insertion order.
pub open spec fn mods_view(h: HotkeyConfig) -> Seq<Seq<char>> {
    h.modifiers@.map_values(|m: String| m@)
}

/// The modifier names of `h`, case-folded, in insertion order.
pub open spec fn folded_mods(h: HotkeyConfig) -> Seq<Seq<char>> {
    mods_view(h).map_values(|m: Seq<char>| lower_seq(m))
}

/// The case-folded modifier names of `h`, as a set.
pub open spec fn mods_set(h: HotkeyConfig) -> Set<Seq<char>> {
    folded_mods(h).to_set()
}

/// `x` is the case-folded form of some element of `list`.
pub open spec fn seq_has_folded(list: Seq<String>, x: Seq<char>) -> bool {
    exists|j: int| 0 <= j < list.len() && #[trigger] lower_seq(list[j]@) == x
}

/// `x` is the case-folded form of one of `h`'s modifiers.
pub open spec fn has_folded_mod(h: HotkeyConfig, x: Seq<char>) -> bool {
    seq_has_folded(h.modifiers@, x)
}

/// The equality of hotkeys: keys equal up to case, case-folded modifier
/// sets equal as sets.
pub open spec fn same_hotkey(a: HotkeyConfig, b: HotkeyConfig) -> bool {
    lower_seq(a.key@) == lower_seq(b.key@) && mods_set(a) == mods_set(b)
}

/// The display-oriented canonical string of `h`: modifiers lower-cased, in
/// insertion order, then the key with its case preserved, joined by `'+'`.
pub open spec fn shortcut_string_spec(h: HotkeyConfig) -> Seq<char> {
    join_plus(folded_mods(h) + seq![h.key@])
}

/// A modifier token is recognized when its canonical form is one of the
/// four canonical modifier names.
pub open spec fn modifier_token_ok(m: Seq<char>) -> bool {
    let c = canonical_segment(m);
    c == "control"@ || c == "alt"@ || c == "shift"@ || c == "super"@
}

/// A single-character key token: a lower-case ASCII letter or a digit.
pub open spec fn single_key_char(low: Seq<char>) -> bool {
    low.len() == 1 && ((97 <= low[0] as u32 && low[0] as u32 <= 122) || (48 <= low[0] as u32
        && low[0] as u32 <= 57))
}

/// A named key token of the global-hotkey vocabulary, in lower case.
pub open spec fn named_key(low: Seq<char>) -> bool {
    ||| low == "space"@
    ||| low == "backquote"@
    ||| low == "enter"@
    ||| low == "tab"@
    ||| low == "escape"@
    ||| low == "backspace"@
    ||| low == "delete"@
    ||| low == "home"@
    ||| low == "end"@
    ||| low == "pageup"@
    ||| low == "pagedown"@
    ||| low == "up"@
    ||| low == "down"@
    ||| low == "left"@
    ||| low == "right"@
    ||| function_key(low)
}

/// A function-key token of the global-hotkey vocabulary, in lower case.
pub open spec fn function_key(low: Seq<char>) -> bool {
    ||| low == "f1"@
    ||| low == "f2"@
    ||| low == "f3"@
    ||| low == "f4"@
    ||| low == "f5"@
    ||| low == "f6"@
    ||| low == "f7"@
    ||| low == "f8"@
    ||| low == "f9"@
    ||| low == "f10"@
    ||| low == "f11"@
    ||| low == "f12"@
}

/// A key token is recognized when its case-folded form is a single letter
/// or digit, or one of the named keys.
pub open spec fn key_token_ok(k: Seq<char>) -> bool {
    single_key_char(lower_seq(k)) || named_key(lower_seq(k))
}

/// The whole hotkey parses: every modifier token and the key token are in
/// the global-hotkey vocabulary.
pub open spec fn hotkey_parses(h: HotkeyConfig) -> bool {
    &&& forall|i: int| 0 <= i < h.modifiers@.len() ==> modifier_token_ok(h.modifiers@[i]@)
    &&& key_token_ok(h.key@)
}

/// `h` carries the canonical modifier `name` (one of its modifier tokens
/// rewrites to it).
pub open spec fn has_canonical_mod(h: HotkeyConfig, name: Seq<char>) -> bool {
    exists|i: int| 0 <= i < h.modifiers@.len() && canonical_segment(h.modifiers@[i]@) == name
}

/// `a` and `b` differ at most in ASCII case: same key up to case, and the
/// same modifiers, in the same order, each up to case.
pub open spec fn case_variant(a: HotkeyConfig, b: HotkeyConfig) -> bool {
    &&& lower_seq(a.key@) == lower_seq(b.key@)
    &&& a.modifiers@.len() == b.modifiers@.len()
    &&& forall|i: int|
        0 <= i < a.modifiers@.len() ==> lower_seq(#[trigger] a.modifiers@[i]@) == lower_seq(
            b.modifiers@[i]@,
        )
}

/// The fixed value of the default toggle-recording hotkey.
pub open spec fn is_default_toggle(h: HotkeyConfig) -> bool {
    h.key@ == "Space"@ && h.modifiers@.len() == 2 && h.modifiers@[0]@ == "Ctrl"@
        && h.modifiers@[1]@ == "Alt"@
}

/// The fixed value of the default hold-to-record hotkey.
pub open spec fn is_default_hold(h: HotkeyConfig) -> bool {
    h.key@ == "Space"@ && h.modifiers@.len() == 1 && h.modifiers@[0]@ == "Ctrl"@
}

/// The fixed value of the default paste-last-transcript hotkey.
pub open spec fn is_default_paste_last(h: HotkeyConfig) -> bool {
    h.key@ == "V"@ && h.modifiers@.len() == 2 && h.modifiers@[0]@ == "Ctrl"@ && h.modifiers@[1]@
        == "Alt"@
}

/// Membership in the case-folded modifier set coincides with having a
/// modifier that folds to the element.
pub proof fn lemma_mods_set_contains(h: HotkeyConfig, x: Seq<char>)
    ensures
        mods_set(h).contains(x) <==> has_folded_mod(h, x),
{
    let folded = folded_mods(h);
    assert(folded.len() == h.modifiers@.len());
    assert(forall|i: int|
        0 <= i < folded.len() ==> folded[i] == lower_seq(h.modifiers@[i]@));
    if mods_set(h).contains(x) {
        assert(folded.contains(x));
        let i = choose|i: int| 0 <= i < folded.len() && folded[i] == x;
        assert(lower_seq(h.modifiers@[i]@) == x);
    }
    if has_folded_mod(h, x) {
        let i = choose|i: int| 0 <= i < h.modifiers@.len() && lower_seq(h.modifiers@[i]@) == x;
        assert(folded[i] == x);
        assert(folded.contains(x));
    }
}

impl HotkeyConfig {
    /// Decides whether `self` and `other` are the same hotkey: keys equal
    /// up to case, and the case-folded modifier sets equal. Case folding is
    /// ASCII-only, which covers the whole hotkey vocabulary.
    pub fn is_same_as(&self, other: &HotkeyConfig) -> (r: bool)
        ensures
            r == same_hotkey(*self, *other),
    {
        let ka = to_lower(self.key.as_str());
        let kb = to_lower(other.key.as_str());
        if !str_eq(ka.as_str(), kb.as_str()) {
            return false;
        }
        let ab = mods_included(&self.modifiers, &other.modifiers);
        let ba = mods_included(&other.modifiers, &self.modifiers);
        proof {
            if ab && ba {
                assert forall|x: Seq<char>| mods_set(*self).contains(x)
                    implies mods_set(*other).contains(x) by {
                    lemma_mods_set_contains(*self, x);
                    lemma_mods_set_contains(*other, x);
                    let i = choose|j: int|
                        0 <= j < self.modifiers@.len() && #[trigger] lower_seq(
                            self.modifiers@[j]@,
                        ) == x;
                    assert(seq_has_folded(other.modifiers@, lower_seq(self.modifiers@[i]@)));
                }
                assert forall|x: Seq<char>| mods_set(*other).contains(x)
                    implies mods_set(*self).contains(x) by {
                    lemma_mods_set_contains(*other, x);
                    lemma_mods_set_contains(*self, x);
                    let j = choose|k: int|
                        0 <= k < other.modifiers@.len() && #[trigger] lower_seq(
                            other.modifiers@[k]@,
                        ) == x;
                    assert(seq_has_folded(self.modifiers@, lower_seq(other.modifiers@[j]@)));
                }
                assert(mods_set(*self) =~= mods_set(*other));
            }
            if !ab {
                let i = choose|i: int|
                    0 <= i < self.modifiers@.len() && !#[trigger] seq_has_folded(
                        other.modifiers@,
                        lower_seq(self.modifiers@[i]@),
                    );
                let x = lower_seq(self.modifiers@[i]@);
                lemma_mods_set_contains(*self, x);
                lemma_mods_set_contains(*other, x);
                assert(seq_has_folded(self.modifiers@, x));
                assert(mods_set(*self).contains(x));
                assert(!mods_set(*other).contains(x));
            }
            if !ba {
                let j = choose|j: int|
                    0 <= j < other.modifiers@.len() && !#[trigger] seq_has_folded(
                        self.modifiers@,
                        lower_seq(other.modifiers@[j]@),
                    );
                let x = lower_seq(other.modifiers@[j]@);
                lemma_mods_set_contains(*other, x);
                lemma_mods_set_contains(*self, x);
                assert(seq_has_folded(other.modifiers@, x));
                assert(mods_set(*other).contains(x));
                assert(!mods_set(*self).contains(x));
            }
        }
        ab && ba
    }

    /// Builds the display string: lower-cased modifiers in insertion order,
    /// then the key verbatim, joined by `'+'`.
    pub fn to_shortcut_string(&self) -> (r: String)
        ensures
            r@ == shortcut_string_spec(*self),
    {
        let mut parts: Vec<String> = Vec::new();
        let mut i: usize = 0;
        while i < self.modifiers.len()
            invariant
                i <= self.modifiers@.len(),
                parts@.len() == i,
                forall|k: int|
                    0 <= k < i ==> parts@.map_values(|p: String| p@)[k] == lower_seq(
                        self.modifiers@[k]@,
                    ),
            decreases self.modifiers@.len() - i,
        {
            let low = to_lower(self.modifiers[i].as_str());
            parts.push(low);
            i = i + 1;
        }
        parts.push(String::from_str(self.key.as_str()));
        proof {
            assert(parts@.map_values(|p: String| p@) =~= folded_mods(*self) + seq![self.key@]);
        }
        join_segments(&parts)
    }

    /// Parses the hotkey into the global-hotkey vocabulary. Succeeds exactly
    /// when every modifier token and the key token are recognized; this is a
    /// validation gate, registration itself is outside the library.
    pub fn to_shortcut(&self) -> (r: Result<ParsedShortcut, String>)
        ensures
            r is Ok <==> hotkey_parses(*self),
            r is Ok ==> (r->Ok_0).control == has_canonical_mod(*self, "control"@),
            r is Ok ==> (r->Ok_0).alt == has_canonical_mod(*self, "alt"@),
            r is Ok ==> (r->Ok_0).shift == has_canonical_mod(*self, "shift"@),
            r is Ok ==> (r->Ok_0).super_key == has_canonical_mod(*self, "super"@),
            r is Ok ==> (r->Ok_0).key@ == lower_seq(self.key@),
            r is Err && (exists|i: int|
                0 <= i < self.modifiers@.len() && !modifier_token_ok(self.modifiers@[i]@))
                ==> (r->Err_0)@ == "shortcut has an unrecognized modifier"@,
            r is Err && (forall|i: int|
                0 <= i < self.modifiers@.len() ==> modifier_token_ok(self.modifiers@[i]@))
                ==> (r->Err_0)@ == "shortcut has an unrecognized key"@,
    {
        let mut control = false;
        let mut alt = false;
        let mut shift = false;
        let mut super_key = false;
        let mut i: usize = 0;
        while i < self.modifiers.len()
            invariant
                i <= self.modifiers@.len(),
                forall|k: int| 0 <= k < i ==> modifier_token_ok(self.modifiers@[k]@),
                control == (exists|k: int|
                    0 <= k < i && canonical_segment(self.modifiers@[k]@) == "control"@),
                alt == (exists|k: int|
                    0 <= k < i && canonical_segment(self.modifiers@[k]@) == "alt"@),
                shift == (exists|k: int|
                    0 <= k < i && canonical_segment(self.modifiers@[k]@) == "shift"@),
                super_key == (exists|k: int|
                    0 <= k < i && canonical_segment(self.modifiers@[k]@) == "super"@),
            decreases self.modifiers@.len() - i,
        {
            let c = canonical_token(self.modifiers[i].as_str());
            proof {
                reveal_strlit("control");
                reveal_strlit("alt");
                reveal_strlit("shift");
                reveal_strlit("super");
            }
            if str_eq(c.as_str(), "control") {
                control = true;
            } else if str_eq(c.as_str(), "alt") {
                alt = true;
            } else if str_eq(c.as_str(), "shift") {
                shift = true;
            } else if str_eq(c.as_str(), "super") {
                super_key = true;
            } else {
                proof {
                    assert(!modifier_token_ok(self.modifiers@[i as int]@));
                }
                return Err(String::from_str("shortcut has an unrecognized modifier"));
            }
            proof {
                reveal_strlit("control");
                reveal_strlit("alt");
                reveal_strlit("shift");
                reveal_strlit("super");
                // the four canonical names are pairwise distinct: three have
                // distinct lengths, and "shift" and "super" differ at index 1
                assert("control"@.len() == 7);
                assert("alt"@.len() == 3);
                assert("shift"@.len() == 5);
                assert("super"@.len() == 5);
                assert("shift"@[1] == 'h' && "super"@[1] == 'u');
                assert(c@ == canonical_segment(self.modifiers@[i as int]@));
            }
            i = i + 1;
        }
        let low = to_lower(self.key.as_str());
        if !key_token_exec(low.as_str()) {
            proof {
                assert(lower_seq(lower_seq(self.key@)) =~= lower_seq(self.key@));
            }
            return Err(String::from_str("shortcut has an unrecognized key"));
        }
        proof {
            assert(lower_seq(lower_seq(self.key@)) =~= lower_seq(self.key@));
        }
        Ok(ParsedShortcut { control, alt, shift, super_key, key: low })
    }

    /// The factory default for the toggle-recording hotkey.
    pub fn default_toggle() -> (h: HotkeyConfig)
        ensures
            is_default_toggle(h),
    {
        let mut mods: Vec<String> = Vec::new();
        mods.push(String::from_str("Ctrl"));
        mods.push(String::from_str("Alt"));
        HotkeyConfig { key: String::from_str("Space"), modifiers: mods }
    }

    /// The factory default for the hold-to-record hotkey.
    pub fn default_hold() -> (h: HotkeyConfig)
        ensures
            is_default_hold(h),
    {
        let mut mods: Vec<String> = Vec::new();
        mods.push(String::from_str("Ctrl"));
        HotkeyConfig { key: String::from_str("Space"), modifiers: mods }
    }

    /// The factory default for the paste-last-transcript hotkey.
    pub fn default_paste_last() -> (h: HotkeyConfig)
        ensures
            is_default_paste_last(h),
    {
        let mut mods: Vec<String> = Vec::new();
        mods.push(String::from_str("Ctrl"));
        mods.push(String::from_str("Alt"));
        HotkeyConfig { key: String::from_str("V"), modifiers: mods }
    }
}

/// Decides whether the case-folded form of the key token is in the
/// vocabulary; takes the already lower-cased token.
fn key_token_exec(low: &str) -> (r: bool)
    ensures
        r == (single_key_char(low@) || named_key(low@)),
{
    let len = low.unicode_len();
    if len == 1 {
        let c = low.get_char(0);
        let n = c as u32;
        if (97 <= n && n <= 122) || (48 <= n && n <= 57) {
            return true;
        }
    }
    str_eq(low, "space") || str_eq(low, "backquote") || str_eq(low, "enter") || str_eq(
        low,
        "tab",
    ) || str_eq(low, "escape") || str_eq(low, "backspace") || str_eq(low, "delete") || str_eq(
        low,
        "home",
    ) || str_eq(low, "end") || str_eq(low, "pageup") || str_eq(low, "pagedown") || str_eq(
        low,
        "up",
    ) || str_eq(low, "down") || str_eq(low, "left") || str_eq(low, "right") || function_key_exec(
        low,
    )
}

/// Decides whether the token is a function key; takes the already
/// lower-cased token.
fn function_key_exec(low: &str) -> (r: bool)
    ensures
        r == function_key(low@),
{
    str_eq(low, "f1") || str_eq(low, "f2") || str_eq(low, "f3") || str_eq(low, "f4") || str_eq(
        low,
        "f5",
    ) || str_eq(low, "f6") || str_eq(low, "f7") || str_eq(low, "f8") || str_eq(low, "f9")
        || str_eq(low, "f10") || str_eq(low, "f11") || str_eq(low, "f12")
}

/// Decides whether every case-folded modifier of `xs` occurs, case-folded,
/// in `ys`.
fn mods_included(xs: &Vec<String>, ys: &Vec<String>) -> (r: bool)
    ensures
        r == (forall|i: int|
            0 <= i < xs@.len() ==> #[trigger] seq_has_folded(ys@, lower_seq(xs@[i]@))),
{
    let mut i: usize = 0;
    while i < xs.len()
        invariant
            i <= xs@.len(),
            forall|k: int|
                0 <= k < i ==> #[trigger] seq_has_folded(ys@, lower_seq(xs@[k]@)),
        decreases xs@.len() - i,
    {
        let low = to_lower(xs[i].as_str());
        if !mod_present(ys, low.as_str()) {
            return false;
        }
        i = i + 1;
    }
    true
}

/// Decides whether some modifier of `list` case-folds to `needle`; takes an
/// already lower-cased needle.
fn mod_present(list: &Vec<String>, needle: &str) -> (r: bool)
    ensures
        r == seq_has_folded(list@, needle@),
{
    let mut j: usize = 0;
    while j < list.len()
        invariant
            j <= list@.len(),
            forall|k: int| 0 <= k < j ==> lower_seq(list@[k]@) != needle@,
        decreases list@.len() - j,
    {
        let low = to_lower(list[j].as_str());
        if str_eq(low.as_str(), needle) {
            return true;
        }
        j = j + 1;
    }
    false
}

/// Law: hotkeys that differ only in the order of their modifiers are the
/// same hotkey.
pub proof fn lemma_same_under_modifier_reorder(a: HotkeyConfig, b: HotkeyConfig)
    requires
        a.key@ == b.key@,
        mods_view(a).to_multiset() == mods_view(b).to_multiset(),
    ensures
        same_hotkey(a, b),
{
    broadcast use vstd::seq_lib::group_to_multiset_ensures;

    assert forall|x: Seq<char>| has_folded_mod(a, x) implies has_folded_mod(b, x) by {
        let i = choose|i: int| 0 <= i < a.modifiers@.len() && lower_seq(a.modifiers@[i]@) == x;
        let m = mods_view(a)[i];
        assert(mods_view(a).contains(m));
        assert(mods_view(b).to_multiset().count(m) > 0);
        assert(mods_view(b).contains(m));
        let j = choose|j: int| 0 <= j < mods_view(b).len() && mods_view(b)[j] == m;
        assert(lower_seq(b.modifiers@[j]@) == x);
    }
    assert forall|x: Seq<char>| has_folded_mod(b, x) implies has_folded_mod(a, x) by {
        let j = choose|j: int| 0 <= j < b.modifiers@.len() && lower_seq(b.modifiers@[j]@) == x;
        let m = mods_view(b)[j];
        assert(mods_view(b).contains(m));
        assert(mods_view(a).to_multiset().count(m) > 0);
        assert(mods_view(a).contains(m));
        let i = choose|i: int| 0 <= i < mods_view(a).len() && mods_view(a)[i] == m;
        assert(lower_seq(a.modifiers@[i]@) == x);
    }
    assert forall|x: Seq<char>|
        mods_set(a).contains(x) <==> mods_set(b).contains(x) by {
        lemma_mods_set_contains(a, x);
        lemma_mods_set_contains(b, x);
    }
    assert(mods_set(a) =~= mods_set(b));
}

/// Law: hotkeys whose keys and modifiers differ only in ASCII case are the
/// same hotkey.
pub proof fn lemma_same_under_case_change(a: HotkeyConfig, b: HotkeyConfig)
    requires
        case_variant(a, b),
    ensures
        same_hotkey(a, b),
{
    assert(folded_mods(a) =~= folded_mods(b));
}

/// The three factory defaults are mutually non-colliding, which is why
/// resetting the slots to them needs no conflict validation.
pub proof fn lemma_defaults_mutually_distinct(t: HotkeyConfig, h: HotkeyConfig, p: HotkeyConfig)
    requires
        is_default_toggle(t),
        is_default_hold(h),
        is_default_paste_last(p),
    ensures
        !same_hotkey(t, h),
        !same_hotkey(t, p),
        !same_hotkey(h, p),
{
    reveal_strlit("Space");
    reveal_strlit("V");
    reveal_strlit("Ctrl");
    reveal_strlit("Alt");
    reveal_strlit("space");
    reveal_strlit("v");
    reveal_strlit("ctrl");
    reveal_strlit("alt");
    assert(lower_seq("Space"@) =~= "space"@);
    assert(lower_seq("V"@) =~= "v"@);
    assert(lower_seq("Ctrl"@) =~= "ctrl"@);
    assert(lower_seq("Alt"@) =~= "alt"@);
    // toggle and hold share the key but differ in the modifier sets: only
    // toggle carries the folded modifier "alt".
    lemma_mods_set_contains(t, "alt"@);
    lemma_mods_set_contains(h, "alt"@);
    assert(lower_seq(t.modifiers@[1]@) == "alt"@);
    assert(mods_set(t).contains("alt"@));
    assert("ctrl"@.len() == 4 && "alt"@.len() == 3);
    assert(!has_folded_mod(h, "alt"@));
    assert(!mods_set(h).contains("alt"@));
    // the paste-last key differs from the other two keys.
    assert("space"@.len() == 5 && "v"@.len() == 1);
}

/// Law: hotkeys whose case-folded modifier sets have different cardinality
/// are never the same hotkey.
pub proof fn lemma_different_cardinality_not_same(a: HotkeyConfig, b: HotkeyConfig)
    requires
        mods_set(a).len() != mods_set(b).len(),
    ensures
        !same_hotkey(a, b),
{
}

} // verus!

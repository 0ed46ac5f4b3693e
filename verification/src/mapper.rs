//! The layout table builder and the lookup operation.
//!
//! A [`LinuxKeyboardMapper`] is built once per layout/group activation from a
//! snapshot of host layout queries — one [`KeyQuery`] per typeable scan code,
//! in the enumeration order of [`scan_code_list`] — and is never mutated
//! afterwards; a layout or group change builds a fresh mapper.  Three
//! sub-tables are kept: `letters` (alphabetic keys, always resolvable and
//! shift-invariant), `code_to_key` (non-letter keys, unshifted) and
//! `code_to_shifted_key` (non-letter keys with shift applied).

use std::collections::HashMap;
use vstd::prelude::*;
use vstd::seq_lib::lemma_seq_contains_after_push;
use vstd::string::StrSliceExecFns;

use crate::dead_keys::spec_underlying_dead_key;
use crate::dead_keys::underlying_dead_key;
use crate::modifiers::Modifiers;
use crate::scan_codes::{code_at, letter_count, letter_name, scan_code_count, scan_code_list};
use crate::scan_codes::LinuxScanCodes;

verus! {

broadcast use vstd::std_specs::hash::group_hash_axioms;

/// The active layout's stable identifier, as reported to the application.
pub struct LinuxKeyboardLayout {
    id: String,
}

impl LinuxKeyboardLayout {
    /// The identifier this layout was created with.
    pub closed spec fn spec_id(self) -> Seq<char> {
        self.id@
    }

    pub fn new(id: String) -> (layout: Self)
        ensures
            layout.spec_id() == id@,
    {
        LinuxKeyboardLayout { id }
    }

    /// The layout's stable identifier string.
    pub fn id(&self) -> (id: &str)
        ensures
            id@ == self.spec_id(),
    {
        self.id.as_str()
    }

    /// The layout's display name; the identifier doubles as the name.
    pub fn name(&self) -> (name: &str)
        ensures
            name@ == self.spec_id(),
    {
        self.id.as_str()
    }
}

/// The keyboard group to activate: the requested group, or the primary
/// group (group 0) when none was requested.
pub fn effective_group(group: Option<u32>) -> (g: u32)
    ensures
        g == (match group {
            Some(requested) => requested,
            None => 0u32,
        }),
{
    match group {
        Some(requested) => requested,
        None => 0,
    }
}

/// What the host layout service reported for one scan code: the character
/// string and the single symbolic keysym, each queried once against the
/// unshifted state and once against the shifted state.  An empty string
/// means the state assigns no visible character (possibly a dead key, whose
/// keysym then matters).
pub struct KeyQuery {
    pub key: String,
    pub keysym: u32,
    pub shifted_key: String,
    pub shifted_keysym: u32,
}

/// The mathematical content of a [`KeyQuery`].
pub struct KeyQueryView {
    pub key: Seq<char>,
    pub keysym: u32,
    pub shifted_key: Seq<char>,
    pub shifted_keysym: u32,
}

impl View for KeyQuery {
    type V = KeyQueryView;

    open spec fn view(&self) -> KeyQueryView {
        KeyQueryView {
            key: self.key@,
            keysym: self.keysym,
            shifted_key: self.shifted_key@,
            shifted_keysym: self.shifted_keysym,
        }
    }
}

impl DeepView for KeyQuery {
    type V = KeyQueryView;

    open spec fn deep_view(&self) -> KeyQueryView {
        self.view()
    }
}

/// A key string that is exactly one of the 26 lowercase ASCII Latin letters.
pub open spec fn is_letter_key(key: Seq<char>) -> bool {
    key.len() == 1 && 'a' as u32 <= key[0] as u32 && key[0] as u32 <= 'z' as u32
}

/// Whether `key` is exactly one of the 26 lowercase ASCII Latin letters.
pub fn key_is_a_letter(key: &str) -> (is_letter: bool)
    ensures
        is_letter == is_letter_key(key@),
{
    if key.unicode_len() == 1 {
        let c = key.get_char(0);
        'a' as u32 <= c as u32 && c as u32 <= 'z' as u32
    } else {
        false
    }
}

/// Character-wise string equality.
fn str_eq(a: &str, b: &str) -> (eq: bool)
    ensures
        eq == (a@ == b@),
{
    let a_len = a.unicode_len();
    let b_len = b.unicode_len();
    if a_len != b_len {
        return false;
    }
    let mut i: usize = 0;
    while i < a_len
        invariant
            a_len == a@.len(),
            b_len == b@.len(),
            a_len == b_len,
            i <= a_len,
            forall|j: int| 0 <= j < i ==> a@[j] == b@[j],
        decreases a_len - i,
    {
        if a.get_char(i) != b.get_char(i) {
            return false;
        }
        i += 1;
    }
    proof {
        assert(a@ =~= b@);
    }
    true
}

/// The character a query resolves to for the unshifted state: the reported
/// string when there is one, otherwise the standalone glyph of the reported
/// dead-key keysym, otherwise nothing.
pub open spec fn primary_resolution(e: KeyQueryView) -> Option<Seq<char>> {
    if e.key.len() > 0 {
        Some(e.key)
    } else {
        spec_underlying_dead_key(e.keysym)
    }
}

/// The character a query resolves to for the shifted state.
pub open spec fn shifted_resolution(e: KeyQueryView) -> Option<Seq<char>> {
    if e.shifted_key.len() > 0 {
        Some(e.shifted_key)
    } else {
        spec_underlying_dead_key(e.shifted_keysym)
    }
}

/// Whether the query's unshifted resolution is routed to the letters table.
pub open spec fn routes_to_letters(e: KeyQueryView) -> bool {
    e.key.len() > 0 && is_letter_key(e.key)
}

/// What the query's unshifted resolution contributes to the non-letter
/// primary table: reported non-letter strings and dead-key glyphs.
pub open spec fn routes_to_primary(e: KeyQueryView) -> Option<Seq<char>> {
    if e.key.len() > 0 {
        if is_letter_key(e.key) {
            None
        } else {
            Some(e.key)
        }
    } else {
        spec_underlying_dead_key(e.keysym)
    }
}

/// The letters table after processing the first `n` queries (before the
/// letter-fallback pass).
pub open spec fn letters_from_queries(s: Seq<KeyQueryView>, n: int) -> Map<u32, Seq<char>>
    decreases n,
{
    if n <= 0 {
        Map::empty()
    } else {
        let m = letters_from_queries(s, n - 1);
        if routes_to_letters(s[n - 1]) {
            m.insert(code_at(n - 1), s[n - 1].key)
        } else {
            m
        }
    }
}

/// The non-letter primary table after processing the first `n` queries.
pub open spec fn primary_from_queries(s: Seq<KeyQueryView>, n: int) -> Map<u32, Seq<char>>
    decreases n,
{
    if n <= 0 {
        Map::empty()
    } else {
        let m = primary_from_queries(s, n - 1);
        match routes_to_primary(s[n - 1]) {
            Some(k) => m.insert(code_at(n - 1), k),
            None => m,
        }
    }
}

/// The shifted table after processing the first `n` queries.
pub open spec fn shifted_from_queries(s: Seq<KeyQueryView>, n: int) -> Map<u32, Seq<char>>
    decreases n,
{
    if n <= 0 {
        Map::empty()
    } else {
        let m = shifted_from_queries(s, n - 1);
        match shifted_resolution(s[n - 1]) {
            Some(k) => m.insert(code_at(n - 1), k),
            None => m,
        }
    }
}

/// Whether some query among the first `n` resolves (unshifted) to exactly
/// the string `k`.  This models the builder's record of every key string it
/// inserted during the query pass.
pub open spec fn resolution_inserted(s: Seq<KeyQueryView>, n: int, k: Seq<char>) -> bool {
    exists|i: int| 0 <= i < n && primary_resolution(s[i]) == Some(k)
}

/// Whether the canonical letter of letter position `j` was never produced by
/// any query, so that the fallback pass must patch it in.
pub open spec fn letter_missing(s: Seq<KeyQueryView>, j: int) -> bool {
    !resolution_inserted(s, s.len() as int, letter_name(j))
}

/// The letters table after the fallback pass has patched the first `n`
/// letter positions.
pub open spec fn letters_with_fallback(s: Seq<KeyQueryView>, n: int) -> Map<u32, Seq<char>>
    decreases n,
{
    if n <= 0 {
        letters_from_queries(s, s.len() as int)
    } else {
        let m = letters_with_fallback(s, n - 1);
        if letter_missing(s, n - 1) {
            m.insert(code_at(n - 1), letter_name(n - 1))
        } else {
            m
        }
    }
}

/// The complete letters table a snapshot builds to.
pub open spec fn spec_letters_table(s: Seq<KeyQueryView>) -> Map<u32, Seq<char>> {
    letters_with_fallback(s, letter_count())
}

/// The complete non-letter primary table a snapshot builds to.
pub open spec fn spec_primary_table(s: Seq<KeyQueryView>) -> Map<u32, Seq<char>> {
    primary_from_queries(s, s.len() as int)
}

/// The complete shifted table a snapshot builds to.
pub open spec fn spec_shifted_table(s: Seq<KeyQueryView>) -> Map<u32, Seq<char>> {
    shifted_from_queries(s, s.len() as int)
}

/// The contents of one sub-table, abstracted to character sequences.
pub open spec fn table_view(m: Map<u32, String>) -> Map<u32, Seq<char>> {
    m.map_values(|v: String| v@)
}

/// Abstracting a sub-table commutes with an insertion.
proof fn lemma_table_view_insert(m: Map<u32, String>, code: u32, v: String)
    ensures
        table_view(m.insert(code, v)) == table_view(m).insert(code, v@),
{
    assert(table_view(m.insert(code, v)) =~= table_view(m).insert(code, v@));
}

/// The abstraction of an empty sub-table is empty.
proof fn lemma_table_view_empty()
    ensures
        table_view(Map::<u32, String>::empty()) == Map::<u32, Seq<char>>::empty(),
{
    assert(table_view(Map::<u32, String>::empty()) =~= Map::<u32, Seq<char>>::empty());
}

/// Whether some element of `haystack` equals `needle`, character for
/// character.
fn contains_str(haystack: &Vec<String>, needle: &str) -> (found: bool)
    ensures
        found == haystack.deep_view().contains(needle@),
{
    let ghost dv = haystack.deep_view();
    let mut i: usize = 0;
    while i < haystack.len()
        invariant
            dv == haystack.deep_view(),
            dv.len() == haystack@.len(),
            i <= haystack@.len(),
            forall|j: int| 0 <= j < i ==> dv[j] != needle@,
        decreases haystack@.len() - i,
    {
        if str_eq(haystack[i].as_str(), needle) {
            proof {
                assert(dv[i as int] == needle@);
            }
            return true;
        }
        proof {
            assert(dv[i as int] == haystack@[i as int]@);
        }
        i += 1;
    }
    proof {
        assert(!dv.contains(needle@));
    }
    false
}

/// The letters table after the fallback pass has patched the first `n`
/// letter positions, phrased over the builder's record of inserted key
/// strings: a canonical letter that the record lacks is force-inserted at
/// its canonical position.
pub open spec fn letters_patched(
    inserted: Seq<Seq<char>>,
    m0: Map<u32, Seq<char>>,
    n: int,
) -> Map<u32, Seq<char>>
    decreases n,
{
    if n <= 0 {
        m0
    } else {
        let m = letters_patched(inserted, m0, n - 1);
        if !inserted.contains(letter_name(n - 1)) {
            m.insert(code_at(n - 1), letter_name(n - 1))
        } else {
            m
        }
    }
}

/// The letter-fallback pass: force-insert the canonical ASCII letter at each
/// of the 26 letter positions whose letter no query produced, so that every
/// letter stays typeable under layouts or drivers that fail to report them.
pub fn insert_letters_if_missing(inserted: &Vec<String>, letters: &mut HashMap<u32, String>)
    ensures
        table_view(final(letters)@) == letters_patched(
            inserted.deep_view(),
            table_view(old(letters)@),
            letter_count(),
        ),
{
    let letter_codes = LinuxScanCodes::letter_codes();
    let mut j: usize = 0;
    while j < letter_codes.len()
        invariant
            letter_codes@ == scan_code_list().subrange(0, letter_count()),
            j <= letter_count(),
            table_view(letters@) == letters_patched(
                inserted.deep_view(),
                table_view(old(letters)@),
                j as int,
            ),
        decreases letter_count() - j,
    {
        let sc = letter_codes[j];
        proof {
            assert(sc == scan_code_list()[j as int]);
        }
        let key = sc.to_str();
        if !contains_str(inserted, key) {
            let keycode = sc.keycode();
            let ghost before = letters@;
            letters.insert(keycode, key.to_owned());
            proof {
                lemma_table_view_insert(before, keycode, letters@[keycode]);
                assert(table_view(letters@) == table_view(before).insert(code_at(j as int), letter_name(j as int)));
            }
        }
        j += 1;
    }
}

/// When the record of inserted strings captures exactly the resolutions of
/// the snapshot's queries, patching by the record is patching by the
/// snapshot.
proof fn lemma_patched_matches_fallback(s: Seq<KeyQueryView>, inserted: Seq<Seq<char>>, n: int)
    requires
        0 <= n <= letter_count(),
        forall|k: Seq<char>| #[trigger] inserted.contains(k) <==> resolution_inserted(
            s,
            s.len() as int,
            k,
        ),
    ensures
        letters_patched(inserted, letters_from_queries(s, s.len() as int), n)
            == letters_with_fallback(s, n),
    decreases n,
{
    if n > 0 {
        lemma_patched_matches_fallback(s, inserted, n - 1);
        assert(inserted.contains(letter_name(n - 1)) <==> !letter_missing(s, n - 1));
    }
}

/// The per-session lookup table from scan code to logical key.  Built once
/// from a layout snapshot; immutable afterwards.
pub struct LinuxKeyboardMapper {
    letters: HashMap<u32, String>,
    code_to_key: HashMap<u32, String>,
    code_to_shifted_key: HashMap<u32, String>,
}

impl LinuxKeyboardMapper {
    /// The letters sub-table: alphabetic keys, resolved shift-invariantly.
    pub closed spec fn letters_view(self) -> Map<u32, Seq<char>> {
        table_view(self.letters@)
    }

    /// The non-letter unshifted sub-table.
    pub closed spec fn primary_view(self) -> Map<u32, Seq<char>> {
        table_view(self.code_to_key@)
    }

    /// The non-letter shifted sub-table.
    pub closed spec fn shifted_view(self) -> Map<u32, Seq<char>> {
        table_view(self.code_to_shifted_key@)
    }

    /// What a lookup of `keycode` under `shift` returns: the letters entry
    /// regardless of shift, else the shifted entry when shift is held, else
    /// the primary entry; absence resolves to no character.
    pub open spec fn resolved_key(self, keycode: u32, shift: bool) -> Option<Seq<char>> {
        if self.letters_view().contains_key(keycode) {
            Some(self.letters_view()[keycode])
        } else if shift {
            if self.shifted_view().contains_key(keycode) {
                Some(self.shifted_view()[keycode])
            } else {
                None
            }
        } else {
            if self.primary_view().contains_key(keycode) {
                Some(self.primary_view()[keycode])
            } else {
                None
            }
        }
    }

    /// The shift flag after a lookup: shift survives only a letters-table
    /// hit; any other lookup under shift consumes the flag.
    pub open spec fn shift_after(self, keycode: u32, shift: bool) -> bool {
        shift && self.letters_view().contains_key(keycode)
    }

    /// Build the lookup table from a layout snapshot: one query per typeable
    /// scan code, in the enumeration order of [`scan_code_list`].
    ///
    /// For each scan code, a reported character string is routed to the
    /// letters table (single lowercase Latin letters) or to the primary
    /// table (anything else); an empty report falls back to the dead-key
    /// table via the reported keysym.  The shifted report fills the shifted
    /// table the same way.  Afterwards the letter-fallback pass patches in
    /// every canonical letter that no query produced.
    pub fn new(snapshot: Vec<KeyQuery>) -> (mapper: Self)
        requires
            snapshot@.len() == scan_code_count(),
        ensures
            mapper.letters_view() == spec_letters_table(snapshot.deep_view()),
            mapper.primary_view() == spec_primary_table(snapshot.deep_view()),
            mapper.shifted_view() == spec_shifted_table(snapshot.deep_view()),
    {
        let ghost s = snapshot.deep_view();
        let codes = LinuxScanCodes::all();
        let mut letters: HashMap<u32, String> = HashMap::new();
        let mut code_to_key: HashMap<u32, String> = HashMap::new();
        let mut code_to_shifted_key: HashMap<u32, String> = HashMap::new();
        let mut inserted: Vec<String> = Vec::new();
        proof {
            lemma_table_view_empty();
        }
        let mut i: usize = 0;
        while i < codes.len()
            invariant
                codes@ == scan_code_list(),
                s == snapshot.deep_view(),
                snapshot@.len() == scan_code_count(),
                s.len() == scan_code_count(),
                i <= scan_code_count(),
                table_view(letters@) == letters_from_queries(s, i as int),
                table_view(code_to_key@) == primary_from_queries(s, i as int),
                table_view(code_to_shifted_key@) == shifted_from_queries(s, i as int),
                forall|k: Seq<char>| #[trigger] inserted.deep_view().contains(k)
                    <==> resolution_inserted(s, i as int, k),
            decreases scan_code_count() - i,
        {
            let keycode = codes[i].keycode();
            let entry = &snapshot[i];
            proof {
                assert(s[i as int] == snapshot@[i as int].deep_view());
                assert(entry@ == s[i as int]);
            }
            let ghost dv0 = inserted.deep_view();
            let ghost letters0 = letters@;
            let ghost primary0 = code_to_key@;
            if !entry.key.as_str().is_empty() {
                if key_is_a_letter(entry.key.as_str()) {
                    letters.insert(keycode, entry.key.clone());
                    proof {
                        lemma_table_view_insert(letters0, keycode, letters@[keycode]);
                    }
                } else {
                    code_to_key.insert(keycode, entry.key.clone());
                    proof {
                        lemma_table_view_insert(primary0, keycode, code_to_key@[keycode]);
                    }
                }
                inserted.push(entry.key.clone());
                proof {
                    assert(inserted.deep_view() =~= dv0.push(s[i as int].key));
                }
            } else {
                match underlying_dead_key(entry.keysym) {
                    Some(key) => {
                        code_to_key.insert(keycode, key.clone());
                        proof {
                            lemma_table_view_insert(primary0, keycode, code_to_key@[keycode]);
                        }
                        inserted.push(key);
                        proof {
                            assert(spec_underlying_dead_key(s[i as int].keysym) matches Some(g)
                                && inserted.deep_view() =~= dv0.push(g));
                        }
                    },
                    None => {},
                }
            }
            let ghost shifted0 = code_to_shifted_key@;
            if !entry.shifted_key.as_str().is_empty() {
                code_to_shifted_key.insert(keycode, entry.shifted_key.clone());
                proof {
                    lemma_table_view_insert(shifted0, keycode, code_to_shifted_key@[keycode]);
                }
            } else {
                match underlying_dead_key(entry.shifted_keysym) {
                    Some(key) => {
                        code_to_shifted_key.insert(keycode, key);
                        proof {
                            lemma_table_view_insert(shifted0, keycode, code_to_shifted_key@[keycode]);
                        }
                    },
                    None => {},
                }
            }
            proof {
                let e = s[i as int];
                let n1 = (i + 1) as int;
                // The three tables advance by one unfolding of their
                // recursive definitions.
                assert(table_view(letters@) == letters_from_queries(s, n1));
                assert(table_view(code_to_key@) == primary_from_queries(s, n1));
                assert(table_view(code_to_shifted_key@) == shifted_from_queries(s, n1));
                // The record of inserted strings captures exactly the
                // resolutions of the first i + 1 queries.
                assert forall|k: Seq<char>| #[trigger] inserted.deep_view().contains(k)
                    <==> resolution_inserted(s, n1, k) by {
                    match primary_resolution(e) {
                        Some(k0) => {
                            lemma_seq_contains_after_push(dv0, k0, k);
                            if resolution_inserted(s, n1, k) {
                                let t = choose|t: int|
                                    0 <= t < n1 && primary_resolution(s[t]) == Some(k);
                                if t < i as int {
                                    assert(resolution_inserted(s, i as int, k));
                                    assert(dv0.contains(k));
                                }
                            }
                            if resolution_inserted(s, i as int, k) {
                                let t = choose|t: int|
                                    0 <= t < i && primary_resolution(s[t]) == Some(k);
                                assert(0 <= t < n1);
                            }
                            if k == k0 {
                                assert(resolution_inserted(s, n1, k));
                            }
                        },
                        None => {
                            if resolution_inserted(s, n1, k) {
                                let t = choose|t: int|
                                    0 <= t < n1 && primary_resolution(s[t]) == Some(k);
                                assert(t < i as int);
                                assert(resolution_inserted(s, i as int, k));
                            }
                            if resolution_inserted(s, i as int, k) {
                                let t = choose|t: int|
                                    0 <= t < i && primary_resolution(s[t]) == Some(k);
                                assert(0 <= t < n1);
                            }
                        },
                    }
                }
            }
            i += 1;
        }
        insert_letters_if_missing(&inserted, &mut letters);
        proof {
            lemma_patched_matches_fallback(s, inserted.deep_view(), letter_count());
        }
        LinuxKeyboardMapper { letters, code_to_key, code_to_shifted_key }
    }

    /// Resolve one key press.  Returns the logical key for `keycode` under
    /// the current modifier state, or `None` when the key produces no
    /// character — which is expected for scan codes outside the typeable
    /// set and for positions the layout leaves unassigned, never an error.
    ///
    /// When the shifted table answers the lookup, the caller's `shift` flag
    /// is cleared to signal that shift has been consumed; a letters-table
    /// hit leaves the modifier state untouched (letters are returned in
    /// lowercase canonical form and case is the caller's business).
    pub fn get_key(&self, keycode: u32, modifiers: &mut Modifiers) -> (key: Option<String>)
        ensures
            key.deep_view() == self.resolved_key(keycode, old(modifiers).shift),
            *final(modifiers) == (Modifiers {
                shift: self.shift_after(keycode, old(modifiers).shift),
                ..*old(modifiers)
            }),
    {
        if let Some(key) = self.letters.get(&keycode) {
            return Some(key.clone());
        }
        if modifiers.shift {
            modifiers.shift = false;
            match self.code_to_shifted_key.get(&keycode) {
                Some(key) => Some(key.clone()),
                None => None,
            }
        } else {
            match self.code_to_key.get(&keycode) {
                Some(key) => Some(key.clone()),
                None => None,
            }
        }
    }
}

} // verus!

//! The properties the mapper guarantees, stated and proved once and for all
//! snapshots: where each entry of a built table comes from, that the 26
//! letters are always resolvable, how shift is consumed, that absence is not
//! failure, and that rebuilding is deterministic.

use vstd::prelude::*;

use crate::dead_keys::spec_underlying_dead_key;
use crate::mapper::{
    letter_missing, letters_from_queries, letters_with_fallback, primary_from_queries,
    primary_resolution, resolution_inserted, routes_to_letters, routes_to_primary,
    shifted_from_queries, shifted_resolution, spec_letters_table, spec_primary_table,
    spec_shifted_table, is_letter_key, KeyQueryView, LinuxKeyboardMapper,
};
use crate::scan_codes::{code_at, lemma_codes_distinct, letter_count, letter_name, scan_code_count};

verus! {

/// Where each entry of the letters table comes from before the fallback
/// pass: position `i`'s keycode carries exactly the reported key of query
/// `i`, when that key is a single lowercase letter, and nothing otherwise.
proof fn lemma_letters_from_queries_at(s: Seq<KeyQueryView>, n: int, i: int)
    requires
        s.len() == scan_code_count(),
        0 <= n <= s.len(),
        0 <= i < scan_code_count(),
    ensures
        i < n && routes_to_letters(s[i]) ==> letters_from_queries(s, n).contains_key(code_at(i))
            && letters_from_queries(s, n)[code_at(i)] == s[i].key,
        i >= n || !routes_to_letters(s[i]) ==> !letters_from_queries(s, n).contains_key(
            code_at(i),
        ),
    decreases n,
{
    lemma_codes_distinct();
    if n > 0 {
        lemma_letters_from_queries_at(s, n - 1, i);
    }
}

/// Where each entry of the non-letter primary table comes from: position
/// `i`'s keycode carries the reported non-letter key, or the dead-key glyph
/// when nothing was reported, and nothing otherwise.
proof fn lemma_primary_from_queries_at(s: Seq<KeyQueryView>, n: int, i: int)
    requires
        s.len() == scan_code_count(),
        0 <= n <= s.len(),
        0 <= i < scan_code_count(),
    ensures
        i < n ==> (routes_to_primary(s[i]) matches Some(k) ==> primary_from_queries(
            s,
            n,
        ).contains_key(code_at(i)) && primary_from_queries(s, n)[code_at(i)] == k),
        i >= n || routes_to_primary(s[i]) is None ==> !primary_from_queries(s, n).contains_key(
            code_at(i),
        ),
    decreases n,
{
    lemma_codes_distinct();
    if n > 0 {
        lemma_primary_from_queries_at(s, n - 1, i);
    }
}

/// Where each entry of the shifted table comes from.
proof fn lemma_shifted_from_queries_at(s: Seq<KeyQueryView>, n: int, i: int)
    requires
        s.len() == scan_code_count(),
        0 <= n <= s.len(),
        0 <= i < scan_code_count(),
    ensures
        i < n ==> (shifted_resolution(s[i]) matches Some(k) ==> shifted_from_queries(
            s,
            n,
        ).contains_key(code_at(i)) && shifted_from_queries(s, n)[code_at(i)] == k),
        i >= n || shifted_resolution(s[i]) is None ==> !shifted_from_queries(s, n).contains_key(
            code_at(i),
        ),
    decreases n,
{
    lemma_codes_distinct();
    if n > 0 {
        lemma_shifted_from_queries_at(s, n - 1, i);
    }
}

/// How the fallback pass changes the letters table at position `i`: a
/// patched letter position carries its canonical letter; every other
/// position keeps its query-pass entry.
proof fn lemma_letters_with_fallback_at(s: Seq<KeyQueryView>, n: int, i: int)
    requires
        s.len() == scan_code_count(),
        0 <= n <= letter_count(),
        0 <= i < scan_code_count(),
    ensures
        i < n && letter_missing(s, i) ==> letters_with_fallback(s, n).contains_key(code_at(i))
            && letters_with_fallback(s, n)[code_at(i)] == letter_name(i),
        i >= n || !letter_missing(s, i) ==> {
            let queried = letters_from_queries(s, s.len() as int);
            &&& letters_with_fallback(s, n).contains_key(code_at(i)) == queried.contains_key(
                code_at(i),
            )
            &&& queried.contains_key(code_at(i)) ==> letters_with_fallback(s, n)[code_at(i)]
                == queried[code_at(i)]
        },
    decreases n,
{
    lemma_codes_distinct();
    if n > 0 {
        lemma_letters_with_fallback_at(s, n - 1, i);
    }
}

/// Where each entry of the complete letters table comes from: a letter
/// position whose canonical letter no query produced carries that canonical
/// letter; every other position carries the letter the host reported for
/// it, when it reported one.
pub proof fn lemma_letters_table_at(s: Seq<KeyQueryView>, i: int)
    requires
        s.len() == scan_code_count(),
        0 <= i < scan_code_count(),
    ensures
        i < letter_count() && letter_missing(s, i) ==> spec_letters_table(s).contains_key(
            code_at(i),
        ) && spec_letters_table(s)[code_at(i)] == letter_name(i),
        i >= letter_count() || !letter_missing(s, i) ==> {
            &&& spec_letters_table(s).contains_key(code_at(i)) == routes_to_letters(s[i])
            &&& routes_to_letters(s[i]) ==> spec_letters_table(s)[code_at(i)] == s[i].key
        },
{
    lemma_letters_with_fallback_at(s, letter_count(), i);
    lemma_letters_from_queries_at(s, s.len() as int, i);
}

/// Where each entry of the complete non-letter primary table comes from.
pub proof fn lemma_primary_table_at(s: Seq<KeyQueryView>, i: int)
    requires
        s.len() == scan_code_count(),
        0 <= i < scan_code_count(),
    ensures
        routes_to_primary(s[i]) matches Some(k) ==> spec_primary_table(s).contains_key(code_at(i))
            && spec_primary_table(s)[code_at(i)] == k,
        routes_to_primary(s[i]) is None ==> !spec_primary_table(s).contains_key(code_at(i)),
{
    lemma_primary_from_queries_at(s, s.len() as int, i);
}

/// Where each entry of the complete shifted table comes from.
pub proof fn lemma_shifted_table_at(s: Seq<KeyQueryView>, i: int)
    requires
        s.len() == scan_code_count(),
        0 <= i < scan_code_count(),
    ensures
        shifted_resolution(s[i]) matches Some(k) ==> spec_shifted_table(s).contains_key(code_at(i))
            && spec_shifted_table(s)[code_at(i)] == k,
        shifted_resolution(s[i]) is None ==> !spec_shifted_table(s).contains_key(code_at(i)),
{
    lemma_shifted_from_queries_at(s, s.len() as int, i);
}

/// Each of the 26 canonical letter names is a single lowercase letter.
pub proof fn lemma_letter_names_are_letters()
    ensures
        forall|j: int| 0 <= j < letter_count() ==> #[trigger] is_letter_key(letter_name(j)),
{
    reveal_strlit("a");
    reveal_strlit("b");
    reveal_strlit("c");
    reveal_strlit("d");
    reveal_strlit("e");
    reveal_strlit("f");
    reveal_strlit("g");
    reveal_strlit("h");
    reveal_strlit("i");
    reveal_strlit("j");
    reveal_strlit("k");
    reveal_strlit("l");
    reveal_strlit("m");
    reveal_strlit("n");
    reveal_strlit("o");
    reveal_strlit("p");
    reveal_strlit("q");
    reveal_strlit("r");
    reveal_strlit("s");
    reveal_strlit("t");
    reveal_strlit("u");
    reveal_strlit("v");
    reveal_strlit("w");
    reveal_strlit("x");
    reveal_strlit("y");
    reveal_strlit("z");
    assert forall|j: int| 0 <= j < letter_count() implies #[trigger] is_letter_key(
        letter_name(j),
    ) by {
        assert(is_letter_key(letter_name(j)));
    }
}

/// No dead-key glyph is a single lowercase letter, so dead keys never
/// satisfy a letter-fallback check.
pub proof fn lemma_dead_glyphs_not_letters(keysym: u32)
    ensures
        spec_underlying_dead_key(keysym) matches Some(g) ==> !is_letter_key(g),
{
    reveal_strlit("`");
    reveal_strlit("\u{b4}");
    reveal_strlit("^");
    reveal_strlit("~");
    reveal_strlit("\u{af}");
    reveal_strlit("\u{2d8}");
    reveal_strlit("\u{2d9}");
    reveal_strlit("\u{a8}");
    reveal_strlit("\u{2da}");
    reveal_strlit("\u{2dd}");
    reveal_strlit("\u{2c7}");
    reveal_strlit("\u{b8}");
    reveal_strlit("\u{2db}");
    reveal_strlit("\u{345}");
    reveal_strlit("\u{3099}");
    reveal_strlit("\u{309a}");
    reveal_strlit("\u{323}\u{323}");
    reveal_strlit("\u{321}");
    reveal_strlit("\u{31b}");
    reveal_strlit("\u{336}\u{336}");
    reveal_strlit("\u{313}\u{313}");
    reveal_strlit("\u{2bd}");
    reveal_strlit("\u{30f}");
    reveal_strlit("\u{2f3}");
    reveal_strlit("\u{331}");
    reveal_strlit("\u{a788}");
    reveal_strlit("\u{330}");
    reveal_strlit("\u{32e}");
    reveal_strlit("\u{324}");
    reveal_strlit("\u{32f}");
    reveal_strlit("\u{326}");
    reveal_strlit("\u{259}");
    reveal_strlit("\u{18f}");
}

/// Completeness of letters: letter position `j` always resolves to its
/// canonical lowercase letter, both when the host reports that letter for
/// the position and when no query produced the letter at all (so that the
/// fallback pass patched it in).  The one layout shape this cannot cover is
/// a remapping that reports `j`'s canonical letter at a *different*
/// position while reporting something else at `j` itself.
pub proof fn lemma_letter_completeness(s: Seq<KeyQueryView>, j: int)
    requires
        s.len() == scan_code_count(),
        0 <= j < letter_count(),
        s[j].key == letter_name(j) || letter_missing(s, j),
    ensures
        spec_letters_table(s).contains_key(code_at(j)),
        spec_letters_table(s)[code_at(j)] == letter_name(j),
{
    lemma_letter_names_are_letters();
    lemma_letters_table_at(s, j);
    if !letter_missing(s, j) {
        assert(is_letter_key(letter_name(j)));
        assert(routes_to_letters(s[j]));
    }
}

/// Completeness of letters under a host that reports no character strings
/// at all (the known interoperability gap this library exists to paper
/// over): every letter position is patched with its canonical letter,
/// whatever dead-key keysyms the host reported alongside.
pub proof fn lemma_letter_completeness_unreported(s: Seq<KeyQueryView>, j: int)
    requires
        s.len() == scan_code_count(),
        0 <= j < letter_count(),
        forall|i: int| 0 <= i < s.len() ==> (#[trigger] s[i].key).len() == 0,
    ensures
        spec_letters_table(s).contains_key(code_at(j)),
        spec_letters_table(s)[code_at(j)] == letter_name(j),
{
    lemma_letter_names_are_letters();
    assert(letter_missing(s, j)) by {
        if resolution_inserted(s, s.len() as int, letter_name(j)) {
            let t = choose|t: int|
                0 <= t < s.len() && primary_resolution(s[t]) == Some(letter_name(j));
            lemma_dead_glyphs_not_letters(s[t].keysym);
        }
    }
    lemma_letter_completeness(s, j);
}

/// Shift consumption: for a scan code outside the letters table with a
/// shifted entry, a lookup under shift returns the shifted glyph and
/// consumes the shift flag, and a second lookup without shift returns the
/// primary entry and leaves the flag untouched.
pub proof fn lemma_shift_consumption(m: LinuxKeyboardMapper, keycode: u32)
    requires
        !m.letters_view().contains_key(keycode),
        m.shifted_view().contains_key(keycode),
    ensures
        m.resolved_key(keycode, true) == Some(m.shifted_view()[keycode]),
        m.shift_after(keycode, true) == false,
        m.resolved_key(keycode, false) == (if m.primary_view().contains_key(keycode) {
            Some(m.primary_view()[keycode])
        } else {
            None
        }),
        m.shift_after(keycode, false) == false,
{
}

/// Dead-key decomposition: a scan code whose host query reports no string
/// resolves through the dead-key table — to the standalone glyph of its
/// keysym when one exists, and to no entry at all (hence "no character",
/// not an error) when the dead key has no representable glyph.
pub proof fn lemma_dead_key_decomposition(s: Seq<KeyQueryView>, i: int)
    requires
        s.len() == scan_code_count(),
        0 <= i < scan_code_count(),
        s[i].key.len() == 0,
    ensures
        spec_underlying_dead_key(s[i].keysym) matches Some(g) ==> spec_primary_table(
            s,
        ).contains_key(code_at(i)) && spec_primary_table(s)[code_at(i)] == g,
        spec_underlying_dead_key(s[i].keysym) is None ==> !spec_primary_table(s).contains_key(
            code_at(i),
        ),
{
    lemma_primary_table_at(s, i);
}

/// A keycode that is not a typeable scan code never enters any sub-table,
/// whatever the snapshot said.
pub proof fn lemma_untypeable_code_absent(s: Seq<KeyQueryView>, keycode: u32)
    requires
        s.len() == scan_code_count(),
        forall|i: int| 0 <= i < scan_code_count() ==> #[trigger] code_at(i) != keycode,
    ensures
        !spec_letters_table(s).contains_key(keycode),
        !spec_primary_table(s).contains_key(keycode),
        !spec_shifted_table(s).contains_key(keycode),
{
    lemma_untypeable_letters_from_queries(s, s.len() as int, keycode);
    lemma_untypeable_primary_from_queries(s, s.len() as int, keycode);
    lemma_untypeable_shifted_from_queries(s, s.len() as int, keycode);
    lemma_untypeable_letters_with_fallback(s, letter_count(), keycode);
}

proof fn lemma_untypeable_letters_from_queries(s: Seq<KeyQueryView>, n: int, keycode: u32)
    requires
        s.len() == scan_code_count(),
        0 <= n <= s.len(),
        forall|i: int| 0 <= i < scan_code_count() ==> #[trigger] code_at(i) != keycode,
    ensures
        !letters_from_queries(s, n).contains_key(keycode),
    decreases n,
{
    if n > 0 {
        lemma_untypeable_letters_from_queries(s, n - 1, keycode);
    }
}

proof fn lemma_untypeable_primary_from_queries(s: Seq<KeyQueryView>, n: int, keycode: u32)
    requires
        s.len() == scan_code_count(),
        0 <= n <= s.len(),
        forall|i: int| 0 <= i < scan_code_count() ==> #[trigger] code_at(i) != keycode,
    ensures
        !primary_from_queries(s, n).contains_key(keycode),
    decreases n,
{
    if n > 0 {
        lemma_untypeable_primary_from_queries(s, n - 1, keycode);
    }
}

proof fn lemma_untypeable_shifted_from_queries(s: Seq<KeyQueryView>, n: int, keycode: u32)
    requires
        s.len() == scan_code_count(),
        0 <= n <= s.len(),
        forall|i: int| 0 <= i < scan_code_count() ==> #[trigger] code_at(i) != keycode,
    ensures
        !shifted_from_queries(s, n).contains_key(keycode),
    decreases n,
{
    if n > 0 {
        lemma_untypeable_shifted_from_queries(s, n - 1, keycode);
    }
}

proof fn lemma_untypeable_letters_with_fallback(s: Seq<KeyQueryView>, n: int, keycode: u32)
    requires
        s.len() == scan_code_count(),
        0 <= n <= letter_count(),
        forall|i: int| 0 <= i < scan_code_count() ==> #[trigger] code_at(i) != keycode,
    ensures
        !letters_with_fallback(s, n).contains_key(keycode),
    decreases n,
{
    if n > 0 {
        lemma_untypeable_letters_with_fallback(s, n - 1, keycode);
    } else {
        lemma_untypeable_letters_from_queries(s, s.len() as int, keycode);
    }
}

/// Absence is not failure: a keycode present in no sub-table resolves to
/// "no character" under any modifier state — never an error.
pub proof fn lemma_absence_is_not_failure(m: LinuxKeyboardMapper, keycode: u32, shift: bool)
    requires
        !m.letters_view().contains_key(keycode),
        !m.primary_view().contains_key(keycode),
        !m.shifted_view().contains_key(keycode),
    ensures
        m.resolved_key(keycode, shift) is None,
{
}

/// Idempotent rebuild: two mappers built from snapshots with the same
/// mathematical content have identical sub-tables and answer every lookup
/// identically.
pub proof fn lemma_rebuild_deterministic(
    m1: LinuxKeyboardMapper,
    m2: LinuxKeyboardMapper,
    s: Seq<KeyQueryView>,
)
    requires
        m1.letters_view() == spec_letters_table(s),
        m1.primary_view() == spec_primary_table(s),
        m1.shifted_view() == spec_shifted_table(s),
        m2.letters_view() == spec_letters_table(s),
        m2.primary_view() == spec_primary_table(s),
        m2.shifted_view() == spec_shifted_table(s),
    ensures
        m1.letters_view() == m2.letters_view(),
        m1.primary_view() == m2.primary_view(),
        m1.shifted_view() == m2.shifted_view(),
        forall|keycode: u32, shift: bool| #[trigger]
            m1.resolved_key(keycode, shift) == m2.resolved_key(keycode, shift),
        forall|keycode: u32, shift: bool| #[trigger]
            m1.shift_after(keycode, shift) == m2.shift_after(keycode, shift),
{
}

} // verus!

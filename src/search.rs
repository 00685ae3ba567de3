use vstd::prelude::*;
use crate::text::{chars_of, push_char, views_of_strings};

verus! {

/// The lowercase form of `c` as `char::to_lowercase` gives it (one or more
/// characters).
pub uninterp spec fn char_lower(c: char) -> Seq<char>;

/// Relies on `char::to_lowercase`: the lowercase mapping of one character,
/// which depends on that character alone.
#[verifier::external_body]
fn lowercase_char(c: char) -> (r: String)
    ensures
        r@ == char_lower(c),
{
    c.to_lowercase().collect()
}

/// What a search compares a character by: the character itself when case
/// matters, else its lowercase form.
pub open spec fn char_key(c: char, case_sensitive: bool) -> Seq<char> {
    if case_sensitive {
        seq![c]
    } else {
        char_lower(c)
    }
}

/// The keys of the characters of `s`.
pub open spec fn char_keys(s: Seq<char>, case_sensitive: bool) -> Seq<Seq<char>> {
    s.map_values(|c: char| char_key(c, case_sensitive))
}

/// `needle` stands in `haystack` from unit `i` on.
pub open spec fn occurs_at(haystack: Seq<Seq<char>>, needle: Seq<Seq<char>>, i: int) -> bool {
    0 <= i && i + needle.len() <= haystack.len() && forall|j: int|
        0 <= j < needle.len() ==> #[trigger] haystack[i + j] == needle[j]
}

/// The occurrences of `needle` in `haystack[i..]`, found left to right without
/// overlap, as ranges `(start, end)` of unit offsets.
pub open spec fn occurrences_from(haystack: Seq<Seq<char>>, needle: Seq<Seq<char>>, i: int) -> Seq<(int, int)>
    decreases haystack.len() - i,
{
    if needle.len() == 0 || i < 0 || i + needle.len() > haystack.len() {
        Seq::empty()
    } else if occurs_at(haystack, needle, i) {
        seq![(i, i + needle.len())] + occurrences_from(haystack, needle, i + needle.len())
    } else {
        occurrences_from(haystack, needle, i + 1)
    }
}

/// Every occurrence of `needle` in `haystack`, left to right, without overlap,
/// comparing characters by their keys; none for an empty needle. Offsets
/// count characters.
pub open spec fn occurrences(haystack: Seq<char>, needle: Seq<char>, case_sensitive: bool) -> Seq<(int, int)> {
    occurrences_from(char_keys(haystack, case_sensitive), char_keys(needle, case_sensitive), 0)
}

pub open spec fn ranges_view(r: Seq<(usize, usize)>) -> Seq<(int, int)> {
    r.map_values(|p: (usize, usize)| (p.0 as int, p.1 as int))
}

/// The keys of the characters `cs`.
fn keys_of_chars(cs: &Vec<char>, case_sensitive: bool) -> (r: Vec<String>)
    ensures
        views_of_strings(r@) == char_keys(cs@, case_sensitive),
{
    let mut r: Vec<String> = Vec::new();
    let mut i: usize = 0;
    while i < cs.len()
        invariant
            i <= cs.len(),
            views_of_strings(r@) == char_keys(cs@, case_sensitive).take(i as int),
        decreases cs.len() - i,
    {
        let key = if case_sensitive {
            let mut k = String::new();
            push_char(&mut k, cs[i]);
            assert(k@ =~= seq![cs@[i as int]]);
            k
        } else {
            lowercase_char(cs[i])
        };
        let ghost before = r@;
        r.push(key);
        assert(views_of_strings(r@) =~= views_of_strings(before).push(key@));
        assert(char_keys(cs@, case_sensitive).take(i + 1) =~= char_keys(cs@, case_sensitive).take(
            i as int,
        ).push(key@));
        i += 1;
    }
    assert(char_keys(cs@, case_sensitive).take(i as int) =~= char_keys(cs@, case_sensitive));
    r
}

/// Whether `needle` stands in `haystack` from unit `i` on.
fn occurs_here(haystack: &Vec<String>, needle: &Vec<String>, i: usize) -> (r: bool)
    requires
        i + needle.len() <= haystack.len(),
    ensures
        r == occurs_at(views_of_strings(haystack@), views_of_strings(needle@), i as int),
{
    let ghost h = views_of_strings(haystack@);
    let ghost n = views_of_strings(needle@);
    let mut j: usize = 0;
    while j < needle.len()
        invariant
            i + needle.len() <= haystack.len(),
            j <= needle.len(),
            h == views_of_strings(haystack@),
            n == views_of_strings(needle@),
            forall|k: int| 0 <= k < j ==> #[trigger] h[i + k] == n[k],
        decreases needle.len() - j,
    {
        if haystack[i + j] != needle[j] {
            assert(h[i + j] != n[j as int]);
            return false;
        }
        j += 1;
    }
    true
}

/// The ranges of every occurrence of `needle` in `haystack`, both given as
/// sequences of units compared for equality, left to right and without
/// overlap; none for an empty needle.
pub fn find_unit_occurrences(haystack: &Vec<String>, needle: &Vec<String>) -> (r: Vec<(usize, usize)>)
    ensures
        ranges_view(r@) == occurrences_from(views_of_strings(haystack@), views_of_strings(needle@), 0),
{
    let ghost h = views_of_strings(haystack@);
    let ghost n = views_of_strings(needle@);
    let mut r: Vec<(usize, usize)> = Vec::new();
    if needle.len() == 0 {
        assert(ranges_view(r@) =~= Seq::empty());
        return r;
    }
    let mut i: usize = 0;
    while needle.len() <= haystack.len() - i
        invariant
            needle.len() > 0,
            i <= haystack.len(),
            h == views_of_strings(haystack@),
            n == views_of_strings(needle@),
            ranges_view(r@) + occurrences_from(h, n, i as int) == occurrences_from(h, n, 0),
        decreases haystack.len() - i,
    {
        if occurs_here(haystack, needle, i) {
            let end = i + needle.len();
            proof {
                assert(ranges_view(r@.push((i, end))) =~= ranges_view(r@).push((i as int, end as int)));
                assert(ranges_view(r@.push((i, end))) + occurrences_from(h, n, end as int) =~= ranges_view(r@)
                    + occurrences_from(h, n, i as int));
            }
            r.push((i, end));
            i = end;
        } else {
            i += 1;
        }
    }
    assert(ranges_view(r@) + occurrences_from(h, n, i as int) =~= ranges_view(r@));
    r
}

/// The ranges, in character offsets, of every occurrence of `needle` in
/// `haystack`, left to right and without overlap; case is ignored unless
/// `case_sensitive`.
pub fn find_all_occurrences(haystack: &str, needle: &str, case_sensitive: bool) -> (r: Vec<(usize, usize)>)
    ensures
        ranges_view(r@) == occurrences(haystack@, needle@, case_sensitive),
{
    let h = keys_of_chars(&chars_of(haystack), case_sensitive);
    let n = keys_of_chars(&chars_of(needle), case_sensitive);
    find_unit_occurrences(&h, &n)
}

/// The first entry of `pm[i..]` that belongs to match `g`.
pub open spec fn entry_index_from(pm: Seq<(usize, bool)>, g: usize, i: int) -> Option<int>
    decreases pm.len() - i,
{
    if i < 0 || i >= pm.len() {
        None
    } else if pm[i].0 == g {
        Some(i)
    } else {
        entry_index_from(pm, g, i + 1)
    }
}

/// How many of `pm[0..k]` are value matches.
pub open spec fn value_entries(pm: Seq<(usize, bool)>, k: int) -> nat
    decreases k,
{
    if k <= 0 {
        0
    } else {
        value_entries(pm, k - 1) + if pm[k - 1].1 {
            0nat
        } else {
            1nat
        }
    }
}

/// The range to highlight for match `g`, given the matches of its leaf as
/// `(global index, is key match)` in their order: none when `g` is not among
/// them or is a key match; else the occurrence in `text` whose rank among the
/// occurrences equals the rank of `g` among the leaf's value matches, if the
/// text has that many.
pub open spec fn highlight_range(
    pm: Seq<(usize, bool)>,
    g: usize,
    text: Seq<char>,
    query: Seq<char>,
    case_sensitive: bool,
) -> Option<(int, int)> {
    match entry_index_from(pm, g, 0) {
        None => None,
        Some(k) => if pm[k].1 {
            None
        } else {
            let occ = occurrences(text, query, case_sensitive);
            let rank = value_entries(pm, k);
            if rank < occ.len() {
                Some(occ[rank as int])
            } else {
                None
            }
        },
    }
}

pub open spec fn range_view(r: Option<(usize, usize)>) -> Option<(int, int)> {
    match r {
        Some(p) => Some((p.0 as int, p.1 as int)),
        None => None,
    }
}

/// The character range in `rendered_text` of match `global_index`, found again
/// among the occurrences of `query` there; see `highlight_range`.
pub fn resolve_highlight_range(
    path_matches: &Vec<(usize, bool)>,
    global_index: usize,
    rendered_text: &str,
    query: &str,
    case_sensitive: bool,
) -> (r: Option<(usize, usize)>)
    ensures
        range_view(r) == highlight_range(path_matches@, global_index, rendered_text@, query@, case_sensitive),
{
    let mut k: usize = 0;
    let mut rank: usize = 0;
    while k < path_matches.len()
        invariant
            k <= path_matches.len(),
            rank == value_entries(path_matches@, k as int),
            rank <= k,
            entry_index_from(path_matches@, global_index, 0) == entry_index_from(path_matches@, global_index, k as int),
        decreases path_matches.len() - k,
    {
        if path_matches[k].0 == global_index {
            if path_matches[k].1 {
                return None;
            }
            let occ = find_all_occurrences(rendered_text, query, case_sensitive);
            if rank < occ.len() {
                return Some(occ[rank]);
            } else {
                return None;
            }
        }
        if !path_matches[k].1 {
            rank += 1;
        }
        k += 1;
    }
    None
}

} // verus!

use vstd::prelude::*;
use crate::search::{find_all_occurrences, highlight_range, occurrences, range_view, resolve_highlight_range};
use crate::tree_model::{TreeNode, TreeNodeView};
use crate::value_formatting::{format_value_from_string, rendered_text};

verus! {

broadcast use vstd::seq_lib::group_seq_properties;

/// One occurrence of the query at a leaf: where the leaf stands in the forest
/// (its root's index, then the child index at each level), its path, and
/// whether the occurrence is in its label rather than in its text.
#[derive(Debug, PartialEq)]
pub struct SearchMatch {
    pub position: Vec<usize>,
    pub path: String,
    pub is_key_match: bool,
}

pub struct MatchView {
    pub position: Seq<usize>,
    pub path: Seq<char>,
    pub is_key_match: bool,
}

impl View for SearchMatch {
    type V = MatchView;

    open spec fn view(&self) -> MatchView {
        MatchView { position: self.position@, path: self.path@, is_key_match: self.is_key_match }
    }
}

pub open spec fn matches_view(ms: Seq<SearchMatch>) -> Seq<MatchView> {
    ms.map_values(|m: SearchMatch| m@)
}

/// The matches of one leaf: one key match per occurrence of the query in its
/// label, then one value match per occurrence in its shown text.
pub open spec fn leaf_matches(node: TreeNodeView, position: Seq<usize>, query: Seq<char>, case_sensitive: bool) -> Seq<MatchView> {
    let keys = occurrences(node.name, query, case_sensitive).len();
    let values = occurrences(rendered_text(node.full_value, node.preview), query, case_sensitive).len();
    Seq::new(keys, |i: int| MatchView { position, path: node.path, is_key_match: true }) + Seq::new(
        values,
        |i: int| MatchView { position, path: node.path, is_key_match: false },
    )
}

/// The matches of the leaves under `node` (itself, if it is a leaf), in
/// depth-first order with children in their stored order.
pub open spec fn node_matches(node: TreeNodeView, position: Seq<usize>, query: Seq<char>, case_sensitive: bool) -> Seq<MatchView>
    decreases node, 1nat,
{
    if node.children.len() == 0 {
        leaf_matches(node, position, query, case_sensitive)
    } else {
        child_matches(node, position, query, case_sensitive).flatten()
    }
}

/// The matches under each child of `node`, child by child.
pub open spec fn child_matches(node: TreeNodeView, position: Seq<usize>, query: Seq<char>, case_sensitive: bool) -> Seq<Seq<MatchView>>
    decreases node, 0nat,
{
    Seq::new(
        node.children.len(),
        |i: int|
            if 0 <= i < node.children.len() {
                node_matches(node.children[i], position.push(i as usize), query, case_sensitive)
            } else {
                Seq::empty()
            },
    )
}

/// The matches in a forest of trees, root by root.
pub open spec fn forest_matches(roots: Seq<TreeNodeView>, query: Seq<char>, case_sensitive: bool) -> Seq<MatchView> {
    Seq::new(roots.len(), |i: int| node_matches(roots[i], seq![i as usize], query, case_sensitive)).flatten()
}

fn extend_position(position: &Vec<usize>, i: usize) -> (r: Vec<usize>)
    ensures
        r@ == position@.push(i),
{
    let mut r = copy_position(position);
    r.push(i);
    r
}

/// Appends `count` matches of one kind for the leaf `node` at `position`.
fn push_matches(
    out: &mut Vec<SearchMatch>,
    node: &TreeNode,
    position: &Vec<usize>,
    is_key_match: bool,
    count: usize,
)
    ensures
        matches_view(final(out)@) == matches_view(old(out)@) + Seq::new(
            count as nat,
            |i: int| MatchView { position: position@, path: node.path@, is_key_match },
        ),
{
    let ghost start = matches_view(out@);
    let mut k: usize = 0;
    while k < count
        invariant
            k <= count,
            start == matches_view(old(out)@),
            matches_view(out@) == start + Seq::new(
                k as nat,
                |i: int| MatchView { position: position@, path: node.path@, is_key_match },
            ),
        decreases count - k,
    {
        let m = SearchMatch {
            position: copy_position(position),
            path: node.path.clone(),
            is_key_match,
        };
        let ghost before = out@;
        out.push(m);
        proof {
            assert(matches_view(out@) =~= matches_view(before).push(m@));
            assert(Seq::new(
                (k + 1) as nat,
                |i: int| MatchView { position: position@, path: node.path@, is_key_match },
            ) =~= Seq::new(
                k as nat,
                |i: int| MatchView { position: position@, path: node.path@, is_key_match },
            ).push(m@));
        }
        k += 1;
        assert(matches_view(out@) =~= start + Seq::new(
            k as nat,
            |i: int| MatchView { position: position@, path: node.path@, is_key_match },
        ));
    }
}

fn copy_position(position: &Vec<usize>) -> (r: Vec<usize>)
    ensures
        r@ == position@,
{
    let mut r: Vec<usize> = Vec::new();
    let mut k: usize = 0;
    while k < position.len()
        invariant
            k <= position.len(),
            r@ == position@.take(k as int),
        decreases position.len() - k,
    {
        r.push(position[k]);
        k += 1;
        assert(r@ =~= position@.take(k as int));
    }
    assert(position@.take(k as int) =~= position@);
    r
}

/// Appends the matches of the leaves under `node`.
fn collect_matches(
    node: &TreeNode,
    position: &Vec<usize>,
    query: &str,
    case_sensitive: bool,
    out: &mut Vec<SearchMatch>,
)
    ensures
        matches_view(final(out)@) == matches_view(old(out)@) + node_matches(
            node@,
            position@,
            query@,
            case_sensitive,
        ),
    decreases node@,
{
    if node.children.len() == 0 {
        let keys = find_all_occurrences(node.name.as_str(), query, case_sensitive);
        push_matches(out, node, position, true, keys.len());
        let shown = format_value_from_string(node.full_value.as_str(), node.preview.as_str());
        let values = find_all_occurrences(shown.as_str(), query, case_sensitive);
        push_matches(out, node, position, false, values.len());
        proof {
            assert(keys@.len() == occurrences(node@.name, query@, case_sensitive).len()) by {
                assert(keys@.len() == crate::search::ranges_view(keys@).len());
            }
            assert(values@.len() == occurrences(rendered_text(node@.full_value, node@.preview), query@, case_sensitive).len()) by {
                assert(values@.len() == crate::search::ranges_view(values@).len());
            }
        }
        assert(matches_view(out@) =~= matches_view(old(out)@) + node_matches(
            node@,
            position@,
            query@,
            case_sensitive,
        ));
    } else {
        let ghost start = matches_view(out@);
        let ghost f = |i: int|
            if 0 <= i < node@.children.len() {
                node_matches(node@.children[i], position@.push(i as usize), query@, case_sensitive)
            } else {
                Seq::<MatchView>::empty()
            };
        let mut i: usize = 0;
        while i < node.children.len()
            invariant
                i <= node.children.len(),
                start == matches_view(old(out)@),
                node@.children.len() == node.children.len(),
                forall|j: int| 0 <= j < node@.children.len() ==> #[trigger] f(j) == node_matches(
                    node@.children[j],
                    position@.push(j as usize),
                    query@,
                    case_sensitive,
                ),
                matches_view(out@) == start + Seq::new(i as nat, f).flatten(),
            decreases node.children.len() - i,
        {
            proof {
                assert(node@.children[i as int] == node.children@[i as int]@);
                assert(decreases_to!(node@ => node@.children));
                assert(decreases_to!(node@ => node.children@[i as int]@));
            }
            let child_position = extend_position(position, i);
            let ghost before = matches_view(out@);
            collect_matches(&node.children[i], &child_position, query, case_sensitive, out);
            proof {
                assert((i as int) as usize == i);
                assert(node@.children[i as int] == node.children@[i as int]@);
                assert(f(i as int) == node_matches(node.children@[i as int]@, child_position@, query@, case_sensitive));
                assert(Seq::new((i + 1) as nat, f) =~= Seq::new(i as nat, f).push(f(i as int)));
                Seq::new(i as nat, f).lemma_flatten_push(f(i as int));
                assert(matches_view(out@) =~= start + Seq::new((i + 1) as nat, f).flatten());
            }
            i += 1;
        }
        assert(Seq::new(i as nat, f) =~= child_matches(node@, position@, query@, case_sensitive));
    }
}

/// All matches of `query` in the leaves of the trees `roots`, root by root, in
/// depth-first order; within one leaf, key matches come first.
pub fn search_forest(roots: &Vec<TreeNode>, query: &str, case_sensitive: bool) -> (r: Vec<SearchMatch>)
    ensures
        matches_view(r@) == forest_matches(roots@.map_values(|n: TreeNode| n@), query@, case_sensitive),
{
    let ghost views = roots@.map_values(|n: TreeNode| n@);
    let ghost f = |i: int| node_matches(views[i], seq![i as usize], query@, case_sensitive);
    let mut out: Vec<SearchMatch> = Vec::new();
    let mut i: usize = 0;
    while i < roots.len()
        invariant
            i <= roots.len(),
            views == roots@.map_values(|n: TreeNode| n@),
            forall|j: int| #[trigger] f(j) == node_matches(views[j], seq![j as usize], query@, case_sensitive),
            matches_view(out@) == Seq::new(i as nat, f).flatten(),
        decreases roots.len() - i,
    {
        let mut position: Vec<usize> = Vec::new();
        position.push(i);
        assert(position@ =~= seq![i]);
        collect_matches(&roots[i], &position, query, case_sensitive, &mut out);
        proof {
            assert((i as int) as usize == i);
            assert(views[i as int] == roots@[i as int]@);
            assert(f(i as int) == node_matches(roots@[i as int]@, position@, query@, case_sensitive));
            assert(Seq::new((i + 1) as nat, f) =~= Seq::new(i as nat, f).push(f(i as int)));
            Seq::new(i as nat, f).lemma_flatten_push(f(i as int));
            assert(matches_view(out@) =~= Seq::new((i + 1) as nat, f).flatten());
        }
        i += 1;
    }
    assert(Seq::new(i as nat, f) =~= Seq::new(views.len(), f));
    out
}

/// `a` comes no later than `b` in lexicographic order of equally long index
/// sequences.
pub open spec fn lex_le(a: Seq<usize>, b: Seq<usize>) -> bool
    decreases a.len(),
{
    if a.len() == 0 || b.len() == 0 {
        true
    } else if a[0] < b[0] {
        true
    } else if a[0] > b[0] {
        false
    } else {
        lex_le(a.drop_first(), b.drop_first())
    }
}

/// The leaf at `position` stands at or after the selection `current`: it lies
/// deeper, or as deep and no earlier in index order.
pub open spec fn at_or_after(current: Seq<usize>, position: Seq<usize>) -> bool {
    current.len() < position.len() || (current.len() == position.len() && lex_le(current, position))
}

/// The first match from `i` on whose leaf stands at or after `current`.
pub open spec fn first_at_or_after(ms: Seq<MatchView>, current: Seq<usize>, i: int) -> Option<int>
    decreases ms.len() - i,
{
    if i < 0 || i >= ms.len() {
        None
    } else if at_or_after(current, ms[i].position) {
        Some(i)
    } else {
        first_at_or_after(ms, current, i + 1)
    }
}

/// Where a fresh search starts: nowhere when nothing matched; else at the first
/// match at or after the selection, if there is a selection and such a match,
/// and at the first match otherwise.
pub open spec fn start_index(ms: Seq<MatchView>, selection: Option<Seq<usize>>) -> Option<int> {
    if ms.len() == 0 {
        None
    } else {
        match selection {
            Some(c) => match first_at_or_after(ms, c, 0) {
                Some(i) => Some(i),
                None => Some(0),
            },
            None => Some(0),
        }
    }
}

fn lex_le_exec(a: &Vec<usize>, b: &Vec<usize>) -> (r: bool)
    ensures
        r == lex_le(a@, b@),
{
    let mut k: usize = 0;
    while k < a.len() && k < b.len()
        invariant
            k <= a.len(),
            k <= b.len(),
            lex_le(a@, b@) == lex_le(a@.skip(k as int), b@.skip(k as int)),
        decreases a.len() - k,
    {
        proof {
            assert(a@.skip(k as int).drop_first() =~= a@.skip(k + 1));
            assert(b@.skip(k as int).drop_first() =~= b@.skip(k + 1));
        }
        if a[k] < b[k] {
            return true;
        }
        if a[k] > b[k] {
            return false;
        }
        k += 1;
    }
    true
}

fn at_or_after_exec(current: &Vec<usize>, position: &Vec<usize>) -> (r: bool)
    ensures
        r == at_or_after(current@, position@),
{
    if current.len() < position.len() {
        true
    } else if current.len() == position.len() {
        lex_le_exec(current, position)
    } else {
        false
    }
}

proof fn lemma_first_in_range(ms: Seq<MatchView>, current: Seq<usize>, i: int)
    ensures
        first_at_or_after(ms, current, i) matches Some(k) ==> i <= k < ms.len(),
    decreases ms.len() - i,
{
    if 0 <= i < ms.len() && !at_or_after(current, ms[i].position) {
        lemma_first_in_range(ms, current, i + 1);
    }
}

fn first_match_at_or_after(matches: &Vec<SearchMatch>, current: &Vec<usize>) -> (r: Option<usize>)
    ensures
        match r {
            Some(i) => first_at_or_after(matches_view(matches@), current@, 0) == Some(i as int),
            None => first_at_or_after(matches_view(matches@), current@, 0) is None,
        },
{
    let ghost ms = matches_view(matches@);
    let mut i: usize = 0;
    while i < matches.len()
        invariant
            i <= matches.len(),
            ms == matches_view(matches@),
            first_at_or_after(ms, current@, 0) == first_at_or_after(ms, current@, i as int),
        decreases matches.len() - i,
    {
        if at_or_after_exec(current, &matches[i].position) {
            return Some(i);
        }
        i += 1;
    }
    None
}

/// The state of a search over a forest of trees: the query, its case setting,
/// every match in order, and the match that is current.
pub struct SearchSession {
    query: String,
    case_sensitive: bool,
    matches: Vec<SearchMatch>,
    current: Option<usize>,
}

pub struct SessionView {
    pub query: Seq<char>,
    pub case_sensitive: bool,
    pub matches: Seq<MatchView>,
    pub current: Option<int>,
}

impl View for SearchSession {
    type V = SessionView;

    closed spec fn view(&self) -> SessionView {
        SessionView {
            query: self.query@,
            case_sensitive: self.case_sensitive,
            matches: matches_view(self.matches@),
            current: match self.current {
                Some(i) => Some(i as int),
                None => None,
            },
        }
    }
}

impl SessionView {
    /// The current match, if any, is one of the matches.
    pub open spec fn well_formed(self) -> bool {
        match self.current {
            Some(i) => 0 <= i < self.matches.len(),
            None => true,
        }
    }
}

impl SearchSession {
    /// The current match, if any, is one of the matches.
    #[verifier::type_invariant]
    spec fn current_in_range(&self) -> bool {
        match self.current {
            Some(i) => i < self.matches.len(),
            None => true,
        }
    }

    /// A session with no query and no matches.
    pub fn new() -> (r: SearchSession)
        ensures
            r@.well_formed(),
            r@.query.len() == 0,
            r@.matches.len() == 0,
            r@.current is None,
    {
        SearchSession { query: String::new(), case_sensitive: false, matches: Vec::new(), current: None }
    }

    /// Runs `query` over the leaves of `roots` and starts at the first match
    /// at or after `selection` (see `start_index`); an empty query clears
    /// the matches.
    pub fn search(
        &mut self,
        roots: &Vec<TreeNode>,
        query: &str,
        case_sensitive: bool,
        selection: Option<&Vec<usize>>,
    )
        ensures
            final(self)@.well_formed(),
            final(self)@.query == query@,
            final(self)@.case_sensitive == case_sensitive,
            final(self)@.matches == forest_matches(roots@.map_values(|n: TreeNode| n@), query@, case_sensitive),
            final(self)@.current == start_index(
                final(self)@.matches,
                match selection {
                    Some(c) => Some(c@),
                    None => None,
                },
            ),
    {
        let matches = search_forest(roots, query, case_sensitive);
        let mut start: Option<usize> = None;
        proof {
            match selection {
                Some(c) => lemma_first_in_range(matches_view(matches@), c@, 0),
                None => {},
            }
        }
        if matches.len() > 0 {
            start = match selection {
                Some(c) => match first_match_at_or_after(&matches, c) {
                    Some(i) => Some(i),
                    None => Some(0),
                },
                None => Some(0),
            };
        }
        *self = SearchSession { query: String::from_str(query), case_sensitive, matches, current: start };
    }

    /// Moves to the next match, from the last back to the first; nothing
    /// changes when there is no current match.
    pub fn next(&mut self)
        ensures
            final(self)@.well_formed(),
            final(self)@.query == old(self)@.query,
            final(self)@.case_sensitive == old(self)@.case_sensitive,
            final(self)@.matches == old(self)@.matches,
            final(self)@.current == match old(self)@.current {
                Some(i) => Some(if i + 1 == old(self)@.matches.len() { 0 } else { i + 1 }),
                None => None,
            },
    {
        proof {
            use_type_invariant(&*self);
        }
        if self.matches.len() == 0 {
            return;
        }
        match self.current {
            Some(i) => {
                let n = if i + 1 == self.matches.len() { 0 } else { i + 1 };
                self.current = Some(n);
            },
            None => {},
        }
    }

    /// Moves to the previous match, from the first back to the last; nothing
    /// changes when there is no current match.
    pub fn previous(&mut self)
        ensures
            final(self)@.well_formed(),
            final(self)@.query == old(self)@.query,
            final(self)@.case_sensitive == old(self)@.case_sensitive,
            final(self)@.matches == old(self)@.matches,
            final(self)@.current == match old(self)@.current {
                Some(i) => Some(if i == 0 { old(self)@.matches.len() - 1 } else { i - 1 }),
                None => None,
            },
    {
        proof {
            use_type_invariant(&*self);
        }
        if self.matches.len() == 0 {
            return;
        }
        match self.current {
            Some(i) => {
                let n = if i == 0 { self.matches.len() - 1 } else { i - 1 };
                self.current = Some(n);
            },
            None => {},
        }
    }

    /// Forgets the query and its matches.
    pub fn clear(&mut self)
        ensures
            final(self)@.well_formed(),
            final(self)@.query.len() == 0,
            final(self)@.matches.len() == 0,
            final(self)@.current is None,
    {
        *self = SearchSession {
            query: String::new(),
            case_sensitive: self.case_sensitive,
            matches: Vec::new(),
            current: None,
        };
    }

    /// Every match, in order.
    pub fn matches(&self) -> (r: &Vec<SearchMatch>)
        ensures
            matches_view(r@) == self@.matches,
    {
        &self.matches
    }

    /// The index of the current match.
    pub fn current_index(&self) -> (r: Option<usize>)
        ensures
            match r {
                Some(i) => self@.current == Some(i as int),
                None => self@.current is None,
            },
    {
        self.current
    }

    /// The current match.
    pub fn current_match(&self) -> (r: Option<&SearchMatch>)
        ensures
            match self@.current {
                Some(i) => r matches Some(m) && m@ == self@.matches[i],
                None => r is None,
            },
    {
        proof {
            use_type_invariant(self);
        }
        match self.current {
            Some(i) => Some(&self.matches[i]),
            None => None,
        }
    }

    /// The matches at the leaf `position`, as `(index, is key match)` in order.
    pub fn path_matches(&self, position: &Vec<usize>) -> (r: Vec<(usize, bool)>)
        ensures
            r@ == leaf_entries(self@.matches, position@, self@.matches.len() as int),
    {
        let ghost ms = self@.matches;
        let mut r: Vec<(usize, bool)> = Vec::new();
        let mut i: usize = 0;
        while i < self.matches.len()
            invariant
                i <= self.matches.len(),
                ms == matches_view(self.matches@),
                r@ == leaf_entries(ms, position@, i as int),
            decreases self.matches.len() - i,
        {
            if same_position(&self.matches[i].position, position) {
                r.push((i, self.matches[i].is_key_match));
            }
            i += 1;
        }
        r
    }

    /// The range to highlight in `rendered_text`, the text shown for the current
    /// match's leaf: see `highlight_range`.
    pub fn current_highlight(&self, rendered_text: &str) -> (r: Option<(usize, usize)>)
        ensures
            range_view(r) == match self@.current {
                Some(i) => highlight_range(
                    leaf_entries(self@.matches, self@.matches[i].position, self@.matches.len() as int),
                    i as usize,
                    rendered_text@,
                    self@.query,
                    self@.case_sensitive,
                ),
                None => None,
            },
    {
        proof {
            use_type_invariant(self);
        }
        match self.current {
            Some(i) => {
                let entries = self.path_matches(&self.matches[i].position);
                resolve_highlight_range(&entries, i, rendered_text, self.query.as_str(), self.case_sensitive)
            },
            None => None,
        }
    }
}

/// The rows to expand so that the leaf at `position` shows: each proper,
/// non-empty prefix of its position, from the root down.
pub fn ancestors_of(position: &Vec<usize>) -> (r: Vec<Vec<usize>>)
    ensures
        r@.len() == if position@.len() > 0 { position@.len() - 1 } else { 0 },
        forall|k: int| 0 <= k < r@.len() ==> #[trigger] r@[k]@ == position@.take(k + 1),
{
    let mut r: Vec<Vec<usize>> = Vec::new();
    let mut prefix: Vec<usize> = Vec::new();
    let mut k: usize = 0;
    while k + 1 < position.len()
        invariant
            k < position.len() || position.len() == 0,
            k <= position.len(),
            r@.len() == k,
            prefix@ == position@.take(k as int),
            forall|j: int| 0 <= j < k ==> #[trigger] r@[j]@ == position@.take(j + 1),
        decreases position.len() - k,
    {
        prefix.push(position[k]);
        assert(prefix@ =~= position@.take(k + 1));
        r.push(copy_position(&prefix));
        k += 1;
    }
    r
}

/// The matches among `ms[0..n]` at the leaf `position`, as `(index, is key
/// match)`.
pub open spec fn leaf_entries(ms: Seq<MatchView>, position: Seq<usize>, n: int) -> Seq<(usize, bool)>
    decreases n,
{
    if n <= 0 {
        Seq::empty()
    } else if ms[n - 1].position == position {
        leaf_entries(ms, position, n - 1).push(((n - 1) as usize, ms[n - 1].is_key_match))
    } else {
        leaf_entries(ms, position, n - 1)
    }
}

fn same_position(a: &Vec<usize>, b: &Vec<usize>) -> (r: bool)
    ensures
        r == (a@ == b@),
{
    if a.len() != b.len() {
        return false;
    }
    let mut k: usize = 0;
    while k < a.len()
        invariant
            a.len() == b.len(),
            k <= a.len(),
            forall|j: int| 0 <= j < k ==> a@[j] == b@[j],
        decreases a.len() - k,
    {
        if a[k] != b[k] {
            return false;
        }
        k += 1;
    }
    assert(a@ =~= b@);
    true
}

} // verus!

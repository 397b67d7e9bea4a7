use vstd::prelude::*;

use crate::command::CommandChecker;
use crate::text::is_prefix_of;
use crate::text::is_suffix_of;
use crate::text::lemma_strip_leading_is_suffix;
use crate::text::str_is_prefix;
use crate::text::strip_leading_slashes;
use crate::text::trim_separators;

verus! {

/// Available preview viewers for README display, in priority order:
/// a highlighting pager first, a plain dump as the fallback.
#[derive(Debug, Clone, Copy, PartialEq, Eq, Structural)]
pub enum PreviewViewer {
    Bat,
    Cat,
}

impl PreviewViewer {
    /// The viewer that a given probe outcome selects.
    pub fn for_availability(bat_available: bool) -> (r: PreviewViewer)
        ensures
            r == (if bat_available {
                PreviewViewer::Bat
            } else {
                PreviewViewer::Cat
            }),
    {
        if bat_available {
            PreviewViewer::Bat
        } else {
            PreviewViewer::Cat
        }
    }

    /// Detect the best available viewer on this machine.
    pub fn detect<C: CommandChecker>(checker: &C) -> (r: PreviewViewer)
        ensures
            r == PreviewViewer::Bat || r == PreviewViewer::Cat,
    {
        let bat_available = checker.check("bat").is_ok();
        PreviewViewer::for_availability(bat_available)
    }

    /// The preview command for an external filter process. The `{}`
    /// placeholder stands for the candidate's path.
    pub fn command(&self) -> (r: &'static str)
        ensures
            *self == PreviewViewer::Bat ==> r@ == (
            "bat --style=plain --color=always {}/README.md 2>/dev/null || echo 'No README.md'")@,
            *self == PreviewViewer::Cat ==> r@ == (
            "cat {}/README.md 2>/dev/null || echo 'No README.md'")@,
    {
        match self {
            PreviewViewer::Bat => {
                "bat --style=plain --color=always {}/README.md 2>/dev/null || echo 'No README.md'"
            },
            PreviewViewer::Cat => "cat {}/README.md 2>/dev/null || echo 'No README.md'",
        }
    }
}

/// An item that can be displayed and selected: a concise label for the
/// filterable text, and the full path it stands for as the bound value.
pub struct SelectableItem {
    pub display: String,
    pub value: String,
}

/// The smallest index at least `i` holding a tab, or the length when none.
pub open spec fn first_tab_at(s: Seq<char>, i: int) -> int
    decreases s.len() - i,
{
    if i < 0 || i >= s.len() {
        s.len() as int
    } else if s[i] == '\t' {
        i
    } else {
        first_tab_at(s, i + 1)
    }
}

/// The second tab-delimited field of `line` — the bound value on the wire
/// of an external filter process — or the whole line when it has no tab.
pub open spec fn wire_value_of(line: Seq<char>) -> Seq<char> {
    let t1 = first_tab_at(line, 0);
    if t1 == line.len() {
        line
    } else {
        line.subrange(t1 + 1, first_tab_at(line, t1 + 1))
    }
}

/// An item on the wire of an external filter process: the filterable label,
/// a tab, and the bound value. The filter shows the first field and answers
/// with the whole line.
pub fn wire_line(item: &SelectableItem) -> (r: String)
    ensures
        r@ == item.display@ + "\t"@ + item.value@,
{
    let mut r = item.display.clone();
    r.append("\t");
    r.append(item.value.as_str());
    r
}

/// What a tab is found first: searching on from an uncut position finds the
/// same tab.
proof fn lemma_first_tab_at_step(s: Seq<char>, from: int, i: int)
    requires
        0 <= from <= i <= s.len(),
        forall|j: int| from <= j < i ==> s[j] != '\t',
    ensures
        first_tab_at(s, from) == first_tab_at(s, i),
    decreases i - from,
{
    if from < i {
        lemma_first_tab_at_step(s, from + 1, i);
    }
}

/// The second tab-delimited field of the answer line, as `wire_value_of`
/// describes it.
pub fn wire_value(line: &str) -> (r: String)
    ensures
        r@ == wire_value_of(line@),
{
    let len = line.unicode_len();
    let mut t1: usize = 0;
    while t1 < len && line.get_char(t1) != '\t'
        invariant
            t1 <= len,
            len == line@.len(),
            forall|j: int| 0 <= j < t1 ==> line@[j] != '\t',
        decreases len - t1,
    {
        t1 += 1;
    }
    proof {
        lemma_first_tab_at_step(line@, 0, t1 as int);
        assert(first_tab_at(line@, t1 as int) == t1 as int || t1 == len);
    }
    if t1 == len {
        return line.to_owned();
    }
    let mut t2: usize = t1 + 1;
    while t2 < len && line.get_char(t2) != '\t'
        invariant
            t1 + 1 <= t2 <= len,
            len == line@.len(),
            forall|j: int| t1 + 1 <= j < t2 ==> line@[j] != '\t',
        decreases len - t2,
    {
        t2 += 1;
    }
    proof {
        lemma_first_tab_at_step(line@, t1 as int + 1, t2 as int);
        assert(first_tab_at(line@, t1 as int + 1) == t2 as int || t2 == len);
    }
    line.substring_char(t1 + 1, t2).to_owned()
}

/// Capability: an interactive fuzzy filter over the candidates' display
/// labels. It answers with the index of the confirmed candidate, or with
/// nothing when the user aborts.
pub trait FuzzyFinder {
    fn pick(&self, items: &Vec<SelectableItem>) -> Option<usize>;
}

/// The index of the first root that is a prefix of `p`, from position `i`
/// on; the number of roots when none is.
pub open spec fn first_matching_root(roots: Seq<Seq<char>>, p: Seq<char>, i: int) -> int
    decreases roots.len() - i,
{
    if i < 0 || i >= roots.len() {
        roots.len() as int
    } else if is_prefix_of(roots[i], p) {
        i
    } else {
        first_matching_root(roots, p, i + 1)
    }
}

/// The display label for path `p` under the root set `roots`: what remains
/// of `p` after the first matching root and any leading separators, or `p`
/// itself when no root matches.
pub open spec fn display_label_spec(roots: Seq<Seq<char>>, p: Seq<char>) -> Seq<char> {
    let m = first_matching_root(roots, p, 0);
    if m == roots.len() {
        p
    } else {
        strip_leading_slashes(p.skip(roots[m].len() as int))
    }
}

/// What `first_matching_root` finds, spelled out: its range, that it lands
/// on a match, and that nothing before it matches.
proof fn lemma_first_matching_root_props(roots: Seq<Seq<char>>, p: Seq<char>, i: int)
    requires
        0 <= i <= roots.len(),
    ensures
        i <= first_matching_root(roots, p, i) <= roots.len(),
        first_matching_root(roots, p, i) < roots.len() ==> is_prefix_of(
            roots[first_matching_root(roots, p, i)],
            p,
        ),
        forall|j: int|
            i <= j < first_matching_root(roots, p, i) ==> !is_prefix_of(roots[j], p),
    decreases roots.len() - i,
{
    if i < roots.len() && !is_prefix_of(roots[i], p) {
        lemma_first_matching_root_props(roots, p, i + 1);
    }
}

/// Searching from an unmatched position on finds the same root.
proof fn lemma_first_matching_root_step(roots: Seq<Seq<char>>, p: Seq<char>, i: int)
    requires
        0 <= i <= roots.len(),
        forall|j: int| 0 <= j < i ==> !is_prefix_of(roots[j], p),
    ensures
        first_matching_root(roots, p, 0) == first_matching_root(roots, p, i),
    decreases i,
{
    if i > 0 {
        lemma_first_matching_root_step(roots, p, i - 1);
        assert(first_matching_root(roots, p, i - 1) == first_matching_root(roots, p, i));
    }
}

/// The display label for `full_path` under `roots`, as `display_label_spec`
/// describes it.
pub fn display_label(roots: &Vec<String>, full_path: &str) -> (r: String)
    ensures
        r@ == display_label_spec(roots.deep_view(), full_path@),
{
    let ghost rv = roots.deep_view();
    let n = roots.len();
    let mut j: usize = 0;
    while j < n
        invariant
            j <= n,
            n == rv.len(),
            rv == roots.deep_view(),
            forall|k: int| 0 <= k < j ==> !is_prefix_of(rv[k], full_path@),
        decreases n - j,
    {
        let root = &roots[j];
        if str_is_prefix(root.as_str(), full_path) {
            let root_len = root.as_str().unicode_len();
            let path_len = full_path.unicode_len();
            proof {
                lemma_first_matching_root_step(rv, full_path@, j as int);
                assert(first_matching_root(rv, full_path@, j as int) == j);
                assert(full_path@.subrange(root_len as int, path_len as int) =~= full_path@.skip(
                    root_len as int,
                ));
            }
            let rest = full_path.substring_char(root_len, path_len);
            return trim_separators(rest);
        }
        j += 1;
    }
    proof {
        lemma_first_matching_root_step(rv, full_path@, n as int);
    }
    full_path.to_owned()
}

/// Builds the selectable candidates: one item per repository path, in order,
/// each carrying its display label and the untouched full path.
pub fn build_items(roots: &Vec<String>, repos: &Vec<String>) -> (items: Vec<SelectableItem>)
    ensures
        items@.len() == repos@.len(),
        forall|i: int|
            0 <= i < repos@.len() ==> (#[trigger] items@[i]).value@ == repos@[i]@
                && items@[i].display@ == display_label_spec(roots.deep_view(), repos@[i]@),
{
    let mut items: Vec<SelectableItem> = Vec::new();
    let n = repos.len();
    let mut i: usize = 0;
    while i < n
        invariant
            i <= n,
            n == repos@.len(),
            items@.len() == i,
            forall|k: int|
                0 <= k < i ==> (#[trigger] items@[k]).value@ == repos@[k]@
                    && items@[k].display@ == display_label_spec(roots.deep_view(), repos@[k]@),
        decreases n - i,
    {
        let repo = &repos[i];
        let display = display_label(roots, repo.as_str());
        let value = repo.clone();
        items.push(SelectableItem { display, value });
        i += 1;
    }
    items
}

/// Turns the finder's answer into the selection: the bound value of the
/// confirmed candidate, and no selection — never an error — on an abort or
/// an answer out of range.
pub fn resolve_choice(items: &Vec<SelectableItem>, choice: Option<usize>) -> (r: Option<String>)
    ensures
        choice is None ==> r is None,
        choice matches Some(i) ==> {
            &&& i < items@.len() ==> (r matches Some(v) && v@ == items@[i as int].value@)
            &&& i >= items@.len() ==> r is None
        },
{
    match choice {
        None => None,
        Some(i) => {
            if i < items.len() {
                let chosen = &items[i];
                Some(chosen.value.clone())
            } else {
                None
            }
        },
    }
}

/// Presents the repositories to the interactive finder and returns the full
/// path of the confirmed candidate. An empty candidate list, a user abort,
/// and an answer out of range all yield no selection — never an error.
pub fn select_repository<F: FuzzyFinder>(
    finder: &F,
    roots: &Vec<String>,
    repos: &Vec<String>,
) -> (r: Option<String>)
    ensures
        repos@.len() == 0 ==> r is None,
        r matches Some(v) ==> exists|i: int| 0 <= i < repos@.len() && v@ == repos@[i]@,
{
    if repos.len() == 0 {
        return None;
    }
    let items = build_items(roots, repos);
    let choice = finder.pick(&items);
    resolve_choice(&items, choice)
}

/// No root of the set is a proper prefix of another: the natural shape of a
/// configured root list, where no root lies inside another root.
pub open spec fn no_nested_roots(roots: Seq<Seq<char>>) -> bool {
    forall|a: int, b: int|
        0 <= a < roots.len() && 0 <= b < roots.len() && is_prefix_of(roots[a], roots[b])
            ==> roots[a] == roots[b]
}

/// Law: a path keeps its label exactly when no root matches; when one does,
/// the label is the path after its first matching root, stripped of leading
/// separators — and if no root of the set lies inside another, that first
/// matching root is as long as any matching root, so the longest match is
/// the one stripped.
pub proof fn lemma_display_label_first_match(roots: Seq<Seq<char>>, p: Seq<char>)
    ensures
        (forall|j: int| 0 <= j < roots.len() ==> !is_prefix_of(roots[j], p))
            ==> display_label_spec(roots, p) == p,
        (exists|j: int| 0 <= j < roots.len() && is_prefix_of(roots[j], p)) ==> {
            let m = first_matching_root(roots, p, 0);
            &&& 0 <= m < roots.len()
            &&& is_prefix_of(roots[m], p)
            &&& display_label_spec(roots, p) == strip_leading_slashes(
                p.skip(roots[m].len() as int),
            )
            &&& no_nested_roots(roots) ==> forall|j: int|
                0 <= j < roots.len() && is_prefix_of(roots[j], p) ==> roots[j].len()
                    <= roots[m].len()
        },
{
    lemma_first_matching_root_props(roots, p, 0);
    let m = first_matching_root(roots, p, 0);
    if exists|j: int| 0 <= j < roots.len() && is_prefix_of(roots[j], p) {
        assert(m < roots.len());
        if no_nested_roots(roots) {
            assert forall|j: int|
                0 <= j < roots.len() && is_prefix_of(roots[j], p) implies roots[j].len()
                <= roots[m].len() by {
                lemma_common_prefixes_comparable(roots[j], roots[m], p);
                if roots[j].len() > roots[m].len() {
                    assert(is_prefix_of(roots[m], roots[j]));
                }
            }
        }
    }
}

/// Two prefixes of one sequence are comparable: the shorter is a prefix of
/// the longer.
proof fn lemma_common_prefixes_comparable(a: Seq<char>, b: Seq<char>, p: Seq<char>)
    requires
        is_prefix_of(a, p),
        is_prefix_of(b, p),
    ensures
        a.len() <= b.len() ==> is_prefix_of(a, b),
        b.len() <= a.len() ==> is_prefix_of(b, a),
{
    if a.len() <= b.len() {
        assert(b.subrange(0, a.len() as int) =~= p.subrange(0, a.len() as int));
        assert(p.subrange(0, b.len() as int).subrange(0, a.len() as int) =~= p.subrange(
            0,
            a.len() as int,
        ));
    }
    if b.len() <= a.len() {
        assert(a.subrange(0, b.len() as int) =~= p.subrange(0, b.len() as int));
        assert(p.subrange(0, a.len() as int).subrange(0, b.len() as int) =~= p.subrange(
            0,
            b.len() as int,
        ));
    }
}

/// Law: the filterable label never discloses more than the full path. It is
/// always a suffix of the path and never longer; when a root matches, the
/// label even fits beside that root within the path's length.
pub proof fn lemma_display_label_never_discloses(roots: Seq<Seq<char>>, p: Seq<char>)
    ensures
        is_suffix_of(display_label_spec(roots, p), p),
        display_label_spec(roots, p).len() <= p.len(),
        first_matching_root(roots, p, 0) < roots.len() ==> display_label_spec(roots, p).len()
            + roots[first_matching_root(roots, p, 0)].len() <= p.len(),
{
    lemma_first_matching_root_props(roots, p, 0);
    let m = first_matching_root(roots, p, 0);
    if m < roots.len() {
        let tail = p.skip(roots[m].len() as int);
        lemma_strip_leading_is_suffix(tail);
        let label = strip_leading_slashes(tail);
        assert(is_suffix_of(label, tail));
        assert(tail.subrange(tail.len() - label.len(), tail.len() as int) =~= p.subrange(
            p.len() - label.len(),
            p.len() as int,
        ));
    } else {
        assert(p.subrange(p.len() - p.len(), p.len() as int) =~= p);
    }
}

} // verus!

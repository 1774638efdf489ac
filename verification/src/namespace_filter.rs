//! Namespace exclusion: parsing the comma-separated exclusion list, the
//! client-side filter predicate, and the field-selector expression handed
//! to the watch.

use vstd::prelude::*;
use vstd::string::StrSliceExecFns;
use vstd::string::StringExecFns;
use crate::config::Config;
use crate::text::str_eq;

verus! {

/// The position of the first comma, if any.
pub open spec fn spec_first_comma(s: Seq<char>) -> Option<int>
    decreases s.len(),
{
    if s.len() == 0 {
        None
    } else if s[0] == ',' {
        Some(0)
    } else {
        match spec_first_comma(s.drop_first()) {
            Some(k) => Some(k + 1),
            None => None,
        }
    }
}

/// The first comma lies within the string, on a comma, and after none.
pub proof fn lemma_first_comma_bounds(s: Seq<char>)
    ensures
        match spec_first_comma(s) {
            Some(k) => 0 <= k < s.len() && s[k] == ',' && (forall|j: int|
                0 <= j < k ==> s[j] != ','),
            None => forall|j: int| 0 <= j < s.len() ==> s[j] != ',',
        },
    decreases s.len(),
{
    if s.len() == 0 {
    } else if s[0] == ',' {
    } else {
        lemma_first_comma_bounds(s.drop_first());
        match spec_first_comma(s.drop_first()) {
            Some(k) => {
                assert(s.drop_first()[k] == s[k + 1]);
                assert forall|j: int| 0 <= j < k + 1 implies s[j] != ',' by {
                    if j > 0 {
                        assert(s.drop_first()[j - 1] == s[j]);
                    }
                }
            },
            None => {
                assert forall|j: int| 0 <= j < s.len() implies s[j] != ',' by {
                    if j > 0 {
                        assert(s.drop_first()[j - 1] == s[j]);
                    }
                }
            },
        }
    }
}

/// A comma at `k`, with none before it, is the first comma.
pub proof fn lemma_first_comma_at(s: Seq<char>, k: int)
    requires
        0 <= k < s.len(),
        s[k] == ',',
        forall|j: int| 0 <= j < k ==> s[j] != ',',
    ensures
        spec_first_comma(s) == Some(k),
    decreases k,
{
    if k > 0 {
        assert(s.drop_first()[k - 1] == s[k]);
        assert forall|j: int| 0 <= j < k - 1 implies s.drop_first()[j] != ',' by {
            assert(s.drop_first()[j] == s[j + 1]);
        }
        lemma_first_comma_at(s.drop_first(), k - 1);
    }
}

/// A string without commas has no first comma.
pub proof fn lemma_first_comma_none(s: Seq<char>)
    requires
        forall|j: int| 0 <= j < s.len() ==> s[j] != ',',
    ensures
        spec_first_comma(s) is None,
    decreases s.len(),
{
    if s.len() > 0 {
        assert forall|j: int| 0 <= j < s.len() - 1 implies s.drop_first()[j] != ',' by {
            assert(s.drop_first()[j] == s[j + 1]);
        }
        lemma_first_comma_none(s.drop_first());
    }
}

#[via_fn]
proof fn spec_split_commas_decreases(s: Seq<char>) {
    lemma_first_comma_bounds(s);
}

/// The segments between commas, commas excluded: what the standard
/// splitting of a string on `,` yields, empty segments included.
pub open spec fn spec_split_commas(s: Seq<char>) -> Seq<Seq<char>>
    decreases s.len(),
    via spec_split_commas_decreases
{
    match spec_first_comma(s) {
        None => seq![s],
        Some(k) => seq![s.subrange(0, k)] + spec_split_commas(s.subrange(k + 1, s.len() as int)),
    }
}

/// The non-empty segments, in order.
pub open spec fn spec_keep_non_empty(segments: Seq<Seq<char>>) -> Seq<Seq<char>>
    decreases segments.len(),
{
    if segments.len() == 0 {
        Seq::empty()
    } else {
        let rest = spec_keep_non_empty(segments.drop_last());
        if segments.last().len() > 0 {
            rest.push(segments.last())
        } else {
            rest
        }
    }
}

/// The segments with later duplicates removed: each value keeps its first
/// position.
pub open spec fn spec_dedup(segments: Seq<Seq<char>>) -> Seq<Seq<char>>
    decreases segments.len(),
{
    if segments.len() == 0 {
        Seq::empty()
    } else {
        let rest = spec_dedup(segments.drop_last());
        if rest.contains(segments.last()) {
            rest
        } else {
            rest.push(segments.last())
        }
    }
}

/// The namespaces named by a comma-separated exclusion list: its non-empty
/// entries, first occurrences only, in order.
pub open spec fn spec_excluded_namespaces(s: Seq<char>) -> Seq<Seq<char>> {
    spec_dedup(spec_keep_non_empty(spec_split_commas(s)))
}

/// Membership through a push: the pushed element, or an element already
/// there.
proof fn lemma_push_contains<T>(s: Seq<T>, pushed: T, x: T)
    ensures
        s.push(pushed).contains(x) <==> (s.contains(x) || x == pushed),
{
    if s.contains(x) {
        let i = choose|i: int| 0 <= i < s.len() && s[i] == x;
        assert(s.push(pushed)[i] == x);
    }
    if x == pushed {
        assert(s.push(pushed)[s.len() as int] == x);
    }
    if s.push(pushed).contains(x) {
        let i = choose|i: int| 0 <= i < s.push(pushed).len() && s.push(pushed)[i] == x;
        if i < s.len() {
            assert(s[i] == x);
        }
    }
}

/// Keeping the non-empty segments keeps exactly the non-empty members.
pub proof fn lemma_keep_non_empty_membership(segments: Seq<Seq<char>>, x: Seq<char>)
    ensures
        spec_keep_non_empty(segments).contains(x) <==> (segments.contains(x) && x.len() > 0),
    decreases segments.len(),
{
    if segments.len() > 0 {
        lemma_keep_non_empty_membership(segments.drop_last(), x);
        let rest = spec_keep_non_empty(segments.drop_last());
        assert(segments =~= segments.drop_last().push(segments.last()));
        lemma_push_contains(segments.drop_last(), segments.last(), x);
        if segments.last().len() > 0 {
            lemma_push_contains(rest, segments.last(), x);
        }
    }
}

/// Removing later duplicates keeps exactly the members.
pub proof fn lemma_dedup_membership(segments: Seq<Seq<char>>, x: Seq<char>)
    ensures
        spec_dedup(segments).contains(x) <==> segments.contains(x),
    decreases segments.len(),
{
    if segments.len() > 0 {
        lemma_dedup_membership(segments.drop_last(), x);
        let rest = spec_dedup(segments.drop_last());
        assert(segments =~= segments.drop_last().push(segments.last()));
        lemma_push_contains(segments.drop_last(), segments.last(), x);
        if !rest.contains(segments.last()) {
            lemma_push_contains(rest, segments.last(), x);
        }
    }
}

/// A namespace is excluded exactly when some non-empty comma-separated
/// entry of the exclusion list reads like it.
pub proof fn lemma_excluded_iff_listed(s: Seq<char>, namespace: Seq<char>)
    ensures
        spec_excluded_namespaces(s).contains(namespace) <==> (spec_split_commas(s).contains(
            namespace,
        ) && namespace.len() > 0),
{
    lemma_dedup_membership(spec_keep_non_empty(spec_split_commas(s)), namespace);
    lemma_keep_non_empty_membership(spec_split_commas(s), namespace);
}

/// The views of a vector of strings, element for element.
pub open spec fn views_of(v: Seq<String>) -> Seq<Seq<char>>
    decreases v.len(),
{
    if v.len() == 0 {
        Seq::empty()
    } else {
        views_of(v.drop_last()).push(v.last()@)
    }
}

/// `views_of` keeps length and maps each element to its view.
pub proof fn lemma_views_of_index(v: Seq<String>)
    ensures
        views_of(v).len() == v.len(),
        forall|i: int| 0 <= i < v.len() ==> views_of(v)[i] == v[i]@,
    decreases v.len(),
{
    if v.len() > 0 {
        lemma_views_of_index(v.drop_last());
    }
}

/// Whether some string of the vector reads like the given one.
fn contains_string(v: &Vec<String>, x: &str) -> (r: bool)
    ensures
        r == views_of(v@).contains(x@),
{
    proof {
        lemma_views_of_index(v@);
    }
    let n = v.len();
    let mut i: usize = 0;
    while i < n
        invariant
            i <= n,
            n == v@.len(),
            forall|j: int| 0 <= j < i ==> v@[j]@ != x@,
            views_of(v@).len() == v@.len(),
            forall|j: int| 0 <= j < v@.len() ==> views_of(v@)[j] == v@[j]@,
        decreases n - i,
    {
        if str_eq(v[i].as_str(), x) {
            assert(views_of(v@)[i as int] == x@);
            return true;
        }
        i += 1;
    }
    assert forall|j: int| 0 <= j < views_of(v@).len() implies views_of(v@)[j] != x@ by {
        assert(views_of(v@)[j] == v@[j]@);
    }
    false
}

/// Takes one freshly closed segment into the namespace list: kept when it
/// is non-empty and not seen before, so that the list stays the distinct,
/// non-empty prefix of the segments handled so far.
fn take_segment(
    result: &mut Vec<String>,
    segment: &str,
    Ghost(seen): Ghost<Seq<Seq<char>>>,
    Ghost(with_segment): Ghost<Seq<Seq<char>>>,
)
    requires
        with_segment.len() > 0,
        with_segment.drop_last() == seen,
        with_segment.last() == segment@,
        views_of(old(result)@) == spec_dedup(spec_keep_non_empty(seen)),
    ensures
        views_of(final(result)@) == spec_dedup(spec_keep_non_empty(with_segment)),
{
    if !segment.is_empty() {
        proof {
            assert(spec_keep_non_empty(with_segment) == spec_keep_non_empty(seen).push(segment@));
        }
        if !contains_string(result, segment) {
            let ghost pre = result@;
            result.push(String::from_str(segment));
            proof {
                let kept = spec_keep_non_empty(with_segment);
                assert(kept.drop_last() =~= spec_keep_non_empty(seen));
                assert(kept.last() == segment@);
                assert(result@.drop_last() =~= pre);
                assert(result@.last()@ == segment@);
            }
        } else {
            proof {
                let kept = spec_keep_non_empty(with_segment);
                assert(kept.drop_last() =~= spec_keep_non_empty(seen));
                assert(kept.last() == segment@);
            }
        }
    } else {
        proof {
            assert(spec_keep_non_empty(with_segment) == spec_keep_non_empty(seen));
        }
    }
}

/// Parses a comma-separated exclusion list into its namespaces: non-empty
/// entries, first occurrences only, in order.
pub fn excluded_namespace_list(s: &str) -> (v: Vec<String>)
    ensures
        views_of(v@) == spec_excluded_namespaces(s@),
{
    let n = s.unicode_len();
    let mut result: Vec<String> = Vec::new();
    let mut start: usize = 0;
    let mut i: usize = 0;
    let ghost mut raw: Seq<Seq<char>> = Seq::empty();
    proof {
        assert(s@.subrange(0, n as int) =~= s@);
        assert(raw + spec_split_commas(s@) =~= spec_split_commas(s@));
    }
    while i < n
        invariant
            start <= i <= n,
            n == s@.len(),
            forall|j: int| start <= j < i ==> s@[j] != ',',
            spec_split_commas(s@) == raw + spec_split_commas(s@.subrange(start as int, n as int)),
            views_of(result@) == spec_dedup(spec_keep_non_empty(raw)),
        decreases n - i,
    {
        if s.get_char(i) == ',' {
            let segment = s.substring_char(start, i);
            let ghost seen = raw;
            proof {
                let suffix = s@.subrange(start as int, n as int);
                assert forall|j: int| 0 <= j < i - start implies suffix[j] != ',' by {
                    assert(suffix[j] == s@[start + j]);
                }
                assert(suffix[i - start] == s@[i as int]);
                lemma_first_comma_at(suffix, i - start);
                assert(suffix.subrange(0, i - start) =~= s@.subrange(start as int, i as int));
                assert(suffix.subrange(i - start + 1, suffix.len() as int) =~= s@.subrange(
                    i + 1,
                    n as int,
                ));
                raw = raw.push(s@.subrange(start as int, i as int));
                assert(raw.drop_last() =~= seen);
                assert(seen + (seq![s@.subrange(start as int, i as int)] + spec_split_commas(
                    s@.subrange(i + 1, n as int),
                )) =~= raw + spec_split_commas(s@.subrange(i + 1, n as int)));
            }
            take_segment(&mut result, segment, Ghost(seen), Ghost(raw));
            start = i + 1;
        }
        i += 1;
    }
    let segment = s.substring_char(start, n);
    let ghost seen = raw;
    proof {
        let suffix = s@.subrange(start as int, n as int);
        assert forall|j: int| 0 <= j < suffix.len() implies suffix[j] != ',' by {
            assert(suffix[j] == s@[start + j]);
        }
        lemma_first_comma_none(suffix);
        raw = raw.push(suffix);
        assert(raw.drop_last() =~= seen);
        assert(seen + seq![suffix] =~= raw);
        assert(spec_split_commas(s@) == raw);
    }
    take_segment(&mut result, segment, Ghost(seen), Ghost(raw));
    result
}

/// Whether a namespace stands in the configured exclusion list.
pub fn namespace_is_excluded(config: &Config, namespace: &str) -> (r: bool)
    ensures
        r == spec_excluded_namespaces(config.excluded_namespaces@).contains(namespace@),
{
    let namespaces = excluded_namespace_list(config.excluded_namespaces.as_str());
    contains_string(&namespaces, namespace)
}

/// The field-selector atom excluding one namespace.
pub open spec fn spec_atom(namespace: Seq<char>) -> Seq<char> {
    "namespace!="@ + namespace
}

/// The field-selector expression excluding the given namespaces, joined
/// with commas.
pub open spec fn spec_join_atoms(namespaces: Seq<Seq<char>>) -> Seq<char>
    decreases namespaces.len(),
{
    if namespaces.len() == 0 {
        Seq::empty()
    } else if namespaces.len() == 1 {
        spec_atom(namespaces[0])
    } else {
        spec_join_atoms(namespaces.drop_last()) + ","@ + spec_atom(namespaces.last())
    }
}

/// Renders the configured exclusion list as a field-selector expression:
/// one `namespace!=<name>` atom per distinct non-empty entry, joined with
/// commas; empty when nothing is excluded.
pub fn collate_excluded_namespaces(env_vars: &Config) -> (r: String)
    ensures
        r@ == spec_join_atoms(spec_excluded_namespaces(env_vars.excluded_namespaces@)),
{
    let namespaces = excluded_namespace_list(env_vars.excluded_namespaces.as_str());
    let mut out = String::new();
    let n = namespaces.len();
    let mut i: usize = 0;
    proof {
        assert(namespaces@.subrange(0, 0) =~= Seq::<String>::empty());
        assert(views_of(namespaces@.subrange(0, 0)) =~= Seq::<Seq<char>>::empty());
    }
    while i < n
        invariant
            i <= n,
            n == namespaces@.len(),
            views_of(namespaces@) == spec_excluded_namespaces(env_vars.excluded_namespaces@),
            out@ == spec_join_atoms(views_of(namespaces@.subrange(0, i as int))),
        decreases n - i,
    {
        if i > 0 {
            out.append(",");
        }
        out.append("namespace!=");
        out.append(namespaces[i].as_str());
        proof {
            lemma_views_of_index(namespaces@.subrange(0, i as int));
            lemma_views_of_index(namespaces@.subrange(0, i + 1));
            assert(namespaces@.subrange(0, i + 1).drop_last() =~= namespaces@.subrange(0, i as int));
            let prev = views_of(namespaces@.subrange(0, i as int));
            let cur = views_of(namespaces@.subrange(0, i + 1));
            assert(cur == prev.push(namespaces@[i as int]@));
            assert(cur.drop_last() =~= prev);
            assert(cur.last() == namespaces@[i as int]@);
            if i == 0 {
                assert(cur.len() == 1);
                assert(cur[0] == namespaces@[0]@);
                assert(out@ =~= spec_atom(cur[0]));
            } else {
                assert(cur.len() >= 2);
                assert(out@ =~= spec_join_atoms(prev) + ","@ + spec_atom(cur.last()));
            }
            assert(out@ =~= spec_join_atoms(cur));
        }
        i += 1;
    }
    proof {
        assert(namespaces@.subrange(0, n as int) =~= namespaces@);
    }
    out
}

} // verus!

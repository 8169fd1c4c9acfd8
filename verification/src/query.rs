use vstd::prelude::*;

verus! {

/// The optional filters of one extraction run, immutable after construction.
/// `classification` is an exact match; the two keyword filters are
/// case-insensitive substring matches (include and exclude respectively),
/// mutually independent.
pub struct FilterSet {
    pub classification: Option<String>,
    pub keyword_include: Option<String>,
    pub keyword_exclude: Option<String>,
}

/// A parameterized query: the SQL text and its ordered bind values. The
/// i-th value belongs to the i-th positional placeholder of the text; user
/// values are never interpolated into the text itself.
pub struct BuiltQuery {
    pub text: String,
    pub params: Vec<String>,
}

/// Which filter a predicate clause comes from, in the fixed clause order.
#[derive(Clone, Copy, PartialEq, Eq, Structural)]
pub enum FilterKind {
    Classification,
    KeywordInclude,
    KeywordExclude,
}

/// The unconditional base clause: always true, so that each present filter
/// can be appended with a logical AND.
pub open spec fn base_query() -> Seq<char> {
    "SELECT id, image_name, original_image FROM faces WHERE 1=1 "@
}

/// The clause text a filter of the given kind contributes, up to but not
/// including its positional placeholder.
pub open spec fn clause_fragment(k: FilterKind) -> Seq<char> {
    match k {
        FilterKind::Classification => " AND classification = "@,
        FilterKind::KeywordInclude => " AND keywords ILIKE "@,
        FilterKind::KeywordExclude => " AND keywords NOT ILIKE "@,
    }
}

/// The positional placeholder of the n-th bound parameter (1-based); at most
/// three parameters can be bound, one per filter.
pub open spec fn placeholder(n: int) -> Seq<char> {
    if n == 1 {
        "$1"@
    } else if n == 2 {
        "$2"@
    } else {
        "$3"@
    }
}

/// A keyword wrapped with wildcard markers on both ends, the bind value of a
/// substring match.
pub open spec fn wrapped(s: Seq<char>) -> Seq<char> {
    seq!['%'] + s + seq!['%']
}

/// The descriptor a single optional filter contributes: one tagged
/// (kind, value) pair when present, nothing when absent.
pub open spec fn descriptor_opt(k: FilterKind, v: Option<String>) -> Seq<(FilterKind, Seq<char>)> {
    match v {
        Some(s) => seq![(k, s@)],
        None => Seq::empty(),
    }
}

/// The ordered descriptors of the present filters: classification first,
/// then include-keyword, then exclude-keyword.
pub open spec fn descriptors(f: FilterSet) -> Seq<(FilterKind, Seq<char>)> {
    descriptor_opt(FilterKind::Classification, f.classification)
        + descriptor_opt(FilterKind::KeywordInclude, f.keyword_include)
        + descriptor_opt(FilterKind::KeywordExclude, f.keyword_exclude)
}

/// How many filters are present.
pub open spec fn present_count(f: FilterSet) -> nat {
    (if f.classification is Some {
        1nat
    } else {
        0nat
    }) + (if f.keyword_include is Some {
        1nat
    } else {
        0nat
    }) + (if f.keyword_exclude is Some {
        1nat
    } else {
        0nat
    })
}

/// The bind value of one descriptor: the raw value for an exact match, the
/// wildcard-wrapped value for a substring match or non-match.
pub open spec fn bind_value(d: (FilterKind, Seq<char>)) -> Seq<char> {
    match d.0 {
        FilterKind::Classification => d.1,
        FilterKind::KeywordInclude => wrapped(d.1),
        FilterKind::KeywordExclude => wrapped(d.1),
    }
}

/// The clause texts of the given descriptors in order, the first clause
/// taking the placeholder numbered `next`, each later clause the next number.
pub open spec fn clauses_text(ds: Seq<(FilterKind, Seq<char>)>, next: int) -> Seq<char>
    decreases ds.len(),
{
    if ds.len() == 0 {
        Seq::empty()
    } else {
        clause_fragment(ds[0].0) + placeholder(next) + clauses_text(ds.drop_first(), next + 1)
    }
}

/// The full query text for a filter set: the base clause, then one predicate
/// clause per present filter in the fixed order, each ending in its
/// positional placeholder.
pub open spec fn query_text(f: FilterSet) -> Seq<char> {
    let n1: int = if f.classification is Some {
        1
    } else {
        0
    };
    let n2: int = n1 + (if f.keyword_include is Some {
        1int
    } else {
        0int
    });
    base_query() + (if f.classification is Some {
        clause_fragment(FilterKind::Classification) + placeholder(1)
    } else {
        Seq::<char>::empty()
    }) + (if f.keyword_include is Some {
        clause_fragment(FilterKind::KeywordInclude) + placeholder(n1 + 1)
    } else {
        Seq::<char>::empty()
    }) + (if f.keyword_exclude is Some {
        clause_fragment(FilterKind::KeywordExclude) + placeholder(n2 + 1)
    } else {
        Seq::<char>::empty()
    })
}

/// The ordered bind values for a filter set: one per present filter, in
/// clause order.
pub open spec fn query_params(f: FilterSet) -> Seq<Seq<char>> {
    descriptors(f).map_values(|d: (FilterKind, Seq<char>)| bind_value(d))
}

/// Wraps a keyword with wildcard markers on both ends, turning it into the
/// bind value of a case-insensitive substring match.
pub fn wrap_wildcards(s: &str) -> (r: String)
    ensures
        r@ == wrapped(s@),
{
    let mut out = String::from_str("%");
    out.append(s);
    out.append("%");
    proof {
        reveal_strlit("%");
        assert(out@ =~= wrapped(s@));
    }
    out
}

/// The positional placeholder of the n-th bound parameter as text.
fn placeholder_str(n: usize) -> (r: &'static str)
    requires
        1 <= n <= 3,
    ensures
        r@ == placeholder(n as int),
{
    if n == 1 {
        "$1"
    } else if n == 2 {
        "$2"
    } else {
        "$3"
    }
}

/// Composes the parameterized query for a filter set. The base clause is
/// always true; each present filter appends exactly one predicate clause and
/// exactly one bound parameter, in the fixed order classification (exact
/// match), include-keyword (substring match, wildcard-wrapped), exclude-
/// keyword (substring non-match, wildcard-wrapped). Absent filters contribute
/// nothing; all values travel as bind parameters, never inside the text.
pub fn build_query(f: &FilterSet) -> (q: BuiltQuery)
    ensures
        q.text@ == query_text(*f),
        q.params.deep_view() == query_params(*f),
{
    let mut text = String::from_str("SELECT id, image_name, original_image FROM faces WHERE 1=1 ");
    let mut params: Vec<String> = Vec::new();

    if let Some(cls) = &f.classification {
        text.append(" AND classification = ");
        text.append(placeholder_str(params.len() + 1));
        params.push(cls.clone());
    }
    if let Some(kwd) = &f.keyword_include {
        text.append(" AND keywords ILIKE ");
        text.append(placeholder_str(params.len() + 1));
        params.push(wrap_wildcards(kwd.as_str()));
    }
    if let Some(ex_kwd) = &f.keyword_exclude {
        text.append(" AND keywords NOT ILIKE ");
        text.append(placeholder_str(params.len() + 1));
        params.push(wrap_wildcards(ex_kwd.as_str()));
    }
    proof {
        assert(text@ =~= query_text(*f));
        assert(params.deep_view() =~= query_params(*f));
    }
    BuiltQuery { text, params }
}

/// Law: for every combination of the three optional filters, the number of
/// bound parameters equals the number of present filters, parameter order
/// matches clause order (the i-th parameter is the bind value of the i-th
/// present descriptor), and the query text is the base clause followed by the
/// present clauses in order, the i-th clause ending in the i-th placeholder.
pub proof fn lemma_predicate_composition(f: FilterSet)
    ensures
        query_params(f).len() == present_count(f),
        descriptors(f).len() == present_count(f),
        forall|i: int|
            0 <= i < descriptors(f).len() ==> query_params(f)[i] == bind_value(
                #[trigger] descriptors(f)[i],
            ),
        query_text(f) == base_query() + clauses_text(descriptors(f), 1),
{
    reveal_with_fuel(clauses_text, 5);
    let ds = descriptors(f);
    assert(query_text(f) =~= base_query() + clauses_text(ds, 1));
}

} // verus!

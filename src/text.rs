//! Character-level text operations: HTML escaping and single-pass marker
//! substitution.
use vstd::prelude::*;

verus! {

/// Relies on `str::chars`: the characters of `s`, in order.
#[verifier::external_body]
pub(crate) fn chars_of(s: &str) -> (r: Vec<char>)
    ensures
        r@ == s@,
{
    s.chars().collect()
}

/// Relies on `String: FromIterator<char>`: a string of exactly these characters.
#[verifier::external_body]
pub(crate) fn string_of(v: &[char]) -> (r: String)
    ensures
        r@ == v@,
{
    v.iter().collect()
}

/// What one character becomes under minimal HTML escaping.
pub open spec fn escaped_char(c: char) -> Seq<char> {
    if c == '"' {
        seq!['&', 'q', 'u', 'o', 't', ';']
    } else if c == '&' {
        seq!['&', 'a', 'm', 'p', ';']
    } else if c == '\'' {
        seq!['&', '#', 'x', '2', '7', ';']
    } else if c == '<' {
        seq!['&', 'l', 't', ';']
    } else if c == '>' {
        seq!['&', 'g', 't', ';']
    } else {
        seq![c]
    }
}

/// Minimal HTML escaping: each character replaced by `escaped_char`.
pub open spec fn escape_minimal(s: Seq<char>) -> Seq<char>
    decreases s.len(),
{
    if s.len() == 0 {
        seq![]
    } else {
        escape_minimal(s.drop_last()) + escaped_char(s.last())
    }
}

/// Relies on `htmlescape::encode_minimal`: each of `"`, `&`, `'`, `<`, `>` becomes
/// its entity and every other character is kept, in order.
#[verifier::external_body]
pub(crate) fn escape_html(s: &str) -> (r: String)
    ensures
        r@ == escape_minimal(s@),
{
    htmlescape::encode_minimal(s)
}

/// Whether `m` occurs in `t` starting at position `i`.
pub open spec fn occurs_at(t: Seq<char>, i: int, m: Seq<char>) -> bool {
    0 <= i && i + m.len() <= t.len() && t.subrange(i, i + m.len()) == m
}

/// The first index `k >= j` whose marker occurs at position `i` of `t`, or
/// `markers.len()` when there is none.
pub open spec fn first_marker_at(t: Seq<char>, i: int, markers: Seq<Seq<char>>, j: int) -> int
    decreases markers.len() - j,
{
    if j >= markers.len() {
        markers.len() as int
    } else if occurs_at(t, i, markers[j]) {
        j
    } else {
        first_marker_at(t, i, markers, j + 1)
    }
}

/// Markers may be substituted only when none of them is empty.
pub open spec fn markers_nonempty(markers: Seq<Seq<char>>) -> bool {
    forall|k: int| 0 <= k < markers.len() ==> #[trigger] markers[k].len() > 0
}

/// Single left-to-right pass over `t` from position `i`: where a marker occurs
/// (the first listed wins), its value is emitted and the marker skipped; any
/// other character is copied. Emitted values are never scanned again.
pub open spec fn substitute_from(t: Seq<char>, markers: Seq<Seq<char>>, values: Seq<Seq<char>>, i: int) -> Seq<char>
    decreases t.len() - i,
{
    if i < 0 || i >= t.len() {
        seq![]
    } else {
        let k = first_marker_at(t, i, markers, 0);
        if 0 <= k < markers.len() && k < values.len() && markers[k].len() > 0 && occurs_at(t, i, markers[k]) {
            values[k] + substitute_from(t, markers, values, i + markers[k].len())
        } else {
            seq![t[i]] + substitute_from(t, markers, values, i + 1)
        }
    }
}

/// The whole of `t` with every marker occurrence replaced in a single pass.
pub open spec fn substitute(t: Seq<char>, markers: Seq<Seq<char>>, values: Seq<Seq<char>>) -> Seq<char> {
    substitute_from(t, markers, values, 0)
}

fn occurs_at_exec(t: &Vec<char>, i: usize, m: &Vec<char>) -> (r: bool)
    requires
        i <= t@.len(),
    ensures
        r == occurs_at(t@, i as int, m@),
{
    if m.len() > t.len() - i {
        return false;
    }
    let mut j: usize = 0;
    while j < m.len()
        invariant
            i <= t@.len(),
            t@.len() <= usize::MAX,
            i + m@.len() <= t@.len(),
            0 <= j <= m@.len(),
            forall|q: int| 0 <= q < j ==> t@[i + q] == m@[q],
        decreases m@.len() - j,
    {
        assert(i + j < t@.len());
        if t[i + j] != m[j] {
            assert(t@.subrange(i as int, i + m@.len())[j as int] != m@[j as int]);
            return false;
        }
        j = j + 1;
    }
    assert(t@.subrange(i as int, i + m@.len()) =~= m@);
    true
}

fn first_marker_exec(t: &Vec<char>, i: usize, markers: &Vec<Vec<char>>) -> (r: usize)
    requires
        i <= t@.len(),
    ensures
        r as int == first_marker_at(t@, i as int, markers.deep_view(), 0),
{
    let ghost ms = markers.deep_view();
    let mut j: usize = 0;
    while j < markers.len()
        invariant
            0 <= j <= markers@.len(),
            i <= t@.len(),
            ms == markers.deep_view(),
            first_marker_at(t@, i as int, ms, j as int) == first_marker_at(t@, i as int, ms, 0),
        decreases markers@.len() - j,
    {
        assert(ms[j as int] == markers@[j as int]@);
        if occurs_at_exec(t, i, &markers[j]) {
            return j;
        }
        j = j + 1;
    }
    j
}

/// Replaces, in one left-to-right pass, each occurrence in `t` of a marker by
/// the value at the same index; text produced by a value is not scanned again.
pub fn substitute_markers(t: &Vec<char>, markers: &Vec<Vec<char>>, values: &Vec<Vec<char>>) -> (r: Vec<char>)
    requires
        markers@.len() == values@.len(),
        markers_nonempty(markers.deep_view()),
    ensures
        r@ == substitute(t@, markers.deep_view(), values.deep_view()),
{
    let ghost ms = markers.deep_view();
    let ghost vs = values.deep_view();
    let mut out: Vec<char> = Vec::new();
    let mut i: usize = 0;
    while i < t.len()
        invariant
            0 <= i <= t@.len(),
            ms == markers.deep_view(),
            vs == values.deep_view(),
            markers@.len() == values@.len(),
            markers_nonempty(ms),
            out@ + substitute_from(t@, ms, vs, i as int) == substitute(t@, ms, vs),
        decreases t@.len() - i,
    {
        let k = first_marker_exec(t, i, markers);
        if k < markers.len() {
            proof {
                assert(ms[k as int].len() > 0);
                assert(occurs_at(t@, i as int, ms[k as int])) by {
                    lemma_first_marker_occurs(t@, i as int, ms, 0);
                }
            }
            let v = &values[k];
            let mut q: usize = 0;
            let ghost before = out@;
            while q < v.len()
                invariant
                    0 <= q <= v@.len(),
                    out@ == before + v@.subrange(0, q as int),
                decreases v@.len() - q,
            {
                out.push(v[q]);
                q = q + 1;
                assert(out@ =~= before + v@.subrange(0, q as int));
            }
            proof {
                assert(v@.subrange(0, v@.len() as int) =~= v@);
                assert(vs[k as int] == v@);
                assert(out@ + substitute_from(t@, ms, vs, i + ms[k as int].len()) =~= before
                    + substitute_from(t@, ms, vs, i as int));
            }
            i = i + markers[k].len();
        } else {
            let ghost before = out@;
            out.push(t[i]);
            assert(out@ + substitute_from(t@, ms, vs, i + 1) =~= before + substitute_from(t@, ms, vs, i as int));
            i = i + 1;
        }
    }
    out
}

proof fn lemma_first_marker_occurs(t: Seq<char>, i: int, markers: Seq<Seq<char>>, j: int)
    requires
        0 <= j,
        first_marker_at(t, i, markers, j) < markers.len(),
    ensures
        occurs_at(t, i, markers[first_marker_at(t, i, markers, j)]),
        j <= first_marker_at(t, i, markers, j),
    decreases markers.len() - j,
{
    if j < markers.len() && !occurs_at(t, i, markers[j]) {
        lemma_first_marker_occurs(t, i, markers, j + 1);
    }
}

} // verus!

use vstd::prelude::*;
use vstd::string::*;

use crate::error::ApiError;
use crate::json::{parse_json, parsed_json, Json};

verus! {

/// `pat` stands in `s` at position `i`.
pub open spec fn occurs_at(s: Seq<char>, pat: Seq<char>, i: int) -> bool {
    0 <= i && i + pat.len() <= s.len() && s.subrange(i, i + pat.len()) == pat
}

/// The first position at or after `from` where `pat` stands in `s`.
pub open spec fn find(s: Seq<char>, pat: Seq<char>, from: int) -> Option<int>
    decreases s.len() + 1 - from,
{
    if from < 0 || from + pat.len() > s.len() {
        None
    } else if s.subrange(from, from + pat.len()) == pat {
        Some(from)
    } else {
        find(s, pat, from + 1)
    }
}

/// `pat` stands somewhere in `s` (`str::contains`).
pub open spec fn contains(s: Seq<char>, pat: Seq<char>) -> bool {
    find(s, pat, 0) is Some
}

/// What `find` returns is an occurrence, and the first one from `from` on.
pub proof fn lemma_find_result(s: Seq<char>, pat: Seq<char>, from: int)
    ensures
        find(s, pat, from) matches Some(i) ==> {
            &&& from <= i
            &&& occurs_at(s, pat, i)
            &&& forall|j: int| from <= j < i ==> !occurs_at(s, pat, j)
        },
        find(s, pat, from) is None ==> forall|j: int| from <= j && 0 <= from ==> !occurs_at(s, pat, j),
    decreases s.len() + 1 - from,
{
    if from < 0 || from + pat.len() > s.len() {
    } else if s.subrange(from, from + pat.len()) == pat {
    } else {
        lemma_find_result(s, pat, from + 1);
    }
}

/// Searching a suffix of `s` is searching `s` further on.
pub proof fn lemma_find_skip(s: Seq<char>, pat: Seq<char>, k: int, from: int)
    requires
        0 <= k <= s.len(),
        0 <= from,
    ensures
        find(s.skip(k), pat, from) == (match find(s, pat, from + k) {
            Some(i) => Some(i - k),
            None => None,
        }),
    decreases s.len() + 1 - k - from,
{
    if from + pat.len() > s.len() - k {
    } else {
        assert(s.skip(k).subrange(from, from + pat.len()) =~= s.subrange(
            from + k,
            from + k + pat.len(),
        ));
        if s.subrange(from + k, from + k + pat.len()) != pat {
            lemma_find_skip(s, pat, k, from + 1);
        }
    }
}

/// The pieces of `s` between the occurrences of `pat`, found from left to
/// right without overlap (`str::split` with a non-empty pattern).
pub open spec fn split(s: Seq<char>, pat: Seq<char>) -> Seq<Seq<char>>
    decreases s.len(),
{
    if pat.len() == 0 {
        seq![s]
    } else {
        match find(s, pat, 0) {
            Some(i) => {
                proof {
                    lemma_find_result(s, pat, 0);
                }
                seq![s.take(i)] + split(s.skip(i + pat.len()), pat)
            },
            None => seq![s],
        }
    }
}

/// `split` always yields a piece, and yields a second one exactly when the
/// pattern occurs.
pub proof fn lemma_split_len(s: Seq<char>, pat: Seq<char>)
    requires
        pat.len() > 0,
    ensures
        split(s, pat).len() >= 1,
        split(s, pat).len() >= 2 <==> contains(s, pat),
{
    if let Some(i) = find(s, pat, 0) {
        lemma_find_result(s, pat, 0);
        let rest = s.skip(i + pat.len());
        if pat.len() > 0 {
            assert(split(s, pat) == seq![s.take(i)] + split(rest, pat));
            if let Some(j) = find(rest, pat, 0) {
                lemma_find_result(rest, pat, 0);
                assert(split(rest, pat) == seq![rest.take(j)] + split(rest.skip(j + pat.len()), pat));
            }
        }
    }
}

/// `pat` stands in `s` exactly when it stands at some position.
pub proof fn lemma_contains_occurs(s: Seq<char>, pat: Seq<char>)
    ensures
        contains(s, pat) <==> exists|j: int| occurs_at(s, pat, j),
{
    lemma_find_result(s, pat, 0);
    if let Some(i) = find(s, pat, 0) {
        assert(occurs_at(s, pat, i));
    }
}

/// No piece that `split` yields holds the pattern.
pub proof fn lemma_split_pieces_free(s: Seq<char>, pat: Seq<char>)
    requires
        pat.len() > 0,
    ensures
        forall|k: int| 0 <= k < split(s, pat).len() ==> !contains(#[trigger] split(s, pat)[k], pat),
    decreases s.len(),
{
    lemma_find_result(s, pat, 0);
    match find(s, pat, 0) {
        Some(i) => {
            let rest = s.skip(i + pat.len());
            lemma_split_pieces_free(rest, pat);
            let first = s.take(i);
            lemma_contains_occurs(first, pat);
            if contains(first, pat) {
                let j = choose|j: int| occurs_at(first, pat, j);
                assert(s.subrange(j, j + pat.len()) =~= first.subrange(j, j + pat.len()));
                assert(occurs_at(s, pat, j));
            }
            assert forall|k: int| 0 <= k < split(s, pat).len() implies !contains(
                #[trigger] split(s, pat)[k],
                pat,
            ) by {
                if k > 0 {
                    assert(split(s, pat)[k] == split(rest, pat)[k - 1]);
                }
            }
        },
        None => {
            lemma_contains_occurs(s, pat);
        },
    }
}

/// The characters of `s`, in order.
pub fn chars_of(s: &str) -> (r: Vec<char>)
    ensures
        r@ == s@,
{
    let mut out: Vec<char> = Vec::new();
    for c in it: s.chars()
        invariant
            out@ == it.seq().take(it.index()),
    {
        out.push(c);
    }
    out
}

/// Whether two strings hold the same characters.
pub fn str_eq(a: &str, b: &str) -> (r: bool)
    ensures
        r == (a@ == b@),
{
    let x = chars_of(a);
    let y = chars_of(b);
    if x.len() != y.len() {
        return false;
    }
    let mut i: usize = 0;
    while i < x.len()
        invariant
            x@ == a@,
            y@ == b@,
            x@.len() == y@.len(),
            i <= x@.len(),
            forall|j: int| 0 <= j < i ==> x@[j] == y@[j],
        decreases x@.len() - i,
    {
        if x[i] != y[i] {
            return false;
        }
        i = i + 1;
    }
    assert(x@ =~= y@);
    true
}

/// Whether `pat` stands in `s` at position `i`.
fn matches_at(s: &Vec<char>, pat: &Vec<char>, i: usize) -> (r: bool)
    requires
        i + pat@.len() <= s@.len(),
    ensures
        r == (s@.subrange(i as int, i + pat@.len()) == pat@),
{
    let mut k: usize = 0;
    while k < pat.len()
        invariant
            i + pat@.len() <= s@.len(),
            s@.len() == s.len(),
            k <= pat@.len(),
            forall|j: int| 0 <= j < k ==> s@[i + j] == pat@[j],
        decreases pat@.len() - k,
    {
        if s[i + k] != pat[k] {
            assert(s@.subrange(i as int, i + pat@.len())[k as int] != pat@[k as int]);
            return false;
        }
        k = k + 1;
    }
    assert(s@.subrange(i as int, i + pat@.len()) =~= pat@);
    true
}

/// The first position at or after `from` where `pat` stands in `s`.
pub fn find_from(s: &Vec<char>, pat: &Vec<char>, from: usize) -> (r: Option<usize>)
    ensures
        match r {
            Some(i) => find(s@, pat@, from as int) == Some(i as int) && i + pat.len() <= s.len(),
            None => find(s@, pat@, from as int) is None,
        },
{
    proof {
        lemma_find_result(s@, pat@, from as int);
    }
    if pat.len() > s.len() {
        return None;
    }
    let last = s.len() - pat.len();
    if from > last {
        return None;
    }
    let mut i = from;
    while i <= last
        invariant
            last == s@.len() - pat@.len(),
            from <= i,
            find(s@, pat@, from as int) == find(s@, pat@, i as int),
        decreases last + 1 - i,
    {
        if matches_at(s, pat, i) {
            return Some(i);
        }
        if i == last {
            assert(find(s@, pat@, i + 1) is None);
            return None;
        }
        i = i + 1;
    }
    None
}

/// A copy of the characters of `s` from `from` up to `to`.
fn copy_range(s: &Vec<char>, from: usize, to: usize) -> (r: Vec<char>)
    requires
        from <= to <= s@.len(),
    ensures
        r@ == s@.subrange(from as int, to as int),
{
    let mut out: Vec<char> = Vec::new();
    let mut i = from;
    while i < to
        invariant
            from <= i <= to <= s@.len(),
            out@ == s@.subrange(from as int, i as int),
        decreases to - i,
    {
        out.push(s[i]);
        i = i + 1;
        assert(out@ =~= s@.subrange(from as int, i as int));
    }
    out
}

/// The text that opens the script holding a page's shared data.
pub open spec fn shared_data_marker() -> Seq<char> {
    "window._sharedData = "@
}

/// The text that ends the shared-data object in that script.
pub open spec fn shared_data_end() -> Seq<char> {
    "};"@
}

/// The JSON text of a page's shared data: what stands after the first
/// `window._sharedData = ` (up to a second one, if any) cut before its first
/// `};`, with the closing `}` put back; `None` when the page lacks the marker.
pub open spec fn spec_extract_json_str(html: Seq<char>) -> Option<Seq<char>> {
    let pieces = split(html, shared_data_marker());
    if pieces.len() >= 2 {
        Some(split(pieces[1], shared_data_end())[0] + "}"@)
    } else {
        None
    }
}

/// The JSON text of the shared data that an Instagram page embeds.
pub fn extract_json_str(html: &str) -> (r: Result<String, ApiError>)
    ensures
        match spec_extract_json_str(html@) {
            Some(text) => r matches Ok(s) && s@ == text,
            None => r == Err::<String, ApiError>(ApiError::InvalidSharedData),
        },
{
    let h = chars_of(html);
    let p = chars_of("window._sharedData = ");
    let e = chars_of("};");
    proof {
        reveal_strlit("window._sharedData = ");
        reveal_strlit("};");
        lemma_split_len(h@, p@);
    }
    match find_from(&h, &p, 0) {
        None => Err(ApiError::InvalidSharedData),
        Some(i) => {
            let start = i + p.len();
            let ghost rest = h@.skip(start as int);
            proof {
                lemma_find_result(h@, p@, 0);
                lemma_find_skip(h@, p@, start as int, 0);
                assert(split(h@, p@) == seq![h@.take(i as int)] + split(rest, p@));
            }
            let end = match find_from(&h, &p, start) {
                Some(j) => j,
                None => h.len(),
            };
            proof {
                lemma_find_result(h@, p@, start as int);
                if let Some(j) = find(rest, p@, 0) {
                    lemma_find_result(rest, p@, 0);
                    assert(split(rest, p@) == seq![rest.take(j)] + split(
                        rest.skip(j + p@.len()),
                        p@,
                    ));
                    assert(rest.take(j) =~= h@.subrange(start as int, end as int));
                } else {
                    assert(rest =~= h@.subrange(start as int, end as int));
                }
            }
            let seg = copy_range(&h, start, end);
            assert(split(h@, p@)[1] == seg@);
            let cut = match find_from(&seg, &e, 0) {
                Some(k) => k,
                None => seg.len(),
            };
            proof {
                if let Some(k) = find(seg@, e@, 0) {
                    lemma_find_result(seg@, e@, 0);
                    assert(split(seg@, e@) == seq![seg@.take(k)] + split(
                        seg@.skip(k + e@.len()),
                        e@,
                    ));
                }
                assert(split(seg@, e@)[0] =~= seg@.take(cut as int));
                assert(seg@.take(cut as int) =~= html@.subrange(start as int, start + cut));
            }
            let piece = html.substring_char(start, start + cut);
            Ok(String::from_str(piece).concat("}"))
        },
    }
}

/// The text that precedes each query id in Instagram's profile-page script.
pub open spec fn query_id_marker() -> Seq<char> {
    "},queryId:\""@
}

/// The query hash in that script: the text after the last `},queryId:"` up
/// to the next `"`.
pub open spec fn spec_query_hash(script: Seq<char>) -> Seq<char> {
    split(split(script, query_id_marker()).last(), "\""@)[0]
}

/// Whether the script names a query id at all.
pub fn has_query_id(script: &str) -> (r: bool)
    ensures
        r == (split(script@, query_id_marker()).len() >= 2),
{
    let h = chars_of(script);
    let q = chars_of("},queryId:\"");
    proof {
        reveal_strlit("},queryId:\"");
        lemma_split_len(h@, q@);
    }
    find_from(&h, &q, 0).is_some()
}

/// The query hash that the profile-page script names last.
pub fn query_hash_from_script(script: &str) -> (r: String)
    requires
        split(script@, query_id_marker()).len() >= 2,
    ensures
        r@ == spec_query_hash(script@),
{
    let h = chars_of(script);
    let q = chars_of("},queryId:\"");
    let dq = chars_of("\"");
    proof {
        reveal_strlit("},queryId:\"");
        reveal_strlit("\"");
        assert(h@.skip(0) =~= h@);
    }
    let mut pos: usize = 0;
    let mut next = find_from(&h, &q, 0);
    while next.is_some()
        invariant
            h@ == script@,
            q@ == query_id_marker(),
            q@.len() > 0,
            pos <= h@.len(),
            match next {
                Some(i) => find(h@, q@, pos as int) == Some(i as int) && i + q.len() <= h.len(),
                None => find(h@, q@, pos as int) is None,
            },
            split(h@, q@).last() == split(h@.skip(pos as int), q@).last(),
        decreases h@.len() - pos,
    {
        let i = next.unwrap();
        proof {
            lemma_find_result(h@, q@, pos as int);
            lemma_find_skip(h@, q@, pos as int, 0);
            let cur = h@.skip(pos as int);
            let k = i - pos + q@.len();
            assert(cur.skip(k) =~= h@.skip(i + q@.len()));
            assert(split(cur, q@) == seq![cur.take(i - pos)] + split(cur.skip(k), q@));
            lemma_split_len(cur.skip(k), q@);
        }
        pos = i + q.len();
        next = find_from(&h, &q, pos);
    }
    let ghost tail = h@.skip(pos as int);
    proof {
        lemma_find_skip(h@, q@, pos as int, 0);
        assert(split(tail, q@) == seq![tail]);
        lemma_find_skip(h@, dq@, pos as int, 0);
        lemma_find_result(h@, dq@, pos as int);
    }
    let end = match find_from(&h, &dq, pos) {
        Some(k) => k,
        None => h.len(),
    };
    proof {
        if let Some(k) = find(tail, dq@, 0) {
            lemma_find_result(tail, dq@, 0);
            assert(split(tail, dq@) == seq![tail.take(k)] + split(tail.skip(k + 1), dq@));
        }
        assert(split(tail, dq@)[0] =~= h@.subrange(pos as int, end as int));
    }
    String::from_str(script.substring_char(pos, end))
}

/// The id of a highlight reel as the tray lists it: for an id that holds
/// `highlight:`, the text between its first and second `:`.
pub open spec fn spec_reel_id(raw: Seq<char>) -> Seq<char> {
    if contains(raw, "highlight:"@) {
        split(raw, ":"@)[1]
    } else {
        raw
    }
}

/// The id of a highlight reel as the tray lists it.
pub fn reel_id(raw: &str) -> (r: String)
    ensures
        r@ == spec_reel_id(raw@),
{
    let h = chars_of(raw);
    let tag = chars_of("highlight:");
    let colon = chars_of(":");
    proof {
        reveal_strlit("highlight:");
        reveal_strlit(":");
    }
    match find_from(&h, &tag, 0) {
        None => String::from_str(raw),
        Some(a) => {
            proof {
                lemma_find_result(h@, tag@, 0);
                assert(h@.subrange(a as int, a + 10)[9] == ':');
                assert(h@.subrange(a + 9, a + 10) =~= colon@);
                assert(occurs_at(h@, colon@, a + 9));
                lemma_find_result(h@, colon@, 0);
                assert(find(h@, colon@, 0) is Some);
            }
            let c = match find_from(&h, &colon, 0) {
                Some(c) => c,
                None => 0,
            };
            let ghost rest = h@.skip(c + 1);
            proof {
                lemma_find_result(h@, colon@, 0);
                assert(split(h@, colon@) == seq![h@.take(c as int)] + split(rest, colon@));
                lemma_find_skip(h@, colon@, c + 1, 0);
                lemma_find_result(h@, colon@, c + 1);
            }
            let end = match find_from(&h, &colon, c + 1) {
                Some(d) => d,
                None => h.len(),
            };
            proof {
                if let Some(d) = find(rest, colon@, 0) {
                    lemma_find_result(rest, colon@, 0);
                    assert(split(rest, colon@) == seq![rest.take(d)] + split(rest.skip(d + 1), colon@));
                }
                assert(split(rest, colon@)[0] =~= h@.subrange(c + 1, end as int));
            }
            String::from_str(raw.substring_char(c + 1, end))
        },
    }
}

/// The shared-data text cut out of a page ends in `}`; what comes before
/// that `}` stands in the page right after the first `window._sharedData = `
/// and holds no `};`.
pub proof fn lemma_shared_data_shape(html: Seq<char>)
    ensures
        spec_extract_json_str(html) matches Some(text) ==> {
            &&& text.len() >= 1
            &&& text.last() == '}'
            &&& find(html, shared_data_marker(), 0) matches Some(m) && {
                let start = m + shared_data_marker().len();
                &&& start + text.len() - 1 <= html.len()
                &&& html.subrange(start, start + text.len() - 1) == text.drop_last()
            }
            &&& !contains(text.drop_last(), shared_data_end())
        },
{
    reveal_strlit("window._sharedData = ");
    reveal_strlit("};");
    reveal_strlit("}");
    let p = shared_data_marker();
    let e = shared_data_end();
    if let Some(text) = spec_extract_json_str(html) {
        lemma_split_len(html, p);
        lemma_find_result(html, p, 0);
        let m = find(html, p, 0)->0;
        let start = m + p.len();
        let rest = html.skip(start);
        assert(split(html, p) == seq![html.take(m)] + split(rest, p));
        let seg = split(rest, p)[0];
        let head = split(seg, e)[0];
        lemma_split_pieces_free(seg, e);
        lemma_split_len(seg, e);
        assert(text == head + "}"@);
        assert(text.drop_last() =~= head);
        lemma_find_result(rest, p, 0);
        let seg_end = match find(rest, p, 0) {
            Some(j) => j,
            None => rest.len() as int,
        };
        if let Some(j) = find(rest, p, 0) {
            assert(split(rest, p) == seq![rest.take(j)] + split(rest.skip(j + p.len()), p));
        }
        assert(seg =~= rest.take(seg_end));
        lemma_find_result(seg, e, 0);
        let cut = match find(seg, e, 0) {
            Some(k) => k,
            None => seg.len() as int,
        };
        if let Some(k) = find(seg, e, 0) {
            assert(split(seg, e) == seq![seg.take(k)] + split(seg.skip(k + e.len()), e));
        }
        assert(head =~= seg.take(cut));
        assert(html.subrange(start, start + head.len()) =~= head);
    }
}

/// The query hash holds no `"`.
pub proof fn lemma_query_hash_unquoted(script: Seq<char>)
    ensures
        !contains(spec_query_hash(script), "\""@),
{
    reveal_strlit("\"");
    reveal_strlit("},queryId:\"");
    let pieces = split(script, query_id_marker());
    lemma_split_len(script, query_id_marker());
    lemma_split_len(pieces.last(), "\""@);
    lemma_split_pieces_free(pieces.last(), "\""@);
}

/// The id of a reel listed as `highlight:...` holds no `:`; any other id is
/// kept as it is.
pub proof fn lemma_reel_id_shape(raw: Seq<char>)
    ensures
        contains(raw, "highlight:"@) ==> !contains(spec_reel_id(raw), ":"@),
        !contains(raw, "highlight:"@) ==> spec_reel_id(raw) == raw,
{
    reveal_strlit(":");
    reveal_strlit("highlight:");
    if contains(raw, "highlight:"@) {
        let a = find(raw, "highlight:"@, 0)->0;
        lemma_find_result(raw, "highlight:"@, 0);
        assert(raw.subrange(a, a + 10)[9] == ':');
        assert(raw.subrange(a + 9, a + 10) =~= ":"@);
        assert(occurs_at(raw, ":"@, a + 9));
        lemma_contains_occurs(raw, ":"@);
        lemma_split_len(raw, ":"@);
        lemma_split_pieces_free(raw, ":"@);
    }
}

/// The characters of the query-id marker: it opens with `}`, and its one `"`
/// is its last character.
proof fn lemma_query_marker_chars()
    ensures
        query_id_marker().len() == 11,
        query_id_marker()[0] == '}',
        query_id_marker()[10] == '"',
        forall|i: int| 0 <= i < 10 ==> #[trigger] query_id_marker()[i] != '"',
{
    reveal_strlit("},queryId:\"");
    assert(query_id_marker() =~= seq!['}', ',', 'q', 'u', 'e', 'r', 'y', 'I', 'd', ':', '"']);
}

/// Whatever comes before the last query-id marker, the last piece that
/// splitting at the marker yields is the text after it, when that text holds
/// no marker.
proof fn lemma_split_last_piece(a: Seq<char>, rest: Seq<char>)
    requires
        forall|j: int| !#[trigger] occurs_at(rest, query_id_marker(), j),
    ensures
        split(a + query_id_marker() + rest, query_id_marker()).last() == rest,
        split(a + query_id_marker() + rest, query_id_marker()).len() >= 2,
    decreases a.len(),
{
    let q = query_id_marker();
    lemma_query_marker_chars();
    let w = a + q + rest;
    let n = a.len() as int;
    assert(w.subrange(n, n + 11) =~= q);
    assert(occurs_at(w, q, n));
    lemma_find_result(w, q, 0);
    lemma_split_len(w, q);
    lemma_contains_occurs(w, q);
    let i = find(w, q, 0)->0;
    assert(i <= n);
    if i < n && i + 11 > n {
        let k = i + 10 - n;
        assert(w.subrange(i, i + 11)[10] == w[i + 10]);
        assert(w[i + 10] == q[k]);
    }
    assert(split(w, q) == seq![w.take(i)] + split(w.skip(i + 11), q));
    if i == n {
        assert(w.skip(i + 11) =~= rest);
        lemma_find_result(rest, q, 0);
        assert(split(rest, q) == seq![rest]);
    } else {
        let a2 = a.skip(i + 11);
        assert(w.skip(i + 11) =~= a2 + q + rest);
        lemma_split_last_piece(a2, rest);
    }
}

/// The query hash of a script is the text between its last `},queryId:"`
/// and the `"` that follows, whatever comes before: for a hash without `"`
/// or `}` followed by a `"` and text without the marker.
pub proof fn lemma_query_hash_of(a: Seq<char>, h: Seq<char>, t: Seq<char>)
    requires
        !contains(h, "\""@),
        !contains(h, "}"@),
        !contains(t, query_id_marker()),
    ensures
        split(a + query_id_marker() + h + "\""@ + t, query_id_marker()).len() >= 2,
        spec_query_hash(a + query_id_marker() + h + "\""@ + t) == h,
{
    reveal_strlit("\"");
    reveal_strlit("}");
    let q = query_id_marker();
    let dq = "\""@;
    lemma_query_marker_chars();
    let rest = h + dq + t;
    let m = h.len() as int;
    assert(a + q + h + dq + t =~= a + q + rest);
    assert forall|j: int| !#[trigger] occurs_at(rest, q, j) by {
        if occurs_at(rest, q, j) {
            assert(rest.subrange(j, j + 11)[0] == rest[j]);
            if j < m {
                assert(h.subrange(j, j + 1) =~= "}"@);
                assert(occurs_at(h, "}"@, j));
                lemma_contains_occurs(h, "}"@);
            } else if j > m {
                assert(rest.subrange(j, j + 11) =~= t.subrange(j - m - 1, j - m + 10));
                assert(occurs_at(t, q, j - m - 1));
                lemma_contains_occurs(t, q);
            }
        }
    }
    lemma_split_last_piece(a, rest);
    assert(rest.subrange(m, m + 1) =~= dq);
    assert forall|j: int| 0 <= j < m implies !occurs_at(rest, dq, j) by {
        if occurs_at(rest, dq, j) {
            assert(h.subrange(j, j + 1) =~= rest.subrange(j, j + 1));
            assert(occurs_at(h, dq, j));
            lemma_contains_occurs(h, dq);
        }
    }
    lemma_find_first(rest, dq, m);
    assert(split(rest, dq) == seq![rest.take(m)] + split(rest.skip(m + 1), dq));
    assert(rest.take(m) =~= h);
}

/// Text that starts with `highlight:` holds it, and its first `:` is the
/// last character of that tag.
proof fn lemma_tag_first_colon(w: Seq<char>)
    requires
        w.len() >= 10,
        w.take(10) == "highlight:"@,
    ensures
        contains(w, "highlight:"@),
        find(w, ":"@, 0) == Some(9int),
{
    reveal_strlit(":");
    reveal_strlit("highlight:");
    let tag = "highlight:"@;
    let c = ":"@;
    assert(tag =~= seq!['h', 'i', 'g', 'h', 'l', 'i', 'g', 'h', 't', ':']);
    assert(w.subrange(0, 10) =~= tag);
    assert(occurs_at(w, tag, 0));
    lemma_contains_occurs(w, tag);
    assert(w.subrange(9, 10) =~= c);
    assert forall|j: int| 0 <= j < 9 implies !occurs_at(w, c, j) by {
        assert(w.subrange(j, j + 1)[0] == w[j]);
        assert(w.take(10)[j] == w[j]);
    }
    lemma_find_first(w, c, 9);
}

/// The id of a reel listed as `highlight:` followed by an id without `:` is
/// that id, whatever follows it after a further `:`.
pub proof fn lemma_reel_id_of_highlight(x: Seq<char>, y: Seq<char>)
    requires
        !contains(x, ":"@),
    ensures
        spec_reel_id("highlight:"@ + x) == x,
        spec_reel_id("highlight:"@ + x + ":"@ + y) == x,
{
    reveal_strlit(":");
    reveal_strlit("highlight:");
    let tag = "highlight:"@;
    let c = ":"@;
    assert(tag =~= seq!['h', 'i', 'g', 'h', 'l', 'i', 'g', 'h', 't', ':']);
    assert forall|j: int| 0 <= j < x.len() implies !occurs_at(x, c, j) by {
        if occurs_at(x, c, j) {
            lemma_contains_occurs(x, c);
        }
    }
    let a = tag + x;
    let b = tag + x + c + y;
    assert(a.take(10) =~= tag);
    assert(b.take(10) =~= tag);
    lemma_tag_first_colon(a);
    lemma_tag_first_colon(b);
    assert(split(a, c) == seq![a.take(9)] + split(a.skip(10), c));
    assert(a.skip(10) =~= x);
    lemma_find_result(x, c, 0);
    assert(split(x, c) == seq![x]);
    let r = x + c + y;
    assert(split(b, c) == seq![b.take(9)] + split(b.skip(10), c));
    assert(b.skip(10) =~= r);
    let n = x.len() as int;
    assert(r.subrange(n, n + 1) =~= c);
    assert forall|j: int| 0 <= j < x.len() implies !occurs_at(r, c, j) by {
        if occurs_at(r, c, j) {
            assert(r.subrange(j, j + 1) =~= x.subrange(j, j + 1));
            assert(occurs_at(x, c, j));
        }
    }
    lemma_find_first(r, c, x.len() as int);
    assert(split(r, c) == seq![r.take(x.len() as int)] + split(r.skip(n + 1), c));
    assert(r.take(x.len() as int) =~= x);
}

/// The document that a page's shared data holds, if it has shared data and
/// that parses.
pub open spec fn shared_doc(html: Seq<char>) -> Option<Json> {
    match spec_extract_json_str(html) {
        Some(text) => match parsed_json(text) {
            Ok(doc) => Some(doc),
            Err(_) => None,
        },
        None => None,
    }
}

/// The error that reading a page's shared data gives: `InvalidSharedData`
/// when the page has none, `NotJson` with the parser's message when its text
/// does not parse.
pub open spec fn shared_data_error(html: Seq<char>, e: ApiError) -> bool {
    match spec_extract_json_str(html) {
        None => e == ApiError::InvalidSharedData,
        Some(text) => match parsed_json(text) {
            Err(message) => e matches ApiError::NotJson(m) && m@ == message,
            Ok(_) => false,
        },
    }
}

/// The document that an Instagram page's shared data holds.
pub fn shared_data(html: &str) -> (r: Result<Json, ApiError>)
    ensures
        match shared_doc(html@) {
            Some(doc) => r == Ok::<Json, ApiError>(doc),
            None => r matches Err(e) && shared_data_error(html@, e),
        },
{
    let text = extract_json_str(html)?;
    match parse_json(text.as_str()) {
        Ok(doc) => Ok(doc),
        Err(message) => Err(ApiError::NotJson(message)),
    }
}

/// The first occurrence of a pattern is where it stands with no occurrence
/// before it.
proof fn lemma_find_first(w: Seq<char>, pat: Seq<char>, n: int)
    requires
        occurs_at(w, pat, n),
        forall|j: int| 0 <= j < n ==> !occurs_at(w, pat, j),
    ensures
        find(w, pat, 0) == Some(n),
{
    lemma_find_result(w, pat, 0);
}

/// The characters of the marker: its last two (`=` and a space) stand
/// together nowhere else in it, and it holds no `}`.
proof fn lemma_marker_unbordered()
    ensures
        shared_data_marker().len() == 21,
        forall|k: int|
            1 <= k <= 20 ==> !(#[trigger] shared_data_marker()[20 - k] == shared_data_marker()[20]
                && shared_data_marker()[19 - k] == shared_data_marker()[19]),
        forall|i: int| 0 <= i < 21 ==> #[trigger] shared_data_marker()[i] != '}',
        shared_data_marker()[0] != ';',
{
    reveal_strlit("window._sharedData = ");
    let m = shared_data_marker();
    assert(m =~= seq![
        'w', 'i', 'n', 'd', 'o', 'w', '.', '_', 's', 'h', 'a', 'r', 'e', 'd', 'D', 'a', 't', 'a',
        ' ', '=', ' ',
    ]);
}

/// Text without the marker, followed by the marker, has its first marker
/// there: the marker cannot overlap itself.
proof fn lemma_marker_first(p: Seq<char>, x: Seq<char>)
    requires
        !contains(p, shared_data_marker()),
    ensures
        find(p + shared_data_marker() + x, shared_data_marker(), 0) == Some(p.len() as int),
{
    reveal_strlit("window._sharedData = ");
    let m = shared_data_marker();
    let w = p + m + x;
    let n = p.len() as int;
    assert(m.len() == 21);
    assert(w.subrange(n, n + 21) =~= m);
    assert forall|j: int| 0 <= j < n implies !occurs_at(w, m, j) by {
        if occurs_at(w, m, j) {
            if j + 21 <= n {
                assert(p.subrange(j, j + 21) =~= w.subrange(j, j + 21));
                assert(occurs_at(p, m, j));
                lemma_contains_occurs(p, m);
            } else {
                let k = n - j;
                assert(w.subrange(j, j + 21)[20] == w[n + (20 - k)]);
                assert(w.subrange(j, j + 21)[19] == w[n + (19 - k)]);
                assert(w[n + (20 - k)] == m[20 - k]);
                assert(w[n + (19 - k)] == m[19 - k]);
                lemma_marker_unbordered();
                assert(!(m[20 - k] == m[20] && m[19 - k] == m[19]));
            }
        }
    }
    lemma_find_first(w, m, n);
}

/// A page made of any text without the marker, the marker, text `s` with
/// neither the marker nor `};`, then `};` and anything: its shared data is
/// `s` with the `}` put back.
#[verifier::spinoff_prover]
#[verifier::rlimit(40)]
pub proof fn lemma_shared_data_round_trip(p: Seq<char>, s: Seq<char>, t: Seq<char>)
    requires
        !contains(p, shared_data_marker()),
        !contains(s, shared_data_marker()),
        !contains(s, shared_data_end()),
    ensures
        spec_extract_json_str(p + shared_data_marker() + s + shared_data_end() + t) == Some(
            s + "}"@,
        ),
{
    reveal_strlit("window._sharedData = ");
    reveal_strlit("};");
    let m = shared_data_marker();
    let e = shared_data_end();
    let rest = s + e + t;
    let w = p + m + rest;
    assert(p + m + s + e + t =~= w);
    let n = p.len() as int;
    let ls = s.len() as int;
    lemma_marker_first(p, rest);
    assert(w.skip(n + 21) =~= rest);
    assert(split(w, m) == seq![w.take(n)] + split(rest, m));
    assert(rest[ls] == '}' && rest[ls + 1] == ';');
    // No marker starts in `rest` before the end of `s};`.
    assert forall|j: int| 0 <= j < ls + 2 implies !occurs_at(rest, m, j) by {
        if occurs_at(rest, m, j) {
            if j + 21 <= ls {
                assert(s.subrange(j, j + 21) =~= rest.subrange(j, j + 21));
                assert(occurs_at(s, m, j));
                lemma_contains_occurs(s, m);
            } else if j <= ls {
                assert(rest.subrange(j, j + 21)[ls - j] == rest[ls]);
                lemma_marker_unbordered();
                assert(m[ls - j] != '}');
            } else {
                lemma_marker_unbordered();
                assert(rest.subrange(j, j + 21)[0] == rest[j]);
            }
        }
    }
    lemma_find_result(rest, m, 0);
    let seg_end = match find(rest, m, 0) {
        Some(j) => j,
        None => rest.len() as int,
    };
    if let Some(j) = find(rest, m, 0) {
        assert(split(rest, m) == seq![rest.take(j)] + split(rest.skip(j + 21), m));
    }
    let seg = rest.take(seg_end);
    assert(split(w, m)[1] == seg);
    // The first `};` in that piece ends `s`.
    assert(seg.subrange(ls, ls + 2) =~= e);
    assert forall|j: int| 0 <= j < ls implies !occurs_at(seg, e, j) by {
        if occurs_at(seg, e, j) {
            if j + 2 <= ls {
                assert(s.subrange(j, j + 2) =~= seg.subrange(j, j + 2));
                assert(occurs_at(s, e, j));
                lemma_contains_occurs(s, e);
            } else {
                assert(seg.subrange(j, j + 2)[1] == seg[ls]);
            }
        }
    }
    lemma_find_first(seg, e, ls);
    assert(split(seg, e) == seq![seg.take(ls)] + split(seg.skip(ls + 2), e));
    assert(seg.take(ls) =~= s);
    lemma_split_len(w, m);
}

/// Text without the marker put before a page that starts with the marker
/// leaves its shared data as it was.
pub proof fn lemma_shared_data_ignores_prefix(p: Seq<char>, html: Seq<char>)
    requires
        !contains(p, shared_data_marker()),
        html.len() >= shared_data_marker().len(),
        html.take(shared_data_marker().len() as int) == shared_data_marker(),
    ensures
        spec_extract_json_str(p + html) == spec_extract_json_str(html),
{
    reveal_strlit("window._sharedData = ");
    let m = shared_data_marker();
    let x = html.skip(21);
    let empty = Seq::<char>::empty();
    assert(p + html =~= p + m + x);
    assert(html =~= empty + m + x);
    assert(find(empty, m, 0) is None);
    lemma_marker_first(p, x);
    lemma_marker_first(empty, x);
    let w = p + html;
    let n = p.len() as int;
    assert(w.skip(n + 21) =~= x);
    assert(html.skip(21) =~= x);
    assert(split(w, m) == seq![w.take(n)] + split(x, m));
    assert(split(html, m) == seq![html.take(0)] + split(x, m));
    lemma_split_len(x, m);
}

} // verus!

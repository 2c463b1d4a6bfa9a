//! User-sync index: Redis key layout, recipient normalisation, change
//! detection from stored conversation states, pipeline chunking, and the
//! compensation tasks that replay failed index updates.
use vstd::prelude::*;
use vstd::string::*;
use crate::text::{
    trimmed, blank, trim, chars_of, trim_bounds, string_from_range, string_from_chars, is_blank,
    unsigned_text_value, parse_usize, parse_u64, parse_i64, parse_u64_spec, parse_i64_spec, seq_lt,
};
use crate::field_map::FieldMap;
use crate::sorted::{views, strictly_sorted, insert_sorted, search_sorted};

verus! {

/// Users per Redis pipeline when the environment sets no valid size.
pub const RECORD_CHANGE_CHUNK_DEFAULT: usize = 500;

// ---------------------------------------------------------------------------
// Pipeline chunking
// ---------------------------------------------------------------------------

/// The chunk size a configured value yields: a positive integer (after
/// trimming), or the default.  Zero would make `chunks` panic and a missing
/// value must not mean "unbounded".
pub open spec fn record_change_chunk(raw: Option<Seq<char>>) -> usize {
    match raw {
        Some(t) => match unsigned_text_value(trimmed(t)) {
            Some(v) => if 0 < v <= usize::MAX {
                v as usize
            } else {
                RECORD_CHANGE_CHUNK_DEFAULT
            },
            None => RECORD_CHANGE_CHUNK_DEFAULT,
        },
        None => RECORD_CHANGE_CHUNK_DEFAULT,
    }
}

/// Parses the configured pipeline chunk size.
pub fn parse_record_change_chunk(raw: Option<&str>) -> (r: usize)
    ensures
        r == record_change_chunk(match raw {
            Some(t) => Some(t@),
            None => None,
        }),
        r > 0,
{
    match raw {
        Some(t) => {
            let trimmed_text = trim(t);
            match parse_usize(trimmed_text.as_str()) {
                Some(size) => {
                    if size > 0 {
                        size
                    } else {
                        RECORD_CHANGE_CHUNK_DEFAULT
                    }
                },
                None => RECORD_CHANGE_CHUNK_DEFAULT,
            }
        },
        None => RECORD_CHANGE_CHUNK_DEFAULT,
    }
}

/// The `[start, end)` bounds of the pipelines a list of `len` users is split
/// into, `size` users per pipeline (the bounds of `slice::chunks(size)`).
pub fn chunk_ranges(len: usize, size: usize) -> (r: Vec<(usize, usize)>)
    requires
        size > 0,
    ensures
        r@.len() == (len + size - 1) / (size as int),
        forall|i: int| 0 <= i < r@.len() ==> (#[trigger] r@[i]).0 == i * size,
        forall|i: int|
            0 <= i < r@.len() ==> (#[trigger] r@[i]).1 == (if (i + 1) * size < len {
                (i + 1) * size
            } else {
                len as int
            }),
{
    let mut r: Vec<(usize, usize)> = Vec::new();
    let mut start: usize = 0;
    assert(r@.len() * size == 0) by (nonlinear_arith)
        requires
            r@.len() == 0,
    ;
    while start < len
        invariant
            size > 0,
            start <= len,
            r@.len() * size >= start,
            start < len ==> start as int == r@.len() * size,
            r@.len() == 0 || (r@.len() - 1) * size < len,
            r@.len() == 0 ==> start == 0,
            forall|i: int| 0 <= i < r@.len() ==> (#[trigger] r@[i]).0 == i * size,
            forall|i: int|
                0 <= i < r@.len() ==> (#[trigger] r@[i]).1 == (if (i + 1) * size < len {
                    (i + 1) * size
                } else {
                    len as int
                }),
        decreases len - start,
    {
        let end: usize = if len - start > size {
            start + size
        } else {
            len
        };
        proof {
            assert((r@.len() + 1) * size == r@.len() * size + size) by (nonlinear_arith);
        }
        r.push((start, end));
        start = end;
    }
    proof {
        let n = r@.len() as int;
        let s = size as int;
        let l = len as int;
        assert(n * s >= l);
        assert(n == 0 || (n - 1) * s < l);
        lemma_ceil_div(n, s, l);
    }
    r
}

proof fn lemma_ceil_div(n: int, s: int, l: int)
    requires
        s > 0,
        l >= 0,
        n >= 0,
        n * s >= l,
        n == 0 || (n - 1) * s < l,
    ensures
        n == (l + s - 1) / s,
{
    if n == 0 {
        assert(l == 0);
        assert((s - 1) / s == 0) by (nonlinear_arith)
            requires
                s > 0,
        ;
    } else {
        assert((l + s - 1) / s == n) by (nonlinear_arith)
            requires
                s > 0,
                n * s >= l,
                (n - 1) * s < l,
        ;
    }
}

// ---------------------------------------------------------------------------
// Keys
// ---------------------------------------------------------------------------

/// `sync:user:{tenant}:{user}:version`.
pub open spec fn version_key_spec(tenant_id: Seq<char>, user_id: Seq<char>) -> Seq<char> {
    "sync:user:"@ + tenant_id + ":"@ + user_id + ":version"@
}

/// `sync:user:{tenant}:{user}:changes`.
pub open spec fn changes_key_spec(tenant_id: Seq<char>, user_id: Seq<char>) -> Seq<char> {
    "sync:user:"@ + tenant_id + ":"@ + user_id + ":changes"@
}

/// `sync:user:{tenant}:{user}:conversation:{conversation}`.
pub open spec fn conversation_state_key_spec(
    tenant_id: Seq<char>,
    user_id: Seq<char>,
    conversation_id: Seq<char>,
) -> Seq<char> {
    "sync:user:"@ + tenant_id + ":"@ + user_id + ":conversation:"@ + conversation_id
}

/// `sync:conversation:{tenant}:{conversation}:version`.
pub open spec fn conversation_version_key_spec(tenant_id: Seq<char>, conversation_id: Seq<char>) -> Seq<char> {
    "sync:conversation:"@ + tenant_id + ":"@ + conversation_id + ":version"@
}

/// `sync:conversation:{tenant}:{conversation}:state`.
pub open spec fn conversation_sync_state_key_spec(tenant_id: Seq<char>, conversation_id: Seq<char>) -> Seq<char> {
    "sync:conversation:"@ + tenant_id + ":"@ + conversation_id + ":state"@
}

pub fn version_key(tenant_id: &str, user_id: &str) -> (r: String)
    ensures
        r@ == version_key_spec(tenant_id@, user_id@),
{
    let mut r = String::from_str("sync:user:");
    r.append(tenant_id);
    r.append(":");
    r.append(user_id);
    r.append(":version");
    r
}

pub fn changes_key(tenant_id: &str, user_id: &str) -> (r: String)
    ensures
        r@ == changes_key_spec(tenant_id@, user_id@),
{
    let mut r = String::from_str("sync:user:");
    r.append(tenant_id);
    r.append(":");
    r.append(user_id);
    r.append(":changes");
    r
}

pub fn conversation_state_key(tenant_id: &str, user_id: &str, conversation_id: &str) -> (r: String)
    ensures
        r@ == conversation_state_key_spec(tenant_id@, user_id@, conversation_id@),
{
    let mut r = String::from_str("sync:user:");
    r.append(tenant_id);
    r.append(":");
    r.append(user_id);
    r.append(":conversation:");
    r.append(conversation_id);
    r
}

pub fn conversation_version_key(tenant_id: &str, conversation_id: &str) -> (r: String)
    ensures
        r@ == conversation_version_key_spec(tenant_id@, conversation_id@),
{
    let mut r = String::from_str("sync:conversation:");
    r.append(tenant_id);
    r.append(":");
    r.append(conversation_id);
    r.append(":version");
    r
}

pub fn conversation_sync_state_key(tenant_id: &str, conversation_id: &str) -> (r: String)
    ensures
        r@ == conversation_sync_state_key_spec(tenant_id@, conversation_id@),
{
    let mut r = String::from_str("sync:conversation:");
    r.append(tenant_id);
    r.append(":");
    r.append(conversation_id);
    r.append(":state");
    r
}

/// The tenant a request belongs to: its own tenant unless blank, else `"0"`.
pub fn tenant_or_default(tenant_id: Option<&str>) -> (r: String)
    ensures
        r@ == (match tenant_id {
            Some(t) => if !blank(t@) {
                t@
            } else {
                "0"@
            },
            None => "0"@,
        }),
{
    match tenant_id {
        Some(t) => {
            if !is_blank(t) {
                String::from_str(t)
            } else {
                String::from_str("0")
            }
        },
        None => String::from_str("0"),
    }
}

// ---------------------------------------------------------------------------
// Recipient normalisation
// ---------------------------------------------------------------------------

/// `x` is the non-empty trimmed form of one of the first `n` ids.
pub open spec fn is_trimmed_id(ids: Seq<String>, n: int, x: Seq<char>) -> bool {
    exists|j: int| 0 <= j < n && x.len() > 0 && #[trigger] trimmed(ids[j]@) == x
}

/// The result of normalising `ids`: the distinct non-empty trimmed ids, in
/// increasing order.
pub open spec fn normalized_ids(ids: Seq<String>, out: Seq<Seq<char>>) -> bool {
    &&& strictly_sorted(out)
    &&& forall|x: Seq<char>| #[trigger] out.contains(x) <==> is_trimmed_id(ids, ids.len() as int, x)
}

/// Builds strings from the character vectors of a sorted key list.
fn strings_of(keys: &Vec<Vec<char>>) -> (r: Vec<String>)
    ensures
        r@.map_values(|s: String| s@) == views(keys@),
{
    let mut r: Vec<String> = Vec::new();
    let mut i: usize = 0;
    while i < keys.len()
        invariant
            i <= keys@.len(),
            r@.map_values(|s: String| s@) == views(keys@).subrange(0, i as int),
        decreases keys@.len() - i,
    {
        let s = string_from_chars(&keys[i]);
        let ghost prev = r@;
        r.push(s);
        proof {
            assert(r@ == prev.push(s));
            assert(r@.map_values(|s: String| s@) =~= prev.map_values(|s: String| s@).push(s@));
            assert(views(keys@)[i as int] == keys@[i as int]@);
            assert(views(keys@).subrange(0, i + 1) =~= views(keys@).subrange(0, i as int).push(keys@[i as int]@));
        }
        i = i + 1;
    }
    assert(views(keys@).subrange(0, i as int) =~= views(keys@));
    r
}

/// Trims, drops empty ids, de-duplicates and sorts recipient ids.
pub fn normalized_user_ids(user_ids: &[String]) -> (r: Vec<String>)
    ensures
        normalized_ids(user_ids@, r@.map_values(|s: String| s@)),
{
    let mut keys: Vec<Vec<char>> = Vec::new();
    let mut j: usize = 0;
    while j < user_ids.len()
        invariant
            j <= user_ids@.len(),
            strictly_sorted(views(keys@)),
            forall|x: Seq<char>| #[trigger] views(keys@).contains(x) <==> is_trimmed_id(user_ids@, j as int, x),
        decreases user_ids@.len() - j,
    {
        let v = chars_of(user_ids[j].as_str());
        let (a, b) = trim_bounds(&v);
        let ghost before = views(keys@);
        if a < b {
            let mut t: Vec<char> = Vec::new();
            let mut k = a;
            while k < b
                invariant
                    a <= k <= b <= v@.len(),
                    t@ == v@.subrange(a as int, k as int),
                decreases b - k,
            {
                t.push(v[k]);
                assert(v@.subrange(a as int, k + 1) =~= v@.subrange(a as int, k as int).push(v@[k as int]));
                k = k + 1;
            }
            let ghost tv = t@;
            insert_sorted(&mut keys, t);
            proof {
                assert(tv == trimmed(user_ids@[j as int]@));
                assert forall|x: Seq<char>| #[trigger] views(keys@).contains(x) <==> is_trimmed_id(user_ids@, j + 1, x) by {
                    if x == tv {
                        assert(trimmed(user_ids@[j as int]@) == x);
                    }
                    if is_trimmed_id(user_ids@, j + 1, x) && !is_trimmed_id(user_ids@, j as int, x) {
                        let w = choose|w: int| 0 <= w < j + 1 && x.len() > 0 && #[trigger] trimmed(user_ids@[w]@) == x;
                        assert(w == j);
                    }
                    if is_trimmed_id(user_ids@, j as int, x) {
                        let w = choose|w: int| 0 <= w < j && x.len() > 0 && #[trigger] trimmed(user_ids@[w]@) == x;
                        assert(0 <= w < j + 1);
                    }
                }
            }
        } else {
            proof {
                assert(trimmed(user_ids@[j as int]@).len() == 0);
                assert forall|x: Seq<char>| #[trigger] views(keys@).contains(x) <==> is_trimmed_id(user_ids@, j + 1, x) by {
                    if is_trimmed_id(user_ids@, j + 1, x) && !is_trimmed_id(user_ids@, j as int, x) {
                        let w = choose|w: int| 0 <= w < j + 1 && x.len() > 0 && #[trigger] trimmed(user_ids@[w]@) == x;
                        assert(w == j);
                    }
                    if is_trimmed_id(user_ids@, j as int, x) {
                        let w = choose|w: int| 0 <= w < j && x.len() > 0 && #[trigger] trimmed(user_ids@[w]@) == x;
                        assert(0 <= w < j + 1);
                    }
                }
            }
        }
        j = j + 1;
    }
    strings_of(&keys)
}

// ---------------------------------------------------------------------------
// Known conversation versions
// ---------------------------------------------------------------------------

/// The highest version the first `n` entries give the conversation `key`
/// (entries are matched by their trimmed id; 0 when none matches).
pub open spec fn max_known_version(known: Seq<(String, u64)>, n: int, key: Seq<char>) -> u64
    decreases n,
{
    if n <= 0 {
        0
    } else {
        let prev = max_known_version(known, n - 1, key);
        if trimmed(known[n - 1].0@) == key && known[n - 1].1 > prev {
            known[n - 1].1
        } else {
            prev
        }
    }
}

/// The ids of a list of `(id, version)` pairs.
pub open spec fn version_ids(entries: Seq<(String, u64)>) -> Seq<Seq<char>> {
    entries.map_values(|e: (String, u64)| e.0@)
}

/// `x` is the non-empty trimmed id of one of the first `n` entries.
pub open spec fn is_known_id(known: Seq<(String, u64)>, n: int, x: Seq<char>) -> bool {
    exists|j: int| 0 <= j < n && x.len() > 0 && #[trigger] trimmed(known[j].0@) == x
}

proof fn lemma_max_known_version_absent(known: Seq<(String, u64)>, n: int, key: Seq<char>)
    requires
        0 <= n <= known.len(),
        key.len() > 0,
        !is_known_id(known, n, key),
    ensures
        max_known_version(known, n, key) == 0,
    decreases n,
{
    if n > 0 {
        assert(trimmed(known[n - 1].0@) != key);
        assert(!is_known_id(known, n - 1, key)) by {
            if is_known_id(known, n - 1, key) {
                let w = choose|w: int| 0 <= w < n - 1 && key.len() > 0 && #[trigger] trimmed(known[w].0@) == key;
                assert(0 <= w < n);
            }
        }
        lemma_max_known_version_absent(known, n - 1, key);
    }
}

/// Whether `out` is the normalised form of the reported pairs `known`:
/// trimmed non-blank ids, each once with its highest version, in
/// increasing id order.
pub open spec fn normalized_versions(known: Seq<(String, u64)>, out: Seq<(String, u64)>) -> bool {
    &&& strictly_sorted(version_ids(out))
    &&& forall|x: Seq<char>| #[trigger] version_ids(out).contains(x) <==> is_known_id(known, known.len() as int, x)
    &&& forall|i: int|
        0 <= i < out.len() ==> (#[trigger] out[i]).1 == max_known_version(known, known.len() as int, out[i].0@)
}

/// Normalises the `(conversation_id, version)` pairs a client reports: ids are
/// trimmed, blank ids dropped, each conversation kept once with its highest
/// version, in increasing id order.
pub fn normalized_known_conversation_versions(known: &[(String, u64)]) -> (r: Vec<(String, u64)>)
    ensures
        normalized_versions(known@, r@),
{
    let mut keys: Vec<Vec<char>> = Vec::new();
    let mut vals: Vec<u64> = Vec::new();
    let mut j: usize = 0;
    while j < known.len()
        invariant
            j <= known@.len(),
            vals@.len() == keys@.len(),
            strictly_sorted(views(keys@)),
            forall|x: Seq<char>| #[trigger] views(keys@).contains(x) <==> is_known_id(known@, j as int, x),
            forall|i: int| 0 <= i < keys@.len() ==> #[trigger] vals@[i] == max_known_version(known@, j as int, keys@[i]@),
        decreases known@.len() - j,
    {
        let v = chars_of(known[j].0.as_str());
        let version = known[j].1;
        let (a, b) = trim_bounds(&v);
        let ghost old_keys = views(keys@);
        let ghost old_vals = vals@;
        if a < b {
            let mut t: Vec<char> = Vec::new();
            let mut k = a;
            while k < b
                invariant
                    a <= k <= b <= v@.len(),
                    t@ == v@.subrange(a as int, k as int),
                decreases b - k,
            {
                t.push(v[k]);
                assert(v@.subrange(a as int, k + 1) =~= v@.subrange(a as int, k as int).push(v@[k as int]));
                k = k + 1;
            }
            let ghost tv = t@;
            assert(tv == trimmed(known@[j as int].0@));
            match search_sorted(&keys, &t) {
                Ok(i) => {
                    if version > vals[i] {
                        vals.set(i, version);
                    }
                    proof {
                        assert forall|p: int| 0 <= p < keys@.len() implies #[trigger] vals@[p] == max_known_version(known@, j + 1, keys@[p]@) by {
                            assert(old_keys[p] == keys@[p]@);
                            if p != i {
                                lemma_seq_lt_total_pair(old_keys, p, i as int);
                            }
                        }
                        assert forall|x: Seq<char>| #[trigger] views(keys@).contains(x) <==> is_known_id(known@, j + 1, x) by {
                            lemma_known_id_step(known@, j as int, x);
                            if x == tv {
                                assert(old_keys[i as int] == x);
                            }
                        }
                    }
                },
                Err(i) => {
                    proof {
                        assert(!is_known_id(known@, j as int, tv)) by {
                            if is_known_id(known@, j as int, tv) {
                                assert(views(keys@).contains(tv));
                                let p = choose|p: int| 0 <= p < old_keys.len() && old_keys[p] == tv;
                                assert(old_keys[p] == keys@[p]@);
                                crate::text::lemma_seq_lt_irreflexive(tv);
                            }
                        }
                        lemma_max_known_version_absent(known@, j as int, tv);
                        assert forall|q: int| 0 <= q < i implies seq_lt(#[trigger] old_keys[q], tv) by {
                            assert(old_keys[q] == keys@[q]@);
                        }
                        assert forall|q: int| i <= q < old_keys.len() implies seq_lt(tv, #[trigger] old_keys[q]) by {
                            assert(old_keys[q] == keys@[q]@);
                        }
                    }
                    keys.insert(i, t);
                    vals.insert(i, version);
                    proof {
                        assert(views(keys@) =~= old_keys.insert(i as int, tv));
                        lemma_sorted_insert(old_keys, i as int, tv);
                        assert forall|p: int| 0 <= p < keys@.len() implies #[trigger] vals@[p] == max_known_version(known@, j + 1, keys@[p]@) by {
                            if p < i {
                                assert(keys@[p]@ == old_keys[p]);
                                assert(vals@[p] == old_vals[p]);
                                assert(seq_lt(old_keys[p], tv));
                                crate::text::lemma_seq_lt_irreflexive(tv);
                            } else if p > i {
                                assert(keys@[p]@ == old_keys[p - 1]);
                                assert(vals@[p] == old_vals[p - 1]);
                                assert(seq_lt(tv, old_keys[p - 1]));
                                crate::text::lemma_seq_lt_irreflexive(tv);
                            } else {
                                assert(keys@[p]@ == tv);
                            }
                        }
                        assert forall|x: Seq<char>| #[trigger] views(keys@).contains(x) <==> is_known_id(known@, j + 1, x) by {
                            lemma_known_id_step(known@, j as int, x);
                            lemma_insert_contains(old_keys, i as int, tv, x);
                        }
                    }
                },
            }
        } else {
            proof {
                assert(trimmed(known@[j as int].0@).len() == 0);
                assert forall|p: int| 0 <= p < keys@.len() implies #[trigger] vals@[p] == max_known_version(known@, j + 1, keys@[p]@) by {
                    assert(views(keys@).contains(keys@[p]@)) by {
                        assert(views(keys@)[p] == keys@[p]@);
                    }
                    assert(keys@[p]@.len() > 0);
                }
                assert forall|x: Seq<char>| #[trigger] views(keys@).contains(x) <==> is_known_id(known@, j + 1, x) by {
                    lemma_known_id_step(known@, j as int, x);
                }
            }
        }
        j = j + 1;
    }
    let mut r: Vec<(String, u64)> = Vec::new();
    let mut i: usize = 0;
    while i < keys.len()
        invariant
            i <= keys@.len(),
            vals@.len() == keys@.len(),
            r@.len() == i,
            forall|p: int| 0 <= p < i ==> (#[trigger] r@[p]).0@ == keys@[p]@ && r@[p].1 == vals@[p],
        decreases keys@.len() - i,
    {
        let s = string_from_chars(&keys[i]);
        r.push((s, vals[i]));
        i = i + 1;
    }
    proof {
        assert(version_ids(r@) =~= views(keys@));
    }
    r
}

proof fn lemma_seq_lt_total_pair(s: Seq<Seq<char>>, p: int, q: int)
    requires
        strictly_sorted(s),
        0 <= p < s.len(),
        0 <= q < s.len(),
        p != q,
    ensures
        s[p] != s[q],
{
    crate::text::lemma_seq_lt_irreflexive(s[p]);
    if p < q {
        assert(seq_lt(s[p], s[q]));
    } else {
        assert(seq_lt(s[q], s[p]));
    }
}

proof fn lemma_known_id_step(known: Seq<(String, u64)>, j: int, x: Seq<char>)
    requires
        0 <= j < known.len(),
    ensures
        is_known_id(known, j + 1, x) <==> (is_known_id(known, j, x) || (x.len() > 0 && trimmed(known[j].0@) == x)),
{
    if is_known_id(known, j + 1, x) && !is_known_id(known, j, x) {
        let w = choose|w: int| 0 <= w < j + 1 && x.len() > 0 && #[trigger] trimmed(known[w].0@) == x;
        assert(w == j);
    }
    if is_known_id(known, j, x) {
        let w = choose|w: int| 0 <= w < j && x.len() > 0 && #[trigger] trimmed(known[w].0@) == x;
        assert(0 <= w < j + 1);
    }
    if x.len() > 0 && trimmed(known[j].0@) == x {
        assert(0 <= j < j + 1);
    }
}

proof fn lemma_sorted_insert(s: Seq<Seq<char>>, i: int, k: Seq<char>)
    requires
        strictly_sorted(s),
        0 <= i <= s.len(),
        forall|q: int| 0 <= q < i ==> seq_lt(#[trigger] s[q], k),
        forall|q: int| i <= q < s.len() ==> seq_lt(k, #[trigger] s[q]),
    ensures
        strictly_sorted(s.insert(i, k)),
{
    let t = s.insert(i, k);
    assert forall|a: int, b: int| 0 <= a < b < t.len() implies seq_lt(#[trigger] t[a], #[trigger] t[b]) by {
        if b < i {
            assert(t[a] == s[a] && t[b] == s[b]);
        } else if b == i {
            assert(t[a] == s[a]);
        } else if a < i {
            assert(t[a] == s[a] && t[b] == s[b - 1]);
            crate::text::lemma_seq_lt_transitive(s[a], k, s[b - 1]);
        } else if a == i {
            assert(t[b] == s[b - 1]);
        } else {
            assert(t[a] == s[a - 1] && t[b] == s[b - 1]);
        }
    }
}

proof fn lemma_insert_contains(s: Seq<Seq<char>>, i: int, k: Seq<char>, x: Seq<char>)
    requires
        0 <= i <= s.len(),
    ensures
        s.insert(i, k).contains(x) <==> (s.contains(x) || x == k),
{
    let t = s.insert(i, k);
    if s.contains(x) {
        let j = choose|j: int| 0 <= j < s.len() && s[j] == x;
        if j < i {
            assert(t[j] == x);
        } else {
            assert(t[j + 1] == x);
        }
    }
    if x == k {
        assert(t[i] == x);
    }
    if t.contains(x) {
        let j = choose|j: int| 0 <= j < t.len() && t[j] == x;
        if j < i {
            assert(s[j] == x);
        } else if j > i {
            assert(s[j - 1] == x);
        }
    }
}

// ---------------------------------------------------------------------------
// Change detection from stored conversation states
// ---------------------------------------------------------------------------

/// A conversation whose stored sync version is ahead of what a client knows.
#[derive(Debug, Clone, PartialEq, Eq)]
pub struct ConversationChange {
    pub conversation_id: String,
    pub version: u64,
    pub max_conversation_seq: u64,
    pub occurred_at_ms: i64,
}

/// A stored state field that does not hold a number.
#[derive(Debug, Clone, PartialEq, Eq)]
pub enum SyncIndexError {
    InvalidField { field: String, conversation_id: String },
}

/// Reads an unsigned field of a stored state: absent fields are `None`,
/// fields that do not parse are an error naming the field.
pub fn parse_u64_field(state: &FieldMap, field: &str, conversation_id: &str) -> (r: Result<
    Option<u64>,
    SyncIndexError,
>)
    ensures
        match state.get_spec(field@) {
            None => r == Ok::<Option<u64>, SyncIndexError>(None),
            Some(text) => match parse_u64_spec(text) {
                Some(n) => r == Ok::<Option<u64>, SyncIndexError>(Some(n)),
                None => r matches Err(SyncIndexError::InvalidField { field: f, conversation_id: c })
                    && f@ == field@ && c@ == conversation_id@,
            },
        },
{
    match state.get(field) {
        None => Ok(None),
        Some(text) => match parse_u64(text.as_str()) {
            Some(n) => Ok(Some(n)),
            None => Err(
                SyncIndexError::InvalidField {
                    field: String::from_str(field),
                    conversation_id: String::from_str(conversation_id),
                },
            ),
        },
    }
}

/// Reads a signed field of a stored state, as `parse_u64_field` does.
pub fn parse_i64_field(state: &FieldMap, field: &str, conversation_id: &str) -> (r: Result<
    Option<i64>,
    SyncIndexError,
>)
    ensures
        match state.get_spec(field@) {
            None => r == Ok::<Option<i64>, SyncIndexError>(None),
            Some(text) => match parse_i64_spec(text) {
                Some(n) => r == Ok::<Option<i64>, SyncIndexError>(Some(n)),
                None => r matches Err(SyncIndexError::InvalidField { field: f, conversation_id: c })
                    && f@ == field@ && c@ == conversation_id@,
            },
        },
{
    match state.get(field) {
        None => Ok(None),
        Some(text) => match parse_i64(text.as_str()) {
            Some(n) => Ok(Some(n)),
            None => Err(
                SyncIndexError::InvalidField {
                    field: String::from_str(field),
                    conversation_id: String::from_str(conversation_id),
                },
            ),
        },
    }
}

/// The id a stored state reports: its trimmed `conversation_id` field when
/// that is non-blank, else the id it was looked up under.
pub open spec fn stored_conversation_id(state: FieldMap, conversation_id: Seq<char>) -> Seq<char> {
    match state.get_spec("conversation_id"@) {
        Some(v) => if trimmed(v).len() > 0 {
            trimmed(v)
        } else {
            conversation_id
        },
        None => conversation_id,
    }
}

/// Whether `r` is what a stored state reports to a client that knows
/// `known_version` (see `conversation_change_from_state`).
pub open spec fn change_from_state_ok(
    r: Result<Option<ConversationChange>, SyncIndexError>,
    conversation_id: Seq<char>,
    known_version: u64,
    state: FieldMap,
) -> bool {
    match parse_u64_spec_field(state, "version"@) {
        FieldValue::Invalid => r matches Err(SyncIndexError::InvalidField { field: f, conversation_id: c })
            && f@ == "version"@ && c@ == conversation_id,
        FieldValue::Absent => r == Ok::<Option<ConversationChange>, SyncIndexError>(None),
        FieldValue::Present(version) => if version <= known_version {
            r == Ok::<Option<ConversationChange>, SyncIndexError>(None)
        } else {
            match (parse_u64_spec_field(state, "max_conversation_seq"@), parse_i64_spec_field(state, "updated_at_ms"@)) {
                (FieldValue::Invalid, _) => r matches Err(SyncIndexError::InvalidField { field: f, conversation_id: c })
                    && f@ == "max_conversation_seq"@ && c@ == conversation_id,
                (_, FieldValue::Invalid) => r matches Err(SyncIndexError::InvalidField { field: f, conversation_id: c })
                    && f@ == "updated_at_ms"@ && c@ == conversation_id,
                (seq, at) => r matches Ok(Some(change))
                    && change.conversation_id@ == stored_conversation_id(state, conversation_id)
                    && change.version == version
                    && change.max_conversation_seq == (match seq { FieldValue::Present(v) => v, _ => 0u64 })
                    && change.occurred_at_ms == (match at { FieldValue::Present(v) => v, _ => 0i64 }),
            }
        },
    }
}

/// The change a stored conversation state reports to a client that knows
/// `known_version`: `None` when the state has no version or is not ahead;
/// missing counters read as 0; a field that does not parse is an error,
/// checked in the order version, max_conversation_seq, updated_at_ms.
pub fn conversation_change_from_state(
    conversation_id: &str,
    known_version: u64,
    state: &FieldMap,
) -> (r: Result<Option<ConversationChange>, SyncIndexError>)
    ensures
        change_from_state_ok(r, conversation_id@, known_version, *state),
{
    let version = match parse_u64_field(state, "version", conversation_id) {
        Err(e) => return Err(e),
        Ok(None) => return Ok(None),
        Ok(Some(v)) => v,
    };
    if version <= known_version {
        return Ok(None);
    }
    let stored = match state.get("conversation_id") {
        Some(v) => {
            let t = trim(v.as_str());
            if t.unicode_len() > 0 {
                t
            } else {
                String::from_str(conversation_id)
            }
        },
        None => String::from_str(conversation_id),
    };
    let max_conversation_seq = match parse_u64_field(state, "max_conversation_seq", conversation_id) {
        Err(e) => return Err(e),
        Ok(v) => match v {
            Some(n) => n,
            None => 0,
        },
    };
    let occurred_at_ms = match parse_i64_field(state, "updated_at_ms", conversation_id) {
        Err(e) => return Err(e),
        Ok(v) => match v {
            Some(n) => n,
            None => 0,
        },
    };
    Ok(
        Some(
            ConversationChange {
                conversation_id: stored,
                version,
                max_conversation_seq,
                occurred_at_ms,
            },
        ),
    )
}

/// How a numeric field of a stored state reads.
pub enum FieldValue<T> {
    Absent,
    Invalid,
    Present(T),
}

pub open spec fn parse_u64_spec_field(state: FieldMap, field: Seq<char>) -> FieldValue<u64> {
    match state.get_spec(field) {
        None => FieldValue::Absent,
        Some(text) => match parse_u64_spec(text) {
            Some(n) => FieldValue::Present(n),
            None => FieldValue::Invalid,
        },
    }
}

pub open spec fn parse_i64_spec_field(state: FieldMap, field: Seq<char>) -> FieldValue<i64> {
    match state.get_spec(field) {
        None => FieldValue::Absent,
        Some(text) => match parse_i64_spec(text) {
            Some(n) => FieldValue::Present(n),
            None => FieldValue::Invalid,
        },
    }
}

// ---------------------------------------------------------------------------
// Index settings
// ---------------------------------------------------------------------------

/// The user-sync index kept in Redis: its per-user change-list bounds, and
/// the keys, normalisations and change detection its commands are built
/// from (the commands themselves are run by the caller).
#[derive(Debug, Clone, Copy, PartialEq, Eq, Structural)]
pub struct RedisUserSyncIndexRepository {
    pub max_changes_per_user: usize,
    pub change_ttl_seconds: u64,
}

impl RedisUserSyncIndexRepository {
    /// A change list keeps at least one entry.
    pub fn new(max_changes_per_user: usize, change_ttl_seconds: u64) -> (r: Self)
        ensures
            r.max_changes_per_user == (if max_changes_per_user > 1 {
                max_changes_per_user
            } else {
                1
            }),
            r.change_ttl_seconds == change_ttl_seconds,
    {
        RedisUserSyncIndexRepository {
            max_changes_per_user: if max_changes_per_user > 1 {
                max_changes_per_user
            } else {
                1
            },
            change_ttl_seconds,
        }
    }

    /// The tenant of a request (see `tenant_or_default`).
    pub fn tenant_id(tenant_id: Option<&str>) -> (r: String)
        ensures
            r@ == (match tenant_id {
                Some(t) => if !blank(t@) {
                    t@
                } else {
                    "0"@
                },
                None => "0"@,
            }),
    {
        tenant_or_default(tenant_id)
    }

    pub fn version_key(tenant_id: &str, user_id: &str) -> (r: String)
        ensures
            r@ == version_key_spec(tenant_id@, user_id@),
    {
        version_key(tenant_id, user_id)
    }

    pub fn changes_key(tenant_id: &str, user_id: &str) -> (r: String)
        ensures
            r@ == changes_key_spec(tenant_id@, user_id@),
    {
        changes_key(tenant_id, user_id)
    }

    pub fn conversation_state_key(tenant_id: &str, user_id: &str, conversation_id: &str) -> (r: String)
        ensures
            r@ == conversation_state_key_spec(tenant_id@, user_id@, conversation_id@),
    {
        conversation_state_key(tenant_id, user_id, conversation_id)
    }

    pub fn conversation_version_key(tenant_id: &str, conversation_id: &str) -> (r: String)
        ensures
            r@ == conversation_version_key_spec(tenant_id@, conversation_id@),
    {
        conversation_version_key(tenant_id, conversation_id)
    }

    pub fn conversation_sync_state_key(tenant_id: &str, conversation_id: &str) -> (r: String)
        ensures
            r@ == conversation_sync_state_key_spec(tenant_id@, conversation_id@),
    {
        conversation_sync_state_key(tenant_id, conversation_id)
    }

    /// See `normalized_user_ids`.
    pub fn normalized_user_ids(user_ids: &[String]) -> (r: Vec<String>)
        ensures
            normalized_ids(user_ids@, r@.map_values(|s: String| s@)),
    {
        normalized_user_ids(user_ids)
    }

    /// See `normalized_known_conversation_versions`.
    pub fn normalized_known_conversation_versions(known: &[(String, u64)]) -> (r: Vec<(String, u64)>)
        ensures
            normalized_versions(known@, r@),
    {
        normalized_known_conversation_versions(known)
    }

    /// See `conversation_change_from_state`.
    pub fn conversation_change_from_state(
        conversation_id: &str,
        known_version: u64,
        state: &FieldMap,
    ) -> (r: Result<Option<ConversationChange>, SyncIndexError>)
        ensures
            change_from_state_ok(r, conversation_id@, known_version, *state),
    {
        conversation_change_from_state(conversation_id, known_version, state)
    }

    /// What a change recording acts on: the trimmed conversation and the
    /// normalised users; nothing (the recording is skipped) when the
    /// conversation is blank or no user id is left.
    pub fn change_targets(conversation_id: &str, user_ids: &[String]) -> (r: Option<(String, Vec<String>)>)
        ensures
            match r {
                Some((c, users)) => !blank(conversation_id@) && c@ == trimmed(conversation_id@) && normalized_ids(
                    user_ids@,
                    users@.map_values(|s: String| s@),
                ) && users@.len() > 0,
                None => blank(conversation_id@) || forall|x: Seq<char>| !is_trimmed_id(user_ids@, user_ids@.len() as int, x),
            },
    {
        let c = trim(conversation_id);
        if c.unicode_len() == 0 {
            return None;
        }
        let users = normalized_user_ids(user_ids);
        if users.len() == 0 {
            proof {
                assert forall|x: Seq<char>| !is_trimmed_id(user_ids@, user_ids@.len() as int, x) by {
                    if is_trimmed_id(user_ids@, user_ids@.len() as int, x) {
                        assert(users@.map_values(|s: String| s@).contains(x));
                    }
                }
            }
            return None;
        }
        Some((c, users))
    }

    /// The `[start, end)` bounds of the pipelines a change recording for
    /// `user_count` users is split into, sized by the configured chunk size
    /// `raw_chunk_size` (see `parse_record_change_chunk` and `chunk_ranges`).
    pub fn record_change_chunks(user_count: usize, raw_chunk_size: Option<&str>) -> (r: Vec<(usize, usize)>)
        ensures
            ({
                let size = record_change_chunk(
                    match raw_chunk_size {
                        Some(t) => Some(t@),
                        None => None,
                    },
                );
                &&& r@.len() == (user_count + size - 1) / (size as int)
                &&& forall|i: int| 0 <= i < r@.len() ==> (#[trigger] r@[i]).0 == i * size
                &&& forall|i: int|
                    0 <= i < r@.len() ==> (#[trigger] r@[i]).1 == (if (i + 1) * size < user_count {
                        (i + 1) * size
                    } else {
                        user_count as int
                    })
            }),
    {
        let size = parse_record_change_chunk(raw_chunk_size);
        chunk_ranges(user_count, size)
    }
}

// ---------------------------------------------------------------------------
// Compensation tasks
// ---------------------------------------------------------------------------

/// Sorted-set key of the pending compensation tasks.
pub const PENDING_KEY: &'static str = "sync:user:compensation:pending";

/// How long a claimed task stays invisible to other workers.
pub const CLAIM_VISIBILITY_MS: i64 = 30000;

/// Longest error text a task keeps.
pub const MAX_TASK_ERROR_CHARS: usize = 512;

/// Which index update a compensation task replays.
#[derive(Debug, Clone, Copy, PartialEq, Eq, Structural)]
pub enum UserSyncCompensationKind {
    /// Per-user change records for the listed users.
    EagerUserChanges,
    /// A conversation-level version bump (large conversations).
    ConversationVersionBump,
}

/// A deferred user-sync index update.
#[derive(Debug, Clone, PartialEq, Eq)]
pub struct UserSyncCompensationTask {
    pub task_id: String,
    pub tenant_id: String,
    pub kind: UserSyncCompensationKind,
    pub conversation_id: String,
    pub user_ids: Vec<String>,
    pub max_conversation_seq: u64,
    pub occurred_at_ms: i64,
    pub due_at_ms: i64,
    pub attempts: u32,
    pub last_error: Option<String>,
}

/// `i64` addition clamped to the `i64` range.
pub open spec fn saturating_i64(x: int) -> i64 {
    if x > i64::MAX {
        i64::MAX
    } else if x < i64::MIN {
        i64::MIN
    } else {
        x as i64
    }
}

/// `i64::saturating_add`.
pub fn saturating_add_i64(a: i64, b: i64) -> (r: i64)
    ensures
        r == saturating_i64(a + b),
{
    match a.checked_add(b) {
        Some(v) => v,
        None => {
            if b > 0 {
                i64::MAX
            } else {
                i64::MIN
            }
        },
    }
}

/// The hash key holding a task's payload: `sync:user:compensation:task:{id}`.
pub fn task_key(task_id: &str) -> (r: String)
    ensures
        r@ == "sync:user:compensation:task:"@ + task_id@,
{
    let mut r = String::from_str("sync:user:compensation:task:");
    r.append(task_id);
    r
}

/// The score claimed tasks are pushed back to: `now + CLAIM_VISIBILITY_MS`, clamped.
pub fn claim_deadline(now_ms: i64) -> (r: i64)
    ensures
        r == saturating_i64(now_ms + CLAIM_VISIBILITY_MS),
{
    saturating_add_i64(now_ms, CLAIM_VISIBILITY_MS)
}

/// The first `n` characters of `s` (`s.chars().take(n).collect()`).
pub fn take_chars(s: &str, n: usize) -> (r: String)
    ensures
        r@ == (if s@.len() <= n {
            s@
        } else {
            s@.subrange(0, n as int)
        }),
{
    let v = chars_of(s);
    let end = if v.len() <= n {
        v.len()
    } else {
        n
    };
    let r = string_from_range(&v, 0, end);
    proof {
        if v@.len() <= n {
            assert(v@.subrange(0, end as int) =~= v@);
        }
    }
    r
}

/// A failed task, rescheduled: one more attempt recorded (saturating), the
/// error kept (its first 512 characters), and due again `retry_after_ms`
/// (never negative) after `now_ms`.
pub fn reschedule_failed_task(
    task: UserSyncCompensationTask,
    error: &str,
    now_ms: i64,
    retry_after_ms: i64,
) -> (r: UserSyncCompensationTask)
    ensures
        r.attempts == (if task.attempts < u32::MAX {
            task.attempts + 1
        } else {
            u32::MAX as int
        }),
        r.last_error matches Some(e) && e@ == (if error@.len() <= MAX_TASK_ERROR_CHARS {
            error@
        } else {
            error@.subrange(0, MAX_TASK_ERROR_CHARS as int)
        }),
        r.due_at_ms == saturating_i64(now_ms + (if retry_after_ms > 0 {
            retry_after_ms
        } else {
            0
        })),
        r.task_id == task.task_id,
        r.tenant_id == task.tenant_id,
        r.kind == task.kind,
        r.conversation_id == task.conversation_id,
        r.user_ids == task.user_ids,
        r.max_conversation_seq == task.max_conversation_seq,
        r.occurred_at_ms == task.occurred_at_ms,
{
    let mut task = task;
    task.attempts = if task.attempts < u32::MAX {
        task.attempts + 1
    } else {
        u32::MAX
    };
    task.last_error = Some(take_chars(error, MAX_TASK_ERROR_CHARS));
    let delay = if retry_after_ms > 0 {
        retry_after_ms
    } else {
        0
    };
    task.due_at_ms = saturating_add_i64(now_ms, delay);
    task
}

/// An element-wise copy of a list of strings.
pub fn clone_strings(v: &Vec<String>) -> (r: Vec<String>)
    ensures
        r@ == v@,
{
    let mut r: Vec<String> = Vec::new();
    let mut i: usize = 0;
    while i < v.len()
        invariant
            i <= v@.len(),
            r@ == v@.subrange(0, i as int),
        decreases v@.len() - i,
    {
        r.push(v[i].clone());
        assert(v@.subrange(0, i + 1) =~= v@.subrange(0, i as int).push(v@[i as int]));
        i = i + 1;
    }
    assert(v@.subrange(0, i as int) =~= v@);
    r
}

/// The index update a task replays.
#[derive(Debug, Clone, PartialEq, Eq)]
pub enum UserSyncReplay {
    /// `record_conversation_change(user_ids, conversation_id, seq, occurred_at)`.
    ConversationChange {
        user_ids: Vec<String>,
        conversation_id: String,
        max_conversation_seq: u64,
        occurred_at_ms: i64,
    },
    /// `record_conversation_version_bump(conversation_id, seq, occurred_at)`.
    VersionBump { conversation_id: String, max_conversation_seq: u64, occurred_at_ms: i64 },
}

/// What the worker does with a task once its replay has finished.
#[derive(Debug, Clone, PartialEq, Eq)]
pub enum ReplayOutcome {
    /// The replay succeeded: the task is removed.
    MarkCompleted { task_id: String },
    /// The replay failed: the task is rescheduled with the error.
    MarkFailed { task: UserSyncCompensationTask, error: String, retry_after_ms: i64 },
}

/// Replays deferred user-sync index updates in batches.
#[derive(Debug, Clone, Copy, PartialEq, Eq, Structural)]
pub struct UserSyncCompensationWorker {
    pub batch_size: usize,
    pub retry_delay_ms: i64,
    pub interval_ms: u64,
}

impl UserSyncCompensationWorker {
    /// 64 tasks per batch, retried and polled every 5 seconds.
    pub fn new() -> (r: Self)
        ensures
            r.batch_size == 64,
            r.retry_delay_ms == 5000,
            r.interval_ms == 5000,
    {
        UserSyncCompensationWorker { batch_size: 64, retry_delay_ms: 5000, interval_ms: 5000 }
    }

    /// The polling interval, in milliseconds.
    pub fn interval(&self) -> (r: u64)
        ensures
            r == self.interval_ms,
    {
        self.interval_ms
    }

    /// The index update `task` stands for, chosen by its kind.
    pub fn replay_request(&self, task: &UserSyncCompensationTask) -> (r: UserSyncReplay)
        ensures
            match task.kind {
                UserSyncCompensationKind::EagerUserChanges => r matches UserSyncReplay::ConversationChange {
                    user_ids,
                    conversation_id,
                    max_conversation_seq,
                    occurred_at_ms,
                } && user_ids@ == task.user_ids@ && conversation_id == task.conversation_id
                    && max_conversation_seq == task.max_conversation_seq && occurred_at_ms
                    == task.occurred_at_ms,
                UserSyncCompensationKind::ConversationVersionBump => r == UserSyncReplay::VersionBump {
                    conversation_id: task.conversation_id,
                    max_conversation_seq: task.max_conversation_seq,
                    occurred_at_ms: task.occurred_at_ms,
                },
            },
    {
        match task.kind {
            UserSyncCompensationKind::EagerUserChanges => UserSyncReplay::ConversationChange {
                user_ids: clone_strings(&task.user_ids),
                conversation_id: task.conversation_id.clone(),
                max_conversation_seq: task.max_conversation_seq,
                occurred_at_ms: task.occurred_at_ms,
            },
            UserSyncCompensationKind::ConversationVersionBump => UserSyncReplay::VersionBump {
                conversation_id: task.conversation_id.clone(),
                max_conversation_seq: task.max_conversation_seq,
                occurred_at_ms: task.occurred_at_ms,
            },
        }
    }

    /// Completion on success; otherwise a reschedule carrying the error and
    /// the worker's retry delay.
    pub fn replay_outcome(&self, task: UserSyncCompensationTask, result: Result<(), String>) -> (r: ReplayOutcome)
        ensures
            match result {
                Ok(()) => r == ReplayOutcome::MarkCompleted { task_id: task.task_id },
                Err(e) => r == ReplayOutcome::MarkFailed { task, error: e, retry_after_ms: self.retry_delay_ms },
            },
    {
        match result {
            Ok(()) => ReplayOutcome::MarkCompleted { task_id: task.task_id },
            Err(e) => ReplayOutcome::MarkFailed { task, error: e, retry_after_ms: self.retry_delay_ms },
        }
    }
}

} // verus!

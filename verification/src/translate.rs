//! Post-dictation translation through the public MyMemory API: when a text is
//! sent at all, how a long text is cut into requests, the request URL, and what
//! is kept of the replies.

use vstd::prelude::*;
use crate::text::{
    byte_len, byte_len_exceeds, char_width, char_width_exec, eq_ignore_ascii_case,
    eq_ignore_case, from_chars, is_whitespace, is_ws, lemma_byte_len_push, owned, sub_chars, to_chars,
    trim, trim_start, trim_start_vec, trim_vec, trimmed,
};

verus! {

// ---------------------------------------------------------------------------
// Cutting a long text into requests
// ---------------------------------------------------------------------------

/// Largest request, in UTF-8 bytes.
pub open spec fn chunk_limit() -> int {
    420
}

/// Number of leading characters of `s` whose encoding fits in `budget` bytes.
pub open spec fn fit_count(s: Seq<char>, budget: int) -> int
    decreases s.len(),
{
    if s.len() == 0 || char_width(s[0]) > budget {
        0
    } else {
        1 + fit_count(s.drop_first(), budget - char_width(s[0]))
    }
}

/// Index of the last whitespace character among the first `k` characters of `s`.
pub open spec fn last_ws_before(s: Seq<char>, k: int) -> Option<int>
    decreases k,
{
    if k <= 0 {
        None
    } else if is_ws(s[k - 1]) {
        Some(k - 1)
    } else {
        last_ws_before(s, k - 1)
    }
}

/// The cut of the remaining text lands on a character boundary: it does unless
/// the last whitespace before the 420-byte mark is a multi-byte character.
pub open spec fn step_ok(rest: Seq<char>) -> bool {
    byte_len(rest) <= chunk_limit() || match last_ws_before(rest, fit_count(rest, chunk_limit())) {
        Some(j) => char_width(rest[j]) == 1,
        None => true,
    }
}

/// Number of characters of the next request: everything when it fits, else up to
/// and including the last whitespace that fits, else as many characters as fit.
pub open spec fn step_take(rest: Seq<char>) -> int {
    if byte_len(rest) <= chunk_limit() {
        rest.len() as int
    } else {
        match last_ws_before(rest, fit_count(rest, chunk_limit())) {
            Some(j) => j + 1,
            None => fit_count(rest, chunk_limit()),
        }
    }
}

pub proof fn lemma_fit_count_bounds(s: Seq<char>, budget: int)
    ensures
        0 <= fit_count(s, budget) <= s.len(),
        byte_len(s.take(fit_count(s, budget))) <= (if budget < 0 { 0 } else { budget }),
        s.len() > 0 && budget >= 4 ==> fit_count(s, budget) >= 1,
        fit_count(s, budget) < s.len() ==> byte_len(s.take(fit_count(s, budget) + 1)) > budget,
    decreases s.len(),
{
    if s.len() == 0 {
        assert(s.take(0).len() == 0);
    } else if char_width(s[0]) > budget {
        assert(s.take(0).len() == 0);
        assert(s.take(1).drop_first() =~= Seq::<char>::empty());
    } else {
        let w = char_width(s[0]);
        lemma_fit_count_bounds(s.drop_first(), budget - w);
        let f = fit_count(s.drop_first(), budget - w);
        assert(s.take(f + 1).drop_first() =~= s.drop_first().take(f));
        if f < s.drop_first().len() {
            assert(s.take(f + 2).drop_first() =~= s.drop_first().take(f + 1));
        }
    }
}

pub proof fn lemma_last_ws_before(s: Seq<char>, k: int)
    requires
        0 <= k <= s.len(),
    ensures
        last_ws_before(s, k) matches Some(j) ==> 0 <= j < k && is_ws(s[j]) && forall|i: int|
            j < i < k ==> !is_ws(#[trigger] s[i]),
        last_ws_before(s, k) is None ==> forall|i: int| 0 <= i < k ==> !is_ws(#[trigger] s[i]),
    decreases k,
{
    if k > 0 && !is_ws(s[k - 1]) {
        lemma_last_ws_before(s, k - 1);
    }
}

pub proof fn lemma_step_take_bounds(rest: Seq<char>)
    requires
        rest.len() > 0,
    ensures
        1 <= step_take(rest) <= rest.len(),
{
    lemma_fit_count_bounds(rest, chunk_limit());
    lemma_last_ws_before(rest, fit_count(rest, chunk_limit()));
}

pub proof fn lemma_trim_start_shorter(s: Seq<char>)
    ensures
        trim_start(s).len() <= s.len(),
    decreases s.len(),
{
    if s.len() > 0 && is_ws(s[0]) {
        lemma_trim_start_shorter(s.drop_first());
    }
}

/// What remains of the text after one request.
pub open spec fn step_rest(rest: Seq<char>) -> Seq<char> {
    trim_start(rest.skip(step_take(rest)))
}

pub proof fn lemma_step_rest_shorter(rest: Seq<char>)
    requires
        rest.len() > 0,
    ensures
        step_rest(rest).len() < rest.len(),
{
    lemma_step_take_bounds(rest);
    lemma_trim_start_shorter(rest.skip(step_take(rest)));
}

/// Every cut of `rest` lands on a character boundary.
pub open spec fn splits_cleanly(rest: Seq<char>) -> bool
    decreases rest.len(),
{
    if rest.len() == 0 {
        true
    } else {
        proof {
            lemma_step_rest_shorter(rest);
        }
        step_ok(rest) && splits_cleanly(step_rest(rest))
    }
}

/// The trimmed, non-blank pieces that are sent, in order.
pub open spec fn chunks_of(rest: Seq<char>) -> Seq<Seq<char>>
    decreases rest.len(),
{
    if rest.len() == 0 {
        seq![]
    } else {
        proof {
            lemma_step_rest_shorter(rest);
        }
        let piece = trim(rest.take(step_take(rest)));
        let tail = chunks_of(step_rest(rest));
        if piece.len() > 0 {
            seq![piece] + tail
        } else {
            tail
        }
    }
}

/// Number of leading characters of `v` that fit in `budget` bytes.
fn fit_count_exec(v: &Vec<char>, budget: usize) -> (k: usize)
    ensures
        k == fit_count(v@, budget as int),
{
    let n = v.len();
    let mut i: usize = 0;
    let mut left: usize = budget;
    assert(v@.skip(0) =~= v@);
    while i < n && char_width_exec(v[i]) <= left
        invariant
            n == v@.len(),
            i <= n,
            left <= budget,
            fit_count(v@, budget as int) == i + fit_count(v@.skip(i as int), left as int),
        decreases n - i,
    {
        assert(v@.skip(i as int).drop_first() =~= v@.skip(i + 1));
        assert(v@.skip(i as int)[0] == v@[i as int]);
        left = left - char_width_exec(v[i]);
        i = i + 1;
    }
    if i < n {
        assert(v@.skip(i as int)[0] == v@[i as int]);
    }
    i
}

/// Index of the last whitespace among the first `k` characters.
fn last_ws_exec(v: &Vec<char>, k: usize) -> (r: Option<usize>)
    requires
        k <= v@.len(),
    ensures
        r matches Some(j) ==> last_ws_before(v@, k as int) == Some(j as int),
        r is None ==> last_ws_before(v@, k as int) is None,
{
    let mut i: usize = k;
    while i > 0
        invariant
            i <= k <= v@.len(),
            last_ws_before(v@, k as int) == last_ws_before(v@, i as int),
        decreases i,
    {
        if is_whitespace(v[i - 1]) {
            return Some(i - 1);
        }
        i = i - 1;
    }
    None
}

/// Length of the next request, or `None` when its cut would split a character.
fn chunk_step(rest: &Vec<char>) -> (r: Option<usize>)
    requires
        rest@.len() > 0,
    ensures
        r is Some <==> step_ok(rest@),
        r matches Some(t) ==> t == step_take(rest@),
{
    if !byte_len_exceeds(rest, 420) {
        return Some(rest.len());
    }
    let k = fit_count_exec(rest, 420);
    proof {
        lemma_fit_count_bounds(rest@, 420);
    }
    match last_ws_exec(rest, k) {
        Some(j) => {
            proof {
                lemma_last_ws_before(rest@, k as int);
            }
            if char_width_exec(rest[j]) == 1 {
                Some(j + 1)
            } else {
                None
            }
        },
        None => Some(k),
    }
}

/// Whether the text can be cut into requests without splitting a character.
pub fn translation_splits_cleanly(text: &str) -> (r: bool)
    ensures
        r == splits_cleanly(text@),
{
    let mut rest = to_chars(text);
    loop
        invariant
            splits_cleanly(text@) == splits_cleanly(rest@),
        decreases rest@.len(),
    {
        if rest.len() == 0 {
            return true;
        }
        match chunk_step(&rest) {
            None => {
                return false;
            },
            Some(t) => {
                proof {
                    lemma_step_rest_shorter(rest@);
                    lemma_step_take_bounds(rest@);
                }
                let tail = sub_chars(&rest, t, rest.len());
                assert(tail@ =~= rest@.skip(t as int));
                rest = trim_start_vec(&tail);
            },
        }
    }
}

/// The pieces of a long text, in order: cut at the last whitespace before 420
/// bytes (or at 420 bytes), trimmed, blank pieces dropped.
pub fn translation_chunks(text: &str) -> (r: Vec<String>)
    requires
        splits_cleanly(text@),
    ensures
        crate::config::views(r@) == chunks_of(text@),
{
    let mut rest = to_chars(text);
    let mut out: Vec<String> = Vec::new();
    loop
        invariant
            splits_cleanly(rest@),
            crate::config::views(out@) + chunks_of(rest@) == chunks_of(text@),
        decreases rest@.len(),
    {
        if rest.len() == 0 {
            assert(crate::config::views(out@) + chunks_of(rest@) =~= crate::config::views(out@));
            return out;
        }
        proof {
            lemma_step_rest_shorter(rest@);
            lemma_step_take_bounds(rest@);
        }
        let t = match chunk_step(&rest) {
            Some(t) => t,
            None => 0,
        };
        let head = sub_chars(&rest, 0, t);
        assert(head@ =~= rest@.take(t as int));
        let piece = trim_vec(&head);
        let tail = sub_chars(&rest, t, rest.len());
        assert(tail@ =~= rest@.skip(t as int));
        let next = trim_start_vec(&tail);
        let ghost before = out@;
        if piece.len() > 0 {
            out.push(from_chars(piece.as_slice()));
            assert(crate::config::views(out@) =~= crate::config::views(before).push(piece@));
            assert(crate::config::views(out@) + chunks_of(next@) =~= crate::config::views(before)
                + (seq![piece@] + chunks_of(next@)));
        }
        rest = next;
    }
}

proof fn lemma_byte_len_subrange(s: Seq<char>, i: int, j: int)
    requires
        0 <= i <= j <= s.len(),
    ensures
        byte_len(s.subrange(i, j)) <= byte_len(s),
{
    crate::text::lemma_byte_len_concat(s.take(i), s.subrange(i, j));
    crate::text::lemma_byte_len_concat(s.take(i) + s.subrange(i, j), s.skip(j));
    assert(s.take(i) + s.subrange(i, j) + s.skip(j) =~= s);
}

proof fn lemma_trim_is_subrange(x: Seq<char>)
    ensures
        exists|a: int, b: int| 0 <= a <= b <= x.len() && trim(x) == x.subrange(a, b),
{
    crate::text::lemma_trim_start_shape(x);
    let k = choose|k: int| 0 <= k <= x.len() && trim_start(x) == x.skip(k);
    crate::text::lemma_trim_end_shape(trim_start(x));
    let m = choose|m: int|
        0 <= m <= trim_start(x).len() && crate::text::trim_end(trim_start(x)) == trim_start(x).take(m);
    assert(trim(x) =~= x.subrange(k, k + m));
}

proof fn lemma_trim_bytes(x: Seq<char>)
    ensures
        byte_len(trim(x)) <= byte_len(x),
{
    lemma_trim_is_subrange(x);
    let (a, b) = choose|a: int, b: int| 0 <= a <= b <= x.len() && trim(x) == x.subrange(a, b);
    lemma_byte_len_subrange(x, a, b);
}

proof fn lemma_step_piece_fits(rest: Seq<char>)
    requires
        rest.len() > 0,
    ensures
        byte_len(rest.take(step_take(rest))) <= chunk_limit(),
{
    lemma_step_take_bounds(rest);
    if byte_len(rest) <= chunk_limit() {
        assert(rest.take(step_take(rest)) =~= rest);
    } else {
        let f = fit_count(rest, chunk_limit());
        lemma_fit_count_bounds(rest, chunk_limit());
        lemma_last_ws_before(rest, f);
        let t = step_take(rest);
        assert(t <= f);
        assert(rest.take(t) =~= rest.take(f).subrange(0, t));
        lemma_byte_len_subrange(rest.take(f), 0, t);
    }
}

/// Every piece sent for a long text is trimmed, not blank, and at most 420 bytes.
pub proof fn lemma_chunks_fit(text: Seq<char>)
    ensures
        forall|i: int|
            0 <= i < chunks_of(text).len() ==> {
                &&& (#[trigger] chunks_of(text)[i]).len() > 0
                &&& trim(chunks_of(text)[i]) == chunks_of(text)[i]
                &&& byte_len(chunks_of(text)[i]) <= chunk_limit()
            },
    decreases text.len(),
{
    if text.len() > 0 {
        lemma_step_rest_shorter(text);
        lemma_chunks_fit(step_rest(text));
        let piece = trim(text.take(step_take(text)));
        lemma_step_piece_fits(text);
        lemma_trim_bytes(text.take(step_take(text)));
        crate::text::lemma_trim_idempotent(text.take(step_take(text)));
        let tail = chunks_of(step_rest(text));
        if piece.len() > 0 {
            assert forall|i: int| 0 <= i < chunks_of(text).len() implies {
                &&& (#[trigger] chunks_of(text)[i]).len() > 0
                &&& trim(chunks_of(text)[i]) == chunks_of(text)[i]
                &&& byte_len(chunks_of(text)[i]) <= chunk_limit()
            } by {
                if i > 0 {
                    assert(chunks_of(text)[i] == tail[i - 1]);
                }
            }
        }
    }
}

/// The non-whitespace characters of `s`, in order.
pub open spec fn non_ws(s: Seq<char>) -> Seq<char>
    decreases s.len(),
{
    if s.len() == 0 {
        seq![]
    } else if is_ws(s[0]) {
        non_ws(s.drop_first())
    } else {
        seq![s[0]] + non_ws(s.drop_first())
    }
}

proof fn lemma_non_ws_add(a: Seq<char>, b: Seq<char>)
    ensures
        non_ws(a + b) == non_ws(a) + non_ws(b),
    decreases a.len(),
{
    if a.len() == 0 {
        assert(a + b =~= b);
        assert(non_ws(a) + non_ws(b) =~= non_ws(b));
    } else {
        lemma_non_ws_add(a.drop_first(), b);
        assert((a + b).drop_first() =~= a.drop_first() + b);
        assert((a + b)[0] == a[0]);
        if !is_ws(a[0]) {
            assert(seq![a[0]] + (non_ws(a.drop_first()) + non_ws(b)) =~= (seq![a[0]] + non_ws(
                a.drop_first(),
            )) + non_ws(b));
        }
    }
}

proof fn lemma_non_ws_trim_start(s: Seq<char>)
    ensures
        non_ws(trim_start(s)) == non_ws(s),
    decreases s.len(),
{
    if s.len() > 0 && is_ws(s[0]) {
        lemma_non_ws_trim_start(s.drop_first());
    }
}

proof fn lemma_non_ws_trim_end(s: Seq<char>)
    ensures
        non_ws(crate::text::trim_end(s)) == non_ws(s),
    decreases s.len(),
{
    if s.len() > 0 && is_ws(s.last()) {
        lemma_non_ws_trim_end(s.drop_last());
        let c = seq![s.last()];
        assert(s =~= s.drop_last() + c);
        lemma_non_ws_add(s.drop_last(), c);
        assert(c[0] == s.last());
        assert(c.drop_first() =~= Seq::<char>::empty());
        assert(non_ws(c.drop_first()) =~= Seq::<char>::empty());
        assert(non_ws(c) =~= Seq::<char>::empty());
        assert(non_ws(s.drop_last()) + non_ws(c) =~= non_ws(s.drop_last()));
    }
}

proof fn lemma_non_ws_trim(s: Seq<char>)
    ensures
        non_ws(trim(s)) == non_ws(s),
{
    lemma_non_ws_trim_start(s);
    lemma_non_ws_trim_end(trim_start(s));
}

/// Cutting a long text into pieces loses nothing but whitespace: the pieces,
/// one after the other, hold exactly the non-whitespace characters of the text,
/// in order.
pub proof fn lemma_chunks_keep_text(text: Seq<char>)
    ensures
        non_ws(chunks_of(text).flatten()) == non_ws(text),
    decreases text.len(),
{
    if text.len() > 0 {
        lemma_step_rest_shorter(text);
        lemma_step_take_bounds(text);
        let t = step_take(text);
        let head = text.take(t);
        let piece = trim(head);
        let rest = step_rest(text);
        let tail = chunks_of(rest);
        lemma_chunks_keep_text(rest);
        lemma_non_ws_trim_start(text.skip(t));
        lemma_non_ws_trim(head);
        assert(text =~= head + text.skip(t));
        lemma_non_ws_add(head, text.skip(t));
        if piece.len() > 0 {
            let cs = seq![piece] + tail;
            assert(chunks_of(text) == cs);
            assert(cs.first() == piece);
            assert(cs.drop_first() =~= tail);
            assert(cs.flatten() == piece + tail.flatten());
            lemma_non_ws_add(piece, tail.flatten());
        } else {
            assert(chunks_of(text) == tail);
            assert(non_ws(piece) =~= Seq::<char>::empty());
            assert(non_ws(head) + non_ws(text.skip(t)) =~= non_ws(text.skip(t)));
        }
    }
}

/// Every request sent for a translation is at most 420 bytes.
pub proof fn lemma_requests_fit(text: Seq<char>)
    ensures
        forall|i: int|
            0 <= i < requests_for(text).len() ==> byte_len(#[trigger] requests_for(text)[i])
                <= chunk_limit(),
{
    lemma_chunks_fit(text);
    if byte_len(text) <= chunk_limit() {
        assert(requests_for(text)[0] == text);
    }
}

// ---------------------------------------------------------------------------
// Planning and joining
// ---------------------------------------------------------------------------

/// What to do with a dictated text.
#[derive(Debug)]
pub enum TranslationPlan {
    /// Nothing to send: this is already the result.
    Done(String),
    /// Send these texts, in order, then join the translations.
    Send(Vec<String>),
}

/// The texts sent for `text`: all of it when it fits in one request, else its pieces.
pub open spec fn requests_for(text: Seq<char>) -> Seq<Seq<char>> {
    if byte_len(text) <= chunk_limit() {
        seq![text]
    } else {
        chunks_of(text)
    }
}

/// An empty text translates to itself, as does a text whose source and target
/// languages agree (ASCII case aside, after trimming); anything else is sent.
pub fn plan_translation(text: &str, source: &str, target: &str) -> (r: TranslationPlan)
    requires
        text@.len() > 0 && !eq_ignore_case(trim(source@), trim(target@)) ==> splits_cleanly(text@),
    ensures
        text@.len() == 0 ==> (r matches TranslationPlan::Done(s) && s@.len() == 0),
        text@.len() > 0 && eq_ignore_case(trim(source@), trim(target@)) ==> (
        r matches TranslationPlan::Done(s) && s@ == text@),
        text@.len() > 0 && !eq_ignore_case(trim(source@), trim(target@)) ==> (
        r matches TranslationPlan::Send(v) && crate::config::views(v@) == requests_for(text@)),
{
    let tv = to_chars(text);
    if tv.len() == 0 {
        return TranslationPlan::Done(String::new());
    }
    let s = trimmed(source);
    let t = trimmed(target);
    if eq_ignore_ascii_case(s.as_str(), t.as_str()) {
        return TranslationPlan::Done(owned(text));
    }
    if !byte_len_exceeds(&tv, 420) {
        let mut v: Vec<String> = Vec::new();
        v.push(owned(text));
        assert(crate::config::views(v@) =~= seq![text@]);
        TranslationPlan::Send(v)
    } else {
        TranslationPlan::Send(translation_chunks(text))
    }
}

/// Translations joined with single spaces, as they arrive (nothing is put in
/// front of a translation while the result is still empty).
pub open spec fn join_translations_spec(ts: Seq<Seq<char>>) -> Seq<char>
    decreases ts.len(),
{
    if ts.len() == 0 {
        seq![]
    } else {
        let prev = join_translations_spec(ts.drop_last());
        if prev.len() == 0 {
            ts.last()
        } else {
            prev + seq![' '] + ts.last()
        }
    }
}

pub fn join_translations(parts: &Vec<String>) -> (r: String)
    ensures
        r@ == join_translations_spec(crate::config::views(parts@)),
{
    let mut out = String::new();
    let n = parts.len();
    let mut i: usize = 0;
    while i < n
        invariant
            n == parts@.len(),
            i <= n,
            out@ == join_translations_spec(crate::config::views(parts@).take(i as int)),
        decreases n - i,
    {
        let ghost prev = out@;
        let cur = to_chars(out.as_str());
        if cur.len() > 0 {
            out.append(" ");
        }
        out.append(parts[i].as_str());
        proof {
            reveal_strlit(" ");
            let vs = crate::config::views(parts@);
            assert(vs.take(i + 1).drop_last() =~= vs.take(i as int));
            assert(vs.take(i + 1).last() == parts@[i as int]@);
            if prev.len() > 0 {
                assert(out@ =~= prev + seq![' '] + parts@[i as int]@);
            } else {
                assert(out@ =~= parts@[i as int]@);
            }
        }
        i = i + 1;
    }
    assert(crate::config::views(parts@).take(n as int) =~= crate::config::views(parts@));
    out
}

// ---------------------------------------------------------------------------
// Request URL and reply
// ---------------------------------------------------------------------------

/// Bytes `urlencoding` leaves as they are: ASCII letters and digits, `-`, `.`, `_`, `~`.
pub open spec fn is_unreserved(b: u8) -> bool {
    (0x30 <= b && b <= 0x39) || (0x41 <= b && b <= 0x5a) || (0x61 <= b && b <= 0x7a) || b == 0x2d
        || b == 0x2e || b == 0x5f || b == 0x7e
}

/// Upper-case hexadecimal digit of `d < 16`.
pub open spec fn hex_upper(d: u8) -> char {
    if d < 10 {
        ((0x30 + d) as u8) as char
    } else {
        ((0x41 - 10 + d) as u8) as char
    }
}

/// Percent-encoding of a byte string: unreserved bytes kept, every other byte as `%XY`.
pub open spec fn percent_encode(bytes: Seq<u8>) -> Seq<char>
    decreases bytes.len(),
{
    if bytes.len() == 0 {
        seq![]
    } else {
        let b = bytes[0];
        (if is_unreserved(b) {
            seq![b as char]
        } else {
            seq!['%', hex_upper(b >> 4), hex_upper(b & 15)]
        }) + percent_encode(bytes.drop_first())
    }
}

/// Calls `urlencoding::encode`, which percent-encodes every byte of the UTF-8
/// text except ASCII alphanumerics and `-`, `_`, `.`, `~`, with upper-case hex digits.
#[verifier::external_body]
fn url_encode(s: &str) -> (r: String)
    ensures
        r@ == percent_encode(vstd::utf8::encode_utf8(s@)),
{
    urlencoding::encode(s).into_owned()
}

/// The MyMemory request for one piece of text.
pub open spec fn mymemory_url_spec(text: Seq<char>, source: Seq<char>, target: Seq<char>) -> Seq<char> {
    "https://api.mymemory.translated.net/get?q="@ + percent_encode(vstd::utf8::encode_utf8(text))
        + "&langpair="@ + source + "|"@ + target
}

pub fn mymemory_url(text: &str, source: &str, target: &str) -> (r: String)
    ensures
        r@ == mymemory_url_spec(text@, source@, target@),
{
    let mut r = owned("https://api.mymemory.translated.net/get?q=");
    let q = url_encode(text);
    r.append(q.as_str());
    r.append("&langpair=");
    r.append(source);
    r.append("|");
    r.append(target);
    r
}

/// `s` holds `p` somewhere.
pub open spec fn contains_text(s: Seq<char>, p: Seq<char>) -> bool {
    exists|i: int| 0 <= i && i + p.len() <= s.len() && #[trigger] s.subrange(i, i + p.len()) == p
}

fn contains_text_exec(s: &Vec<char>, p: &Vec<char>) -> (r: bool)
    ensures
        r == contains_text(s@, p@),
{
    if p.len() > s.len() {
        return false;
    }
    let slen = s.len();
    let plen = p.len();
    let last = slen - plen;
    let mut i: usize = 0;
    loop
        invariant
            slen == s@.len(),
            plen == p@.len(),
            last == slen - plen,
            p@.len() <= s@.len(),
            i <= last,
            forall|j: int| 0 <= j < i ==> #[trigger] s@.subrange(j, j + p@.len()) != p@,
        ensures
            forall|j: int| 0 <= j <= last ==> #[trigger] s@.subrange(j, j + p@.len()) != p@,
        decreases last - i,
    {
        let seg = sub_chars(s, i, i + plen);
        if crate::text::chars_eq(&seg, p) {
            return true;
        }
        if i == last {
            break;
        }
        i = i + 1;
    }
    assert forall|j: int| 0 <= j && j + p@.len() <= s@.len() implies #[trigger] s@.subrange(
        j,
        j + p@.len(),
    ) != p@ by {
        assert(j <= last);
    }
    false
}

/// What a MyMemory reply gives: its translated text, unless it is missing or
/// carries MyMemory's quota warning.
pub open spec fn reply_result(translated: Option<Seq<char>>) -> Result<Seq<char>, Seq<char>> {
    match translated {
        None => Err("Réponse de traduction invalide"@),
        Some(s) => if contains_text(s, "MYMEMORY WARNING"@) {
            Err("Limite de traduction atteinte (MyMemory). Réessayez plus tard."@)
        } else {
            Ok(s)
        },
    }
}

pub fn check_translation_reply(translated: Option<String>) -> (r: Result<String, String>)
    ensures
        match (r, reply_result(
            match translated {
                Some(s) => Some(s@),
                None => None,
            },
        )) {
            (Ok(a), Ok(b)) => a@ == b,
            (Err(a), Err(b)) => a@ == b,
            _ => false,
        },
{
    match translated {
        None => Err(owned("Réponse de traduction invalide")),
        Some(s) => {
            let sv = to_chars(s.as_str());
            let pv = to_chars("MYMEMORY WARNING");
            if contains_text_exec(&sv, &pv) {
                Err(owned("Limite de traduction atteinte (MyMemory). Réessayez plus tard."))
            } else {
                Ok(s)
            }
        },
    }
}

} // verus!

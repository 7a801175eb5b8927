//! Laws of the normalization, proved over the model of the pipeline.
//!
//! The scan is modelled for an arbitrary decomposition `decomp`; the pipeline
//! itself uses `unicode_decomposition()`. Laws that hold of the scan buffer
//! whatever the decomposition say so by quantifying over it; laws that need
//! something of the decomposition state it as a hypothesis.
use crate::classify::{avoided, beyond_bmp, white_space};
use crate::emoji::emoji;
use crate::pipeline::{
    canonical_composition, kept, normalized, scan, step, trim_end, trim_start, trimmed,
    unicode_decomposition,
};
use vstd::prelude::*;

verus! {

/// Every codepoint of `kept(parts)` is one that the filter lets through.
proof fn lemma_kept_not_avoided(parts: Seq<char>)
    ensures
        forall|i: int| 0 <= i < kept(parts).len() ==> !avoided(#[trigger] kept(parts)[i]),
{
    assert forall|i: int| 0 <= i < kept(parts).len() implies !avoided(#[trigger] kept(parts)[i]) by {
        parts.lemma_filter_pred(|d: char| !avoided(d), i);
    }
}

/// `trim_start` leaves nothing or a sequence that starts with a
/// non-whitespace character, and is a suffix of its argument.
proof fn lemma_trim_start(s: Seq<char>)
    ensures
        trim_start(s).len() > 0 ==> !white_space(trim_start(s)[0]),
        trim_start(s).len() <= s.len(),
    decreases s.len(),
{
    if s.len() > 0 && white_space(s[0]) {
        lemma_trim_start(s.drop_first());
    }
}

/// `trim_end` keeps a prefix of its argument that is empty or ends with a
/// non-whitespace character.
proof fn lemma_trim_end(s: Seq<char>)
    ensures
        trim_end(s).len() > 0 ==> !white_space(trim_end(s).last()),
        trim_end(s).len() <= s.len(),
        trim_end(s) == s.take(trim_end(s).len() as int),
    decreases s.len(),
{
    if s.len() > 0 && white_space(s.last()) {
        lemma_trim_end(s.drop_last());
        assert(s.drop_last().take(trim_end(s).len() as int) =~= s.take(trim_end(s).len() as int));
    } else {
        assert(s.take(s.len() as int) =~= s);
    }
}

/// Trimming leaves no whitespace at either end.
pub proof fn lemma_trimmed_edges(s: Seq<char>)
    ensures
        trimmed(s).len() > 0 ==> !white_space(trimmed(s)[0]) && !white_space(trimmed(s).last()),
{
    let t = trim_start(s);
    lemma_trim_start(s);
    lemma_trim_end(t);
    if trimmed(s).len() > 0 {
        assert(trimmed(s)[0] == t[0]);
    }
}

/// The result of normalization never starts or ends with a space, nor with
/// any other whitespace character.
pub proof fn lemma_normalized_no_edge_space(
    s: Seq<char>,
    allow: Seq<char>,
    collapse: bool,
    remove: bool,
)
    ensures
        normalized(s, allow, collapse, remove).len() > 0 ==> {
            let r = normalized(s, allow, collapse, remove);
            &&& r[0] != ' '
            &&& r.last() != ' '
            &&& !white_space(r[0])
            &&& !white_space(r.last())
        },
{
    lemma_trimmed_edges(
        canonical_composition(scan(s, allow, collapse, remove, unicode_decomposition()).0),
    );
}

/// Whatever the decomposition, the scan buffer holds only codepoints of the
/// Basic Multilingual Plane, as long as the allow-list does.
pub proof fn lemma_scan_stays_in_bmp(
    s: Seq<char>,
    allow: Seq<char>,
    collapse: bool,
    remove: bool,
    decomp: spec_fn(char) -> Seq<char>,
)
    requires
        forall|i: int| 0 <= i < allow.len() ==> !beyond_bmp(#[trigger] allow[i]),
    ensures
        forall|i: int|
            0 <= i < scan(s, allow, collapse, remove, decomp).0.len() ==> !beyond_bmp(
                #[trigger] scan(s, allow, collapse, remove, decomp).0[i],
            ),
    decreases s.len(),
{
    if s.len() > 0 {
        lemma_scan_stays_in_bmp(s.drop_last(), allow, collapse, remove, decomp);
        let before = scan(s.drop_last(), allow, collapse, remove, decomp);
        let c = s.last();
        let st = step(c, allow, collapse, remove, before.1, decomp);
        lemma_kept_not_avoided(decomp(c));
        let buf = scan(s, allow, collapse, remove, decomp).0;
        assert(buf == before.0 + st.0);
        assert forall|i: int| 0 <= i < buf.len() implies !beyond_bmp(#[trigger] buf[i]) by {
            if i >= before.0.len() {
                let j = i - before.0.len();
                assert(buf[i] == st.0[j]);
                if allow.contains(c) {
                    let k = choose|k: int| 0 <= k < allow.len() && allow[k] == c;
                    assert(!beyond_bmp(allow[k]));
                }
            }
        }
    }
}

/// With emoji removal on, and for a decomposition that yields no emoji for
/// a non-emoji character, the scan buffer holds no emoji as long as the
/// allow-list holds none.
pub proof fn lemma_scan_drops_emoji(
    s: Seq<char>,
    allow: Seq<char>,
    collapse: bool,
    decomp: spec_fn(char) -> Seq<char>,
)
    requires
        forall|i: int| 0 <= i < allow.len() ==> !emoji(#[trigger] allow[i]),
        forall|c: char, i: int|
            !emoji(c) && 0 <= i < kept(decomp(c)).len() ==> !emoji(#[trigger] kept(decomp(c))[i]),
    ensures
        forall|i: int|
            0 <= i < scan(s, allow, collapse, true, decomp).0.len() ==> !emoji(
                #[trigger] scan(s, allow, collapse, true, decomp).0[i],
            ),
    decreases s.len(),
{
    if s.len() > 0 {
        lemma_scan_drops_emoji(s.drop_last(), allow, collapse, decomp);
        let before = scan(s.drop_last(), allow, collapse, true, decomp);
        let c = s.last();
        let st = step(c, allow, collapse, true, before.1, decomp);
        let buf = scan(s, allow, collapse, true, decomp).0;
        assert(buf == before.0 + st.0);
        assert forall|i: int| 0 <= i < buf.len() implies !emoji(#[trigger] buf[i]) by {
            if i >= before.0.len() {
                let j = i - before.0.len();
                assert(buf[i] == st.0[j]);
                if allow.contains(c) {
                    let k = choose|k: int| 0 <= k < allow.len() && allow[k] == c;
                    assert(!emoji(allow[k]));
                } else if !white_space(c) {
                    assert(kept(decomp(c))[j] == st.0[j]);
                } else {
                    assert(st.0[j] == ' ');
                    assert(!emoji(' '));
                }
            }
        }
    }
}

/// For a decomposition that never keeps whitespace, and an allow-list without
/// whitespace, the only whitespace character of the scan buffer is the
/// space, and with collapsing on no two spaces stand side by side. A buffer
/// that ends with a space leaves the scan in the whitespace state.
pub proof fn lemma_scan_whitespace(
    s: Seq<char>,
    allow: Seq<char>,
    collapse: bool,
    remove: bool,
    decomp: spec_fn(char) -> Seq<char>,
)
    requires
        forall|i: int| 0 <= i < allow.len() ==> !white_space(#[trigger] allow[i]),
        forall|c: char, i: int|
            0 <= i < kept(decomp(c)).len() ==> !white_space(#[trigger] kept(decomp(c))[i]),
    ensures
        ({
            let (buf, state) = scan(s, allow, collapse, remove, decomp);
            &&& forall|i: int|
                0 <= i < buf.len() && white_space(#[trigger] buf[i]) ==> buf[i] == ' '
            &&& collapse ==> forall|i: int|
                0 <= i && i + 1 < buf.len() && #[trigger] buf[i] == ' ' ==> buf[i + 1] != ' '
            &&& buf.len() > 0 && buf.last() == ' ' ==> state
        }),
    decreases s.len(),
{
    if s.len() > 0 {
        lemma_scan_whitespace(s.drop_last(), allow, collapse, remove, decomp);
        let before = scan(s.drop_last(), allow, collapse, remove, decomp);
        let c = s.last();
        let st = step(c, allow, collapse, remove, before.1, decomp);
        let buf = scan(s, allow, collapse, remove, decomp).0;
        let n = before.0.len();
        assert(buf == before.0 + st.0);
        assert(!white_space(c) ==> forall|j: int| 0 <= j < st.0.len() ==> !white_space(
            #[trigger] st.0[j],
        )) by {
            if allow.contains(c) {
                let k = choose|k: int| 0 <= k < allow.len() && allow[k] == c;
                assert(!white_space(allow[k]));
            }
        }
        assert(allow.contains(c) ==> !white_space(c)) by {
            if allow.contains(c) {
                let k = choose|k: int| 0 <= k < allow.len() && allow[k] == c;
                assert(!white_space(allow[k]));
            }
        }
        assert(white_space(' '));
        assert forall|i: int| 0 <= i < buf.len() && white_space(#[trigger] buf[i]) implies buf[i]
            == ' ' by {
            if i >= n {
                assert(buf[i] == st.0[i - n]);
            }
        }
        if collapse {
            assert forall|i: int| 0 <= i && i + 1 < buf.len() && #[trigger] buf[i] == ' ' implies buf[i
                + 1] != ' ' by {
                if i + 1 >= n {
                    assert(buf[i + 1] == st.0[i + 1 - n]);
                    if i >= n {
                        assert(buf[i] == st.0[i - n]);
                    } else {
                        assert(buf[i] == before.0.last());
                    }
                } else {
                    assert(buf[i] == before.0[i]);
                    assert(buf[i + 1] == before.0[i + 1]);
                }
            }
        }
        if buf.len() > 0 && buf.last() == ' ' && st.0.len() > 0 {
            assert(buf.last() == st.0.last());
        }
    }
}

/// The buffer of the scan over a prefix of `s` is a prefix of the buffer of
/// the scan over `s`.
proof fn lemma_scan_prefix(
    s: Seq<char>,
    j: int,
    allow: Seq<char>,
    collapse: bool,
    remove: bool,
    decomp: spec_fn(char) -> Seq<char>,
)
    requires
        0 <= j <= s.len(),
    ensures
        ({
            let part = scan(s.take(j), allow, collapse, remove, decomp).0;
            let whole = scan(s, allow, collapse, remove, decomp).0;
            part.len() <= whole.len() && part == whole.take(part.len() as int)
        }),
    decreases s.len(),
{
    let part = scan(s.take(j), allow, collapse, remove, decomp).0;
    let whole = scan(s, allow, collapse, remove, decomp).0;
    if j == s.len() {
        assert(s.take(j) =~= s);
        assert(whole.take(whole.len() as int) =~= whole);
    } else {
        assert(s.drop_last().take(j) =~= s.take(j));
        lemma_scan_prefix(s.drop_last(), j, allow, collapse, remove, decomp);
        let mid = scan(s.drop_last(), allow, collapse, remove, decomp).0;
        assert(whole.take(mid.len() as int) =~= mid);
        assert(whole.take(part.len() as int) =~= mid.take(part.len() as int));
    }
}

/// Every occurrence of an allow-listed character is copied, unchanged, into
/// the scan buffer, right after what the text before it produced.
pub proof fn lemma_scan_keeps_allowed(
    s: Seq<char>,
    i: int,
    allow: Seq<char>,
    collapse: bool,
    remove: bool,
    decomp: spec_fn(char) -> Seq<char>,
)
    requires
        0 <= i < s.len(),
        allow.contains(s[i]),
    ensures
        ({
            let at = scan(s.take(i), allow, collapse, remove, decomp).0.len();
            let whole = scan(s, allow, collapse, remove, decomp).0;
            at < whole.len() && whole[at as int] == s[i]
        }),
{
    assert(s.take(i + 1).drop_last() =~= s.take(i));
    lemma_scan_prefix(s, i + 1, allow, collapse, remove, decomp);
    let at = scan(s.take(i), allow, collapse, remove, decomp).0.len();
    let upto = scan(s.take(i + 1), allow, collapse, remove, decomp).0;
    assert(upto[at as int] == s[i]);
}

/// Trimming a trimmed sequence changes nothing.
pub proof fn lemma_trimmed_idempotent(s: Seq<char>)
    ensures
        trimmed(trimmed(s)) == trimmed(s),
{
    let t = trimmed(s);
    lemma_trimmed_edges(s);
    assert(trim_start(t) == t);
    assert(trim_end(t) == t);
}

/// A character that the scan drops as an emoji when emoji removal is on.
pub open spec fn dropped_as_emoji(c: char, allow: Seq<char>) -> bool {
    !allow.contains(c) && !white_space(c) && emoji(c)
}

/// With emoji removal on, deleting the emoji from the text changes neither
/// the scan buffer nor the final whitespace state: a dropped emoji is no
/// word separator and does not break a whitespace run.
pub proof fn lemma_scan_ignores_emoji(
    s: Seq<char>,
    allow: Seq<char>,
    collapse: bool,
    decomp: spec_fn(char) -> Seq<char>,
)
    ensures
        scan(s, allow, collapse, true, decomp) == scan(
            s.filter(|c: char| !dropped_as_emoji(c, allow)),
            allow,
            collapse,
            true,
            decomp,
        ),
    decreases s.len(),
{
    reveal(Seq::filter);
    let keep = |c: char| !dropped_as_emoji(c, allow);
    if s.len() > 0 {
        let rest = s.drop_last();
        let c = s.last();
        lemma_scan_ignores_emoji(rest, allow, collapse, decomp);
        let before = scan(rest, allow, collapse, true, decomp);
        if keep(c) {
            let f = rest.filter(keep).push(c);
            assert(f.drop_last() =~= rest.filter(keep));
            assert(f.last() == c);
        } else {
            assert(before.0 + Seq::<char>::empty() =~= before.0);
        }
    }
}

/// A buffer that the scan reproduces: each character is allow-listed, a
/// space, or a character outside whitespace (and outside emoji when they are
/// removed) that decomposes to itself; with collapsing on, no two spaces are
/// adjacent.
pub open spec fn settled(
    buf: Seq<char>,
    allow: Seq<char>,
    collapse: bool,
    remove: bool,
    decomp: spec_fn(char) -> Seq<char>,
) -> bool {
    &&& forall|i: int|
        0 <= i < buf.len() ==> {
            let d = #[trigger] buf[i];
            ||| allow.contains(d)
            ||| d == ' '
            ||| !white_space(d) && !(remove && emoji(d)) && kept(decomp(d)) == seq![d]
        }
    &&& collapse ==> forall|i: int|
        0 <= i && i + 1 < buf.len() && #[trigger] buf[i] == ' ' ==> buf[i + 1] != ' '
}

/// Scanning a settled buffer gives it back, and ends in the whitespace state
/// exactly when it ends with a space.
proof fn lemma_settled_is_fixed(
    buf: Seq<char>,
    allow: Seq<char>,
    collapse: bool,
    remove: bool,
    decomp: spec_fn(char) -> Seq<char>,
)
    requires
        forall|i: int| 0 <= i < allow.len() ==> !white_space(#[trigger] allow[i]),
        settled(buf, allow, collapse, remove, decomp),
    ensures
        scan(buf, allow, collapse, remove, decomp) == (buf, buf.len() > 0 && buf.last() == ' '),
    decreases buf.len(),
{
    if buf.len() > 0 {
        let rest = buf.drop_last();
        let d = buf.last();
        assert(settled(rest, allow, collapse, remove, decomp)) by {
            if collapse {
                assert forall|i: int| 0 <= i && i + 1 < rest.len() && #[trigger] rest[i] == ' ' implies rest[i
                    + 1] != ' ' by {
                    assert(buf[i] == rest[i]);
                    assert(buf[i + 1] == rest[i + 1]);
                }
            }
            assert forall|i: int| 0 <= i < rest.len() implies {
                let e = #[trigger] rest[i];
                ||| allow.contains(e)
                ||| e == ' '
                ||| !white_space(e) && !(remove && emoji(e)) && kept(decomp(e)) == seq![e]
            } by {
                assert(buf[i] == rest[i]);
            }
        }
        lemma_settled_is_fixed(rest, allow, collapse, remove, decomp);
        assert(buf[buf.len() - 1] == d);
        assert(white_space(' '));
        if allow.contains(d) {
            let k = choose|k: int| 0 <= k < allow.len() && allow[k] == d;
            assert(!white_space(allow[k]));
        } else if d == ' ' {
            if collapse && rest.len() > 0 && rest.last() == ' ' {
                assert(buf[rest.len() - 1] == ' ');
            }
        }
        assert(rest.push(d) =~= buf);
    }
}

/// For a decomposition whose kept codepoints are never whitespace, decompose
/// to themselves, and are no emoji when the character is none, and an
/// allow-list without whitespace, the scan buffer is settled.
proof fn lemma_scan_is_settled(
    s: Seq<char>,
    allow: Seq<char>,
    collapse: bool,
    remove: bool,
    decomp: spec_fn(char) -> Seq<char>,
)
    requires
        forall|i: int| 0 <= i < allow.len() ==> !white_space(#[trigger] allow[i]),
        forall|c: char, i: int|
            0 <= i < kept(decomp(c)).len() ==> !white_space(#[trigger] kept(decomp(c))[i]),
        forall|c: char, i: int|
            0 <= i < kept(decomp(c)).len() ==> decomp(#[trigger] kept(decomp(c))[i]) == seq![
                kept(decomp(c))[i],
            ],
        forall|c: char, i: int|
            !emoji(c) && 0 <= i < kept(decomp(c)).len() ==> !emoji(#[trigger] kept(decomp(c))[i]),
    ensures
        settled(scan(s, allow, collapse, remove, decomp).0, allow, collapse, remove, decomp),
    decreases s.len(),
{
    lemma_scan_whitespace(s, allow, collapse, remove, decomp);
    if s.len() > 0 {
        lemma_scan_is_settled(s.drop_last(), allow, collapse, remove, decomp);
        let before = scan(s.drop_last(), allow, collapse, remove, decomp);
        let c = s.last();
        let st = step(c, allow, collapse, remove, before.1, decomp);
        let buf = scan(s, allow, collapse, remove, decomp).0;
        let n = before.0.len();
        assert(buf == before.0 + st.0);
        lemma_kept_not_avoided(decomp(c));
        assert forall|i: int| 0 <= i < buf.len() implies {
            let d = #[trigger] buf[i];
            ||| allow.contains(d)
            ||| d == ' '
            ||| !white_space(d) && !(remove && emoji(d)) && kept(decomp(d)) == seq![d]
        } by {
            if i < n {
                assert(buf[i] == before.0[i]);
            } else {
                let j = i - n;
                assert(buf[i] == st.0[j]);
                if !allow.contains(c) && !white_space(c) && !(remove && emoji(c)) {
                    let d = kept(decomp(c))[j];
                    assert(st.0[j] == d);
                    assert(decomp(d) == seq![d]);
                    assert(!avoided(d));
                    reveal_with_fuel(Seq::filter, 2);
                    assert(seq![d].drop_last() =~= Seq::<char>::empty());
                    assert(kept(seq![d]) =~= seq![d]);
                }
            }
        }
    }
}

/// For a decomposition whose kept codepoints are never whitespace, decompose
/// to themselves, and are no emoji when the character is none, and an
/// allow-list without whitespace, scanning the scan buffer again gives it
/// back unchanged.
pub proof fn lemma_scan_idempotent(
    s: Seq<char>,
    allow: Seq<char>,
    collapse: bool,
    remove: bool,
    decomp: spec_fn(char) -> Seq<char>,
)
    requires
        forall|i: int| 0 <= i < allow.len() ==> !white_space(#[trigger] allow[i]),
        forall|c: char, i: int|
            0 <= i < kept(decomp(c)).len() ==> !white_space(#[trigger] kept(decomp(c))[i]),
        forall|c: char, i: int|
            0 <= i < kept(decomp(c)).len() ==> decomp(#[trigger] kept(decomp(c))[i]) == seq![
                kept(decomp(c))[i],
            ],
        forall|c: char, i: int|
            !emoji(c) && 0 <= i < kept(decomp(c)).len() ==> !emoji(#[trigger] kept(decomp(c))[i]),
    ensures
        scan(scan(s, allow, collapse, remove, decomp).0, allow, collapse, remove, decomp).0 == scan(
            s,
            allow,
            collapse,
            remove,
            decomp,
        ).0,
{
    let buf = scan(s, allow, collapse, remove, decomp).0;
    lemma_scan_is_settled(s, allow, collapse, remove, decomp);
    lemma_settled_is_fixed(buf, allow, collapse, remove, decomp);
}

} // verus!

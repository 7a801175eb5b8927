//! The normalization pipeline: a single left-to-right scan that classifies
//! each character and appends its replacement to a buffer, followed by
//! canonical composition and trimming.
use crate::classify::{avoided, is_char_to_avoid, is_whitespace_char, white_space};
use crate::emoji::{emoji, is_emoji};
use unicode_normalization::char::decompose_compatible;
use unicode_normalization::UnicodeNormalization;
use vstd::prelude::*;

verus! {

/// The full compatibility decomposition of one character, as given by the
/// Unicode tables of `unicode_normalization`.
pub uninterp spec fn compat_decomposition(c: char) -> Seq<char>;

/// Canonical composition (NFC) of a sequence of characters, as computed by
/// `unicode_normalization`.
pub uninterp spec fn canonical_composition(s: Seq<char>) -> Seq<char>;

/// Relies on `String::push`, which appends the given character to the end
/// of the string.
pub assume_specification[ String::push ](s: &mut String, ch: char)
    ensures
        final(s)@ == old(s)@.push(ch),
;

/// Relies on `unicode_normalization::char::decompose_compatible`, which emits
/// the full compatibility decomposition of `c`, and emits an ASCII character
/// as it is.
#[verifier::external_body]
fn decompose(c: char) -> (r: Vec<char>)
    ensures
        r@ == compat_decomposition(c),
        c as u32 <= 0x7F ==> r@ == seq![c],
{
    let mut parts = Vec::new();
    decompose_compatible(c, |d| parts.push(d));
    parts
}

/// Relies on `UnicodeNormalization::nfc` of `unicode_normalization`: the
/// canonical composition of the text.
#[verifier::external_body]
fn compose(s: &str) -> (r: String)
    ensures
        r@ == canonical_composition(s@),
{
    s.nfc().collect::<String>()
}

/// The decomposition the pipeline uses: the one of the Unicode tables, under
/// which an ASCII character stands for itself.
pub open spec fn unicode_decomposition() -> spec_fn(char) -> Seq<char> {
    |c: char|
        if c as u32 <= 0x7F {
            seq![c]
        } else {
            compat_decomposition(c)
        }
}

/// The codepoints of a decomposition that are kept.
pub open spec fn kept(parts: Seq<char>) -> Seq<char> {
    parts.filter(|d: char| !avoided(d))
}

/// Appending the kept part of a decomposition: the emitted text, and the
/// whitespace state after it (unchanged when nothing was kept).
pub open spec fn decomposed_step(parts: Seq<char>, prev: bool) -> (Seq<char>, bool) {
    let k = kept(parts);
    (k, if k.len() > 0 { false } else { prev })
}

/// One step of the scan on character `c`, given the allow-list, the two
/// options, whether the previous effective character was whitespace and the
/// decomposition in use: the text appended and the next whitespace state.
pub open spec fn step(
    c: char,
    allow: Seq<char>,
    collapse: bool,
    remove: bool,
    prev: bool,
    decomp: spec_fn(char) -> Seq<char>,
) -> (Seq<char>, bool) {
    if allow.contains(c) {
        (seq![c], false)
    } else if white_space(c) {
        (if collapse && prev { Seq::empty() } else { seq![' '] }, true)
    } else if remove && emoji(c) {
        (Seq::empty(), prev)
    } else {
        decomposed_step(decomp(c), prev)
    }
}

/// The scan over `s`: the buffer it fills and the final whitespace state.
pub open spec fn scan(
    s: Seq<char>,
    allow: Seq<char>,
    collapse: bool,
    remove: bool,
    decomp: spec_fn(char) -> Seq<char>,
) -> (Seq<char>, bool)
    decreases s.len(),
{
    if s.len() == 0 {
        (Seq::empty(), false)
    } else {
        let before = scan(s.drop_last(), allow, collapse, remove, decomp);
        let st = step(s.last(), allow, collapse, remove, before.1, decomp);
        (before.0 + st.0, st.1)
    }
}

/// Appends the kept codepoints of `parts`, the decomposition of one
/// character, and returns the whitespace state after them.
pub fn push_decomposed(out: &mut String, parts: &Vec<char>, previous_whitespace: bool) -> (r: bool)
    ensures
        final(out)@ == old(out)@ + decomposed_step(parts@, previous_whitespace).0,
        r == decomposed_step(parts@, previous_whitespace).1,
{
    let mut pushed = false;
    proof {
        reveal(Seq::filter);
        assert(parts@.take(0).filter(|d: char| !avoided(d)) =~= Seq::<char>::empty());
        assert(old(out)@ =~= old(out)@ + Seq::<char>::empty());
    }
    let ghost pred = |d: char| !avoided(d);
    for i in 0..parts.len()
        invariant
            pred == (|d: char| !avoided(d)),
            out@ == old(out)@ + parts@.take(i as int).filter(pred),
            pushed == (parts@.take(i as int).filter(pred).len() > 0),
    {
        proof {
            reveal(Seq::filter);
            assert(parts@.take(i + 1).drop_last() =~= parts@.take(i as int));
        }
        let d = parts[i];
        let ghost before = out@;
        if !is_char_to_avoid(d) {
            out.push(d);
            pushed = true;
        }
        proof {
            reveal(Seq::filter);
            let done = parts@.take(i as int).filter(pred);
            assert(parts@.take(i + 1).last() == d);
            assert(pred(d) == !avoided(d));
            if pred(d) {
                assert(parts@.take(i + 1).filter(pred) == done.push(d));
                assert(out@ =~= old(out)@ + done.push(d));
            } else {
                assert(parts@.take(i + 1).filter(pred) == done);
            }
        }
    }
    proof {
        assert(parts@.take(parts@.len() as int) =~= parts@);
    }
    if pushed {
        false
    } else {
        previous_whitespace
    }
}

/// Whether `c` occurs in `chars`.
fn contains_char(chars: &Vec<char>, c: char) -> (r: bool)
    ensures
        r == chars@.contains(c),
{
    for i in 0..chars.len()
        invariant
            forall|j: int| 0 <= j < i ==> chars@[j] != c,
    {
        if chars[i] == c {
            return true;
        }
    }
    false
}

/// Processes one character of the scan: appends what it stands for and
/// returns the next whitespace state.
pub fn custom_character_normalization(
    out: &mut String,
    c: char,
    allow_chars: &Vec<char>,
    collapse_whitespace: bool,
    previous_whitespace: bool,
    remove_emojis: bool,
) -> (r: bool)
    ensures
        final(out)@ == old(out)@ + step(
            c,
            allow_chars@,
            collapse_whitespace,
            remove_emojis,
            previous_whitespace,
            unicode_decomposition(),
        ).0,
        r == step(
            c,
            allow_chars@,
            collapse_whitespace,
            remove_emojis,
            previous_whitespace,
            unicode_decomposition(),
        ).1,
{
    if contains_char(allow_chars, c) {
        out.push(c);
        assert(final(out)@ =~= old(out)@ + seq![c]);
        return false;
    } else if is_whitespace_char(c) {
        if !collapse_whitespace || !previous_whitespace {
            out.push(' ');
        }
        assert(final(out)@ =~= old(out)@ + (if collapse_whitespace && previous_whitespace {
            Seq::empty()
        } else {
            seq![' ']
        }));
        return true;
    } else if remove_emojis && is_emoji(c) {
        assert(final(out)@ =~= old(out)@ + Seq::<char>::empty());
        return previous_whitespace;
    }
    let parts = decompose(c);
    push_decomposed(out, &parts, previous_whitespace)
}

/// `s` without its leading whitespace.
pub open spec fn trim_start(s: Seq<char>) -> Seq<char>
    decreases s.len(),
{
    if s.len() > 0 && white_space(s[0]) {
        trim_start(s.drop_first())
    } else {
        s
    }
}

/// `s` without its trailing whitespace.
pub open spec fn trim_end(s: Seq<char>) -> Seq<char>
    decreases s.len(),
{
    if s.len() > 0 && white_space(s.last()) {
        trim_end(s.drop_last())
    } else {
        s
    }
}

/// `s` without leading and trailing whitespace.
pub open spec fn trimmed(s: Seq<char>) -> Seq<char> {
    trim_end(trim_start(s))
}

/// The characters of `s`, in order.
fn chars_of(s: &str) -> (r: Vec<char>)
    ensures
        r@ == s@,
{
    let mut v: Vec<char> = Vec::new();
    for c in it: s.chars()
        invariant
            it.seq() == s@,
            v@ == s@.take(it.index()),
    {
        proof {
            assert(s@.take(it.index() + 1) =~= v@.push(c));
        }
        v.push(c);
    }
    proof {
        assert(s@.take(s@.len() as int) =~= s@);
    }
    v
}

/// Removes leading and trailing whitespace.
pub fn trim_whitespace(s: &str) -> (r: String)
    ensures
        r@ == trimmed(s@),
{
    let v = chars_of(s);
    let n = v.len();
    let mut start: usize = 0;
    proof {
        assert(s@.subrange(0, n as int) =~= s@);
    }
    while start < n && is_whitespace_char(v[start])
        invariant
            v@ == s@,
            n == v@.len(),
            start <= n,
            trim_start(s@) == trim_start(s@.subrange(start as int, n as int)),
        decreases n - start,
    {
        proof {
            assert(s@.subrange(start as int, n as int).drop_first() =~= s@.subrange(
                start + 1,
                n as int,
            ));
        }
        start = start + 1;
    }
    let mut end: usize = n;
    while end > start && is_whitespace_char(v[end - 1])
        invariant
            v@ == s@,
            n == v@.len(),
            start <= end <= n,
            trimmed(s@) == trim_end(s@.subrange(start as int, end as int)),
        decreases end,
    {
        proof {
            assert(s@.subrange(start as int, end as int).drop_last() =~= s@.subrange(
                start as int,
                end - 1,
            ));
        }
        end = end - 1;
    }
    let mut r = String::new();
    let mut i: usize = start;
    while i < end
        invariant
            v@ == s@,
            n == v@.len(),
            start <= i <= end <= n,
            r@ == s@.subrange(start as int, i as int),
        decreases end - i,
    {
        r.push(v[i]);
        proof {
            assert(r@ =~= s@.subrange(start as int, i + 1));
        }
        i = i + 1;
    }
    r
}

/// The buffer of the scan over `input`, before composition.
fn scan_text(input: &str, allow_chars: &Vec<char>, collapse_whitespace: bool, remove_emojis: bool) -> (r: String)
    ensures
        r@ == scan(input@, allow_chars@, collapse_whitespace, remove_emojis, unicode_decomposition()).0,
{
    let mut result = String::new();
    let mut previous_whitespace = false;
    for c in it: input.chars()
        invariant
            it.seq() == input@,
            (result@, previous_whitespace) == scan(
                input@.take(it.index()),
                allow_chars@,
                collapse_whitespace,
                remove_emojis,
                unicode_decomposition(),
            ),
    {
        proof {
            assert(input@.take(it.index() + 1).drop_last() =~= input@.take(it.index()));
        }
        previous_whitespace = custom_character_normalization(
            &mut result,
            c,
            allow_chars,
            collapse_whitespace,
            previous_whitespace,
            remove_emojis,
        );
    }
    proof {
        assert(input@.take(input@.len() as int) =~= input@);
    }
    result
}

/// Normalizes `input`: the scan with the given allow-list and options,
/// followed by canonical composition. The result is not trimmed.
pub fn custom_normalization(
    input: String,
    allow_chars: Vec<char>,
    collapse_whitespace: bool,
    remove_emojis: bool,
) -> (r: String)
    ensures
        r@ == canonical_composition(
            scan(input@, allow_chars@, collapse_whitespace, remove_emojis, unicode_decomposition()).0,
        ),
{
    let buffer = scan_text(input.as_str(), &allow_chars, collapse_whitespace, remove_emojis);
    compose(buffer.as_str())
}

/// The allow-list of the two entry points: the masculine and feminine
/// ordinal indicators, then tab and the line terminators when asked for.
pub open spec fn allow_list(allow_tab: bool, allow_eol: bool) -> Seq<char> {
    let base = seq!['\u{BA}', '\u{AA}'];
    let with_tab = if allow_tab {
        base.push('\t')
    } else {
        base
    };
    if allow_eol {
        with_tab.push('\n').push('\r')
    } else {
        with_tab
    }
}

/// The normalized, trimmed form of `s`.
pub open spec fn normalized(s: Seq<char>, allow: Seq<char>, collapse: bool, remove: bool) -> Seq<
    char,
> {
    trimmed(canonical_composition(scan(s, allow, collapse, remove, unicode_decomposition()).0))
}

/// Builds the allow-list of the two entry points.
fn allowed_chars(allow_tab: bool, allow_eol: bool) -> (r: Vec<char>)
    ensures
        r@ == allow_list(allow_tab, allow_eol),
{
    let mut chars = vec!['\u{BA}', '\u{AA}'];
    if allow_tab {
        chars.push('\t');
    }
    if allow_eol {
        chars.push('\n');
        chars.push('\r');
    }
    chars
}

/// Cleans `value`: keeps the ordinal indicators (and tab and line terminators
/// when asked for) as they are, turns other whitespace into spaces, optionally
/// collapsing runs, optionally drops emoji, decomposes everything else, then
/// composes and trims.
pub fn basic_string_clean(
    value: String,
    allow_tab: bool,
    allow_eol: bool,
    collapse_whitespace: bool,
    remove_emojis: bool,
) -> (r: String)
    ensures
        r@ == normalized(
            value@,
            allow_list(allow_tab, allow_eol),
            collapse_whitespace,
            remove_emojis,
        ),
{
    let allowed = allowed_chars(allow_tab, allow_eol);
    let composed = custom_normalization(value, allowed, collapse_whitespace, remove_emojis);
    trim_whitespace(composed.as_str())
}

/// Drops emoji from `value` and collapses its whitespace runs; only the
/// ordinal indicators bypass the filtering.
pub fn remove_emojis(value: String) -> (r: String)
    ensures
        r@ == normalized(value@, allow_list(false, false), true, true),
{
    let allowed = allowed_chars(false, false);
    let composed = custom_normalization(value, allowed, true, true);
    trim_whitespace(composed.as_str())
}

} // verus!

//! Labels of knobs and sliders that have a keyboard shortcut: the shortcut
//! letter is shown in brackets inside the label, or before it.

use vstd::prelude::*;
use crate::command_palette::{lowercase, to_lowercase};
use crate::text::{
    ascii_lower, ascii_upper, char_to_ascii_lowercase, char_to_ascii_uppercase, chars_of,
    string_from_chars,
};

verus! {

/// Number of bytes of `c` in UTF-8.
pub open spec fn char_width(c: char) -> nat {
    if (c as u32) < 0x80 {
        1
    } else if (c as u32) < 0x800 {
        2
    } else if (c as u32) < 0x10000 {
        3
    } else {
        4
    }
}

/// Number of bytes of `s` in UTF-8.
pub open spec fn utf8_width(s: Seq<char>) -> nat
    decreases s.len(),
{
    if s.len() == 0 {
        0
    } else {
        utf8_width(s.drop_last()) + char_width(s.last())
    }
}

/// The first position of `c` in `s` at or after `from`.
pub open spec fn first_index_of(s: Seq<char>, c: char, from: int) -> Option<int>
    decreases s.len() - from,
{
    if from < 0 || from >= s.len() {
        None
    } else if s[from] == c {
        Some(from)
    } else {
        first_index_of(s, c, from + 1)
    }
}

/// The number of characters of `s` whose UTF-8 bytes end exactly at byte
/// `pos`, searching from character `i`: `None` when `pos` falls inside a
/// character or past the end.
pub open spec fn chars_before_byte(s: Seq<char>, pos: int, i: int) -> Option<int>
    decreases s.len() + 1 - i,
{
    if i < 0 || i > s.len() {
        None
    } else if utf8_width(s.take(i)) == pos {
        Some(i)
    } else if utf8_width(s.take(i)) > pos {
        None
    } else {
        chars_before_byte(s, pos, i + 1)
    }
}

/// Where the shortcut goes, from the label and its lowercase form: the byte
/// position of the first occurrence of the lowercased key in the lowercase
/// form, if any.
pub open spec fn shortcut_byte(lower: Seq<char>, key: char) -> Option<int> {
    match first_index_of(lower, ascii_lower(key), 0) {
        Some(j) => Some(utf8_width(lower.take(j)) as int),
        None => None,
    }
}

/// The label cannot be marked at byte `pos`: `pos` or the byte after it
/// is not a character boundary of the label, or the label has no character
/// at position `pos`.
pub open spec fn mark_fails(label: Seq<char>, pos: int) -> bool {
    ||| chars_before_byte(label, pos, 0) is None
    ||| chars_before_byte(label, pos + 1, 0) is None
    ||| pos >= label.len()
}

/// The label with the shortcut shown. With the key found at byte `pos` of
/// the lowercase form: the label's text before byte `pos`, then the label's
/// character at position `pos` uppercased in brackets, then the text after
/// byte `pos + 1`. Without it: the uppercased key in brackets, a space and
/// the label.
pub open spec fn marked_label(label: Seq<char>, lower: Seq<char>, key: char) -> Seq<char> {
    match shortcut_byte(lower, key) {
        Some(pos) => {
            let c1 = chars_before_byte(label, pos, 0)->0;
            let c2 = chars_before_byte(label, pos + 1, 0)->0;
            label.take(c1) + seq!['[', ascii_upper(label[pos]), ']'] + label.skip(c2)
        },
        None => seq!['[', ascii_upper(key), ']', ' '] + label,
    }
}

proof fn lemma_width_step(s: Seq<char>, i: int)
    requires
        0 <= i < s.len(),
    ensures
        utf8_width(s.take(i + 1)) == utf8_width(s.take(i)) + char_width(s[i]),
{
    assert(s.take(i + 1).drop_last() =~= s.take(i));
}

/// UTF-8 width of `c`.
fn char_width_of(c: char) -> (w: u128)
    ensures
        w == char_width(c),
{
    let u = c as u32;
    if u < 0x80 {
        1
    } else if u < 0x800 {
        2
    } else if u < 0x10000 {
        3
    } else {
        4
    }
}

/// The number of characters of `s` ending at byte `pos`, if `pos` is a
/// character boundary.
fn chars_before(s: &Vec<char>, pos: u128) -> (r: Option<usize>)
    ensures
        match r {
            Some(c) => chars_before_byte(s@, pos as int, 0) == Some(c as int) && c <= s@.len(),
            None => chars_before_byte(s@, pos as int, 0) is None,
        },
{
    let mut i: usize = 0;
    let mut w: u128 = 0;
    loop
        invariant
            i <= s@.len(),
            w == utf8_width(s@.take(i as int)),
            w <= 4 * i,
            w <= pos,
            chars_before_byte(s@, pos as int, 0) == chars_before_byte(s@, pos as int, i as int),
        decreases s@.len() - i,
    {
        if w == pos {
            return Some(i);
        }
        if i == s.len() {
            assert(chars_before_byte(s@, pos as int, (i + 1) as int) is None);
            return None;
        }
        proof {
            lemma_width_step(s@, i as int);
        }
        let nw = w + char_width_of(s[i]);
        if nw > pos {
            assert(chars_before_byte(s@, pos as int, (i + 1) as int) is None);
            return None;
        }
        w = nw;
        i = i + 1;
    }
}

/// The first position of `c` in `s`.
fn index_of(s: &Vec<char>, c: char) -> (r: Option<usize>)
    ensures
        match r {
            Some(j) => first_index_of(s@, c, 0) == Some(j as int) && j < s@.len(),
            None => first_index_of(s@, c, 0) is None,
        },
{
    let mut i: usize = 0;
    while i < s.len()
        invariant
            i <= s@.len(),
            first_index_of(s@, c, 0) == first_index_of(s@, c, i as int),
        decreases s@.len() - i,
    {
        if s[i] == c {
            return Some(i);
        }
        i = i + 1;
    }
    None
}

/// UTF-8 width of the first `n` characters of `s`.
fn width_of_prefix(s: &Vec<char>, n: usize) -> (w: u128)
    requires
        n <= s@.len(),
    ensures
        w == utf8_width(s@.take(n as int)),
        w <= 4 * n,
{
    let mut i: usize = 0;
    let mut w: u128 = 0;
    while i < n
        invariant
            i <= n,
            n <= s@.len(),
            w == utf8_width(s@.take(i as int)),
            w <= 4 * i,
        decreases n - i,
    {
        proof {
            lemma_width_step(s@, i as int);
        }
        w = w + char_width_of(s[i]);
        i = i + 1;
    }
    w
}

/// The label with its shortcut shown (see `marked_label`), from the label,
/// its lowercase form and the key, for the labels on which marking works.
pub fn mark_shortcut(label: &str, lower: &str, key: char) -> (r: String)
    requires
        shortcut_byte(lower@, key) matches Some(pos) ==> !mark_fails(label@, pos),
    ensures
        r@ == marked_label(label@, lower@, key),
{
    let l = chars_of(label);
    let w = chars_of(lower);
    let kl = char_to_ascii_lowercase(key);
    let mut out: Vec<char> = Vec::new();
    match index_of(&w, kl) {
        Some(j) => {
            let pos = width_of_prefix(&w, j);
            let ghost gpos = pos as int;
            let c1 = chars_before(&l, pos).unwrap();
            let c2 = chars_before(&l, pos + 1).unwrap();
            let mut i: usize = 0;
            while i < c1
                invariant
                    i <= c1,
                    c1 <= l@.len(),
                    out@ == l@.take(i as int),
                decreases c1 - i,
            {
                out.push(l[i]);
                assert(l@.take(i + 1) =~= l@.take(i as int).push(l@[i as int]));
                i = i + 1;
            }
            out.push('[');
            out.push(char_to_ascii_uppercase(l[pos as usize]));
            out.push(']');
            let mut k: usize = c2;
            let ghost head = out@;
            while k < l.len()
                invariant
                    c2 <= k <= l@.len(),
                    out@ == head + l@.subrange(c2 as int, k as int),
                decreases l@.len() - k,
            {
                out.push(l[k]);
                assert(l@.subrange(c2 as int, k + 1) =~= l@.subrange(c2 as int, k as int).push(l@[k as int]));
                k = k + 1;
            }
            assert(out@ =~= marked_label(label@, lower@, key));
        },
        None => {
            out.push('[');
            out.push(char_to_ascii_uppercase(key));
            out.push(']');
            out.push(' ');
            let mut k: usize = 0;
            while k < l.len()
                invariant
                    k <= l@.len(),
                    out@ == seq!['[', ascii_upper(key), ']', ' '] + l@.take(k as int),
                decreases l@.len() - k,
            {
                out.push(l[k]);
                assert(l@.take(k + 1) =~= l@.take(k as int).push(l@[k as int]));
                k = k + 1;
            }
            assert(l@.take(k as int) =~= l@);
        },
    }
    string_from_chars(&out)
}

/// What a knob or slider label reads: the label (empty when there is none)
/// with the shortcut key marked; the label alone without a key. `None` for
/// the labels the marking cannot handle (see `mark_fails`), on which the
/// widgets' own text slicing would fail.
pub fn format_label(label: Option<&str>, key: Option<char>) -> (r: Option<String>)
    ensures
        ({
            let text = match label {
                Some(l) => l@,
                None => Seq::<char>::empty(),
            };
            match key {
                None => r matches Some(s) && s@ == text,
                Some(k) => match shortcut_byte(lowercase(text), k) {
                    Some(pos) => if mark_fails(text, pos) {
                        r is None
                    } else {
                        r matches Some(s) && s@ == marked_label(text, lowercase(text), k)
                    },
                    None => r matches Some(s) && s@ == marked_label(text, lowercase(text), k),
                },
            }
        }),
{
    let text: &str = match label {
        Some(l) => l,
        None => "",
    };
    proof {
        if label is None {
            reveal_strlit("");
            assert(text@ =~= Seq::<char>::empty());
        }
    }
    assert(text@ == match label {
        Some(l) => l@,
        None => Seq::<char>::empty(),
    });
    match key {
        None => match label {
            Some(l) => Some(l.to_owned()),
            None => Some(String::new()),
        },
        Some(k) => {
            let lower = to_lowercase(text);
            let l = chars_of(text);
            let w = chars_of(lower.as_str());
            let kl = char_to_ascii_lowercase(k);
            match index_of(&w, kl) {
                Some(j) => {
                    let pos = width_of_prefix(&w, j);
                    let ok = chars_before(&l, pos).is_some() && chars_before(&l, pos + 1).is_some()
                        && pos < l.len() as u128;
                    if ok {
                        Some(mark_shortcut(text, lower.as_str(), k))
                    } else {
                        None
                    }
                },
                None => Some(mark_shortcut(text, lower.as_str(), k)),
            }
        },
    }
}

} // verus!

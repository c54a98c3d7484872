//! Keyboard shortcut labels: a shortcut text cut into its keys.

use vstd::prelude::*;
use crate::text::{chars_of, char_is_whitespace, is_unicode_whitespace, string_from_chars};

verus! {

/// Sizes of the key caps.
#[derive(Debug, Clone, Copy, PartialEq, Eq, Structural)]
pub enum KeyboardShortcutSize {
    Sm,
    Md,
    Lg,
}

impl Default for KeyboardShortcutSize {
    /// Medium.
    fn default() -> (s: KeyboardShortcutSize)
        ensures
            s == KeyboardShortcutSize::Md,
    {
        KeyboardShortcutSize::Md
    }
}

/// `sep` occurs in `s` at position `k`.
pub open spec fn occurs_at(s: Seq<char>, sep: Seq<char>, k: int) -> bool {
    0 <= k && k + sep.len() <= s.len() && s.subrange(k, k + sep.len()) == sep
}

/// The first position at or after `from` where the non-empty `sep` occurs.
pub open spec fn first_occurrence(s: Seq<char>, sep: Seq<char>, from: int) -> Option<int>
    decreases s.len() - from,
{
    if sep.len() == 0 || from < 0 || from + sep.len() > s.len() {
        None
    } else if occurs_at(s, sep, from) {
        Some(from)
    } else {
        first_occurrence(s, sep, from + 1)
    }
}

/// The pieces `str::split` cuts `s` into at a non-empty separator, scanning
/// from position `from`: the text up to the first occurrence, then the rest
/// cut the same way; the last piece runs to the end.
pub open spec fn split_from(s: Seq<char>, sep: Seq<char>, from: int) -> Seq<Seq<char>>
    decreases s.len() - from,
{
    if sep.len() == 0 || from < 0 || from > s.len() {
        Seq::empty()
    } else {
        match first_occurrence(s, sep, from) {
            Some(k) => if from < k + sep.len() <= s.len() {
                seq![s.subrange(from, k)] + split_from(s, sep, k + sep.len())
            } else {
                Seq::empty()
            },
            None => seq![s.subrange(from, s.len() as int)],
        }
    }
}

/// The pieces `str::split` gives: with an empty separator, an empty piece,
/// then every character, then another empty piece.
pub open spec fn split_spec(s: Seq<char>, sep: Seq<char>) -> Seq<Seq<char>> {
    if sep.len() == 0 {
        seq![Seq::<char>::empty()] + s.map_values(|c: char| seq![c]) + seq![Seq::<char>::empty()]
    } else {
        split_from(s, sep, 0)
    }
}

/// `s` without leading whitespace, looking from position `i`.
pub open spec fn trim_start_from(s: Seq<char>, i: int) -> int
    decreases s.len() - i,
{
    if 0 <= i < s.len() && is_unicode_whitespace(s[i]) {
        trim_start_from(s, i + 1)
    } else {
        i
    }
}

/// The end of `s` without trailing whitespace, looking down from `j`, not below `lo`.
pub open spec fn trim_end_from(s: Seq<char>, lo: int, j: int) -> int
    decreases j - lo,
{
    if lo < j <= s.len() && is_unicode_whitespace(s[j - 1]) {
        trim_end_from(s, lo, j - 1)
    } else {
        j
    }
}

/// `str::trim`: `s` without leading and trailing whitespace.
pub open spec fn trim_spec(s: Seq<char>) -> Seq<char> {
    let a = trim_start_from(s, 0);
    s.subrange(a, trim_end_from(s, a, s.len() as int))
}

/// The characters of `t` without leading and trailing whitespace.
fn trimmed(t: &Vec<char>, from: usize, to: usize) -> (r: Vec<char>)
    requires
        from <= to <= t@.len(),
    ensures
        r@ == trim_spec(t@.subrange(from as int, to as int)),
{
    let ghost s = t@.subrange(from as int, to as int);
    let mut a = from;
    while a < to && char_is_whitespace(t[a])
        invariant
            from <= a <= to,
            to <= t@.len(),
            s == t@.subrange(from as int, to as int),
            trim_start_from(s, (a - from) as int) == trim_start_from(s, 0),
        decreases to - a,
    {
        a = a + 1;
    }
    let mut b = to;
    while b > a && char_is_whitespace(t[b - 1])
        invariant
            from <= a <= b <= to,
            to <= t@.len(),
            s == t@.subrange(from as int, to as int),
            trim_end_from(s, (a - from) as int, (b - from) as int) == trim_end_from(
                s,
                (a - from) as int,
                s.len() as int,
            ),
        decreases b - a,
    {
        b = b - 1;
    }
    let mut r: Vec<char> = Vec::new();
    let mut i = a;
    while i < b
        invariant
            a <= i <= b,
            b <= t@.len(),
            r@ == t@.subrange(a as int, i as int),
        decreases b - i,
    {
        r.push(t[i]);
        assert(t@.subrange(a as int, i + 1) =~= t@.subrange(a as int, i as int).push(t@[i as int]));
        i = i + 1;
    }
    assert(r@ =~= s.subrange((a - from) as int, (b - from) as int));
    r
}

/// Whether `sep` occurs in `t` at position `k`.
fn occurs_at_exec(t: &Vec<char>, sep: &Vec<char>, k: usize) -> (r: bool)
    requires
        k + sep.len() <= t.len(),
    ensures
        r == occurs_at(t@, sep@, k as int),
{
    let mut i: usize = 0;
    while i < sep.len()
        invariant
            i <= sep.len(),
            k + sep.len() <= t.len(),
            forall|j: int| 0 <= j < i ==> t@[k + j] == sep@[j],
        decreases sep@.len() - i,
    {
        if t[k + i] != sep[i] {
            assert(t@.subrange(k as int, k + sep@.len())[i as int] != sep@[i as int]);
            return false;
        }
        i = i + 1;
    }
    assert(t@.subrange(k as int, k + sep@.len()) =~= sep@);
    true
}

/// The keys of a shortcut text, as the label draws them.
pub struct KeyboardShortcutLabel {
    /// The shortcut text, such as `Ctrl+Shift+P`.
    pub shortcut: String,
    /// Size of the key caps.
    pub size: KeyboardShortcutSize,
    /// The text between keys.
    pub separator: String,
}

/// The pieces as specifications see them, each trimmed.
pub open spec fn key_caps_spec(shortcut: Seq<char>, sep: Seq<char>) -> Seq<Seq<char>> {
    split_spec(shortcut, sep).map_values(|p: Seq<char>| trim_spec(p))
}

impl KeyboardShortcutLabel {
    /// A label for `shortcut`, medium, with keys separated by `+`.
    pub fn new(shortcut: &str) -> (l: KeyboardShortcutLabel)
        ensures
            l.shortcut@ == shortcut@,
            l.size == KeyboardShortcutSize::Md,
            l.separator@ == "+"@,
    {
        KeyboardShortcutLabel {
            shortcut: shortcut.to_owned(),
            size: KeyboardShortcutSize::Md,
            separator: "+".to_owned(),
        }
    }

    /// Sets the size.
    pub fn size(self, size: KeyboardShortcutSize) -> (l: KeyboardShortcutLabel)
        ensures
            l == (KeyboardShortcutLabel { size, ..self }),
    {
        KeyboardShortcutLabel { size, ..self }
    }

    /// Sets the separator.
    pub fn separator(self, sep: &str) -> (l: KeyboardShortcutLabel)
        ensures
            l.separator@ == sep@,
            l.shortcut == self.shortcut,
            l.size == self.size,
    {
        KeyboardShortcutLabel { separator: sep.to_owned(), ..self }
    }

    /// The key caps: the shortcut cut at every separator, each piece trimmed.
    pub fn key_caps(&self) -> (caps: Vec<String>)
        ensures
            caps@.map_values(|c: String| c@) == key_caps_spec(self.shortcut@, self.separator@),
    {
        let t = chars_of(self.shortcut.as_str());
        let sep = chars_of(self.separator.as_str());
        let ghost ts = t@;
        let ghost ss = sep@;
        let ghost pieces = split_spec(ts, ss);
        let mut caps: Vec<String> = Vec::new();
        if sep.len() == 0 {
            caps.push(String::new());
            let mut i: usize = 0;
            while i < t.len()
                invariant
                    i <= ts.len(),
                    t@ == ts,
                    caps@.map_values(|c: String| c@) =~= seq![Seq::<char>::empty()] + ts.take(
                        i as int,
                    ).map_values(|c: char| trim_spec(seq![c])),
                decreases ts.len() - i,
            {
                let ghost before = caps@.map_values(|c: String| c@);
                let one = vec![t[i]];
                let piece = trimmed(&one, 0, 1);
                proof {
                    assert(one@.subrange(0, 1) =~= seq![ts[i as int]]);
                }
                caps.push(string_from_chars(&piece));
                proof {
                    let m = |c: char| trim_spec(seq![c]);
                    assert(caps@.map_values(|c: String| c@) =~= before.push(trim_spec(seq![ts[i as int]])));
                    assert(ts.take(i + 1).map_values(m) =~= ts.take(i as int).map_values(m).push(m(ts[i as int])));
                    assert(seq![Seq::<char>::empty()] + ts.take(i + 1).map_values(m) =~= (seq![Seq::<char>::empty()]
                        + ts.take(i as int).map_values(m)).push(m(ts[i as int])));
                }
                i = i + 1;
            }
            caps.push(String::new());
            proof {
                assert(trim_spec(Seq::<char>::empty()) =~= Seq::<char>::empty());
                assert(ts.take(ts.len() as int) =~= ts);
                assert(pieces.map_values(|p: Seq<char>| trim_spec(p)) =~= seq![Seq::<char>::empty()]
                    + ts.map_values(|c: char| trim_spec(seq![c])) + seq![Seq::<char>::empty()]);
                assert(caps@.map_values(|c: String| c@) =~= pieces.map_values(|p: Seq<char>| trim_spec(p)));
            }
            return caps;
        }
        let mut start: usize = 0;
        let mut k: usize = 0;
        while sep.len() <= t.len() && k <= t.len() - sep.len()
            invariant
                t@ == ts,
                sep@ == ss,
                ss.len() > 0,
                start <= k,
                k <= ts.len(),
                t@.len() == t.len(),
                first_occurrence(ts, ss, start as int) == first_occurrence(ts, ss, k as int),
                caps@.map_values(|c: String| c@) + split_from(ts, ss, start as int).map_values(
                    |p: Seq<char>| trim_spec(p),
                ) == pieces.map_values(|p: Seq<char>| trim_spec(p)),
                pieces == split_from(ts, ss, 0),
            decreases ts.len() - k,
        {
            if occurs_at_exec(&t, &sep, k) {
                let piece = trimmed(&t, start, k);
                let ghost before = caps@.map_values(|c: String| c@);
                caps.push(string_from_chars(&piece));
                proof {
                    assert(split_from(ts, ss, start as int) =~= seq![ts.subrange(start as int, k as int)]
                        + split_from(ts, ss, k + ss.len()));
                    assert(caps@.map_values(|c: String| c@) =~= before.push(
                        trim_spec(ts.subrange(start as int, k as int)),
                    ));
                    assert(split_from(ts, ss, start as int).map_values(|p: Seq<char>| trim_spec(p))
                        =~= seq![trim_spec(ts.subrange(start as int, k as int))] + split_from(
                        ts,
                        ss,
                        k + ss.len(),
                    ).map_values(|p: Seq<char>| trim_spec(p)));
                }
                start = k + sep.len();
                k = start;
            } else {
                k = k + 1;
            }
        }
        let piece = trimmed(&t, start, t.len());
        let ghost before = caps@.map_values(|c: String| c@);
        caps.push(string_from_chars(&piece));
        proof {
            assert(first_occurrence(ts, ss, k as int) is None);
            assert(split_from(ts, ss, start as int) =~= seq![ts.subrange(start as int, ts.len() as int)]);
            assert(caps@.map_values(|c: String| c@) =~= before.push(
                trim_spec(ts.subrange(start as int, ts.len() as int)),
            ));
        }
        caps
    }
}

} // verus!

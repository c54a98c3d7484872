//! Avatars: initials drawn from a name, a color slot picked from the name,
//! and groups that show a few avatars and count the rest.

use vstd::prelude::*;
use crate::size::ComponentSize;
use vstd::utf8::is_ascii_chars;
use crate::text::{ascii_upper, chars_of, char_is_whitespace, is_unicode_whitespace, push_char};

verus! {

/// What `str::to_uppercase` makes of a text: the Unicode uppercase mapping.
pub uninterp spec fn uppercase(s: Seq<char>) -> Seq<char>;

/// `str::to_uppercase`; its result depends on the text alone and is named by
/// `uppercase`. Of the Unicode mapping only its ASCII part is stated: an ASCII
/// text is uppercased character by character, `a`-`z` to `A`-`Z`; what it does
/// to other characters is left unsaid.
#[verifier::external_body]
fn to_uppercase(s: &str) -> (r: String)
    ensures
        r@ == uppercase(s@),
        is_ascii_chars(s@) ==> r@ == s@.map_values(|c: char| ascii_upper(c)),
{
    s.to_uppercase()
}

/// Avatar sizes, smallest first.
#[derive(Debug, Clone, Copy, PartialEq, Eq, Structural)]
pub enum AvatarSize {
    Xs,
    Sm,
    Md,
    Lg,
    Xl,
    Xxl,
}

impl Default for AvatarSize {
    /// Medium.
    fn default() -> (s: AvatarSize)
        ensures
            s == AvatarSize::Md,
    {
        AvatarSize::Md
    }
}

/// The avatar size for a standard size: the same name.
pub open spec fn avatar_size_of(size: ComponentSize) -> AvatarSize {
    match size {
        ComponentSize::Xs => AvatarSize::Xs,
        ComponentSize::Sm => AvatarSize::Sm,
        ComponentSize::Md => AvatarSize::Md,
        ComponentSize::Lg => AvatarSize::Lg,
        ComponentSize::Xl => AvatarSize::Xl,
    }
}

impl From<ComponentSize> for AvatarSize {
    fn from(size: ComponentSize) -> (s: AvatarSize) {
        match size {
            ComponentSize::Xs => AvatarSize::Xs,
            ComponentSize::Sm => AvatarSize::Sm,
            ComponentSize::Md => AvatarSize::Md,
            ComponentSize::Lg => AvatarSize::Lg,
            ComponentSize::Xl => AvatarSize::Xl,
        }
    }
}

impl vstd::std_specs::convert::FromSpecImpl<ComponentSize> for AvatarSize {
    open spec fn obeys_from_spec() -> bool {
        true
    }

    open spec fn from_spec(size: ComponentSize) -> AvatarSize {
        avatar_size_of(size)
    }
}

/// Avatar outlines.
#[derive(Debug, Clone, Copy, PartialEq, Eq, Structural)]
pub enum AvatarShape {
    Circle,
    Square,
}

impl Default for AvatarShape {
    /// A circle.
    fn default() -> (s: AvatarShape)
        ensures
            s == AvatarShape::Circle,
    {
        AvatarShape::Circle
    }
}

/// Presence shown by the small dot on an avatar.
#[derive(Debug, Clone, Copy, PartialEq, Eq, Structural)]
pub enum AvatarStatus {
    Online,
    Offline,
    Away,
    Busy,
}

/// A theme color of a presence dot.
#[derive(Debug, Clone, Copy, PartialEq, Eq, Structural)]
pub enum StatusColor {
    Success,
    TextMuted,
    Warning,
    Error,
}

impl AvatarStatus {
    /// The dot's color: success when online, muted text when offline,
    /// warning when away, error when busy.
    pub fn color(&self) -> (c: StatusColor)
        ensures
            c == match *self {
                AvatarStatus::Online => StatusColor::Success,
                AvatarStatus::Offline => StatusColor::TextMuted,
                AvatarStatus::Away => StatusColor::Warning,
                AvatarStatus::Busy => StatusColor::Error,
            },
    {
        match self {
            AvatarStatus::Online => StatusColor::Success,
            AvatarStatus::Offline => StatusColor::TextMuted,
            AvatarStatus::Away => StatusColor::Warning,
            AvatarStatus::Busy => StatusColor::Error,
        }
    }
}

impl AvatarSize {
    /// Diameter in pixels: 20, 24, 32, 40, 48 and 64 from extra small up.
    pub fn size(&self) -> (px: u32)
        ensures
            px == match *self {
                AvatarSize::Xs => 20u32,
                AvatarSize::Sm => 24,
                AvatarSize::Md => 32,
                AvatarSize::Lg => 40,
                AvatarSize::Xl => 48,
                AvatarSize::Xxl => 64,
            },
    {
        match self {
            AvatarSize::Xs => 20,
            AvatarSize::Sm => 24,
            AvatarSize::Md => 32,
            AvatarSize::Lg => 40,
            AvatarSize::Xl => 48,
            AvatarSize::Xxl => 64,
        }
    }

    /// Diameter of the presence dot in pixels: 6 for the two smallest sizes,
    /// 8 for medium and large, 10 for the two largest.
    pub fn status_dot_size(&self) -> (px: u32)
        ensures
            px == match *self {
                AvatarSize::Xs | AvatarSize::Sm => 6u32,
                AvatarSize::Md | AvatarSize::Lg => 8,
                AvatarSize::Xl | AvatarSize::Xxl => 10,
            },
    {
        match self {
            AvatarSize::Xs | AvatarSize::Sm => 6,
            AvatarSize::Md | AvatarSize::Lg => 8,
            AvatarSize::Xl | AvatarSize::Xxl => 10,
        }
    }
}

/// An avatar: a picture, or the initials of a name on a colored disc.
pub struct Avatar {
    /// The person's name.
    pub name: Option<String>,
    /// Where the picture comes from.
    pub src: Option<String>,
    /// Size.
    pub size: AvatarSize,
    /// Outline.
    pub shape: AvatarShape,
    /// Presence dot.
    pub status: Option<AvatarStatus>,
}

/// The first characters of the words of `s` from position `i` on, where
/// words are separated by whitespace; `after_space` says whether position `i`
/// starts a word when it is not whitespace.
pub open spec fn word_initials_from(s: Seq<char>, i: int, after_space: bool) -> Seq<char>
    decreases s.len() - i,
{
    if i < 0 || i >= s.len() {
        Seq::empty()
    } else if is_unicode_whitespace(s[i]) {
        word_initials_from(s, i + 1, true)
    } else if after_space {
        seq![s[i]] + word_initials_from(s, i + 1, false)
    } else {
        word_initials_from(s, i + 1, false)
    }
}

/// The initials of an ASCII text are ASCII.
proof fn lemma_initials_keep_ascii(s: Seq<char>, i: int, after_space: bool)
    requires
        is_ascii_chars(s),
        0 <= i,
    ensures
        is_ascii_chars(word_initials_from(s, i, after_space)),
    decreases s.len() - i,
{
    if i < s.len() {
        lemma_initials_keep_ascii(s, i + 1, true);
        lemma_initials_keep_ascii(s, i + 1, false);
        let w = word_initials_from(s, i, after_space);
        if !is_unicode_whitespace(s[i]) && after_space {
            let rest = word_initials_from(s, i + 1, false);
            assert forall|k: int| 0 <= k < w.len() implies '\0' <= #[trigger] w[k] <= '\u{7f}' by {
                if k > 0 {
                    assert(w[k] == rest[k - 1]);
                }
            }
        }
    }
}

/// At most the first two elements of `s`.
pub open spec fn first_two(s: Seq<char>) -> Seq<char> {
    if s.len() <= 2 {
        s
    } else {
        s.take(2)
    }
}

/// The initials an avatar shows: the first characters of the first two words
/// of the name, uppercased; `?` without a name.
pub open spec fn initials_spec(name: Option<Seq<char>>) -> Seq<char> {
    match name {
        Some(n) => uppercase(first_two(word_initials_from(n, 0, true))),
        None => "?"@,
    }
}

/// The sum of the character codes of `s`, modulo 2^32.
pub open spec fn char_code_sum(s: Seq<char>) -> int
    decreases s.len(),
{
    if s.len() == 0 {
        0
    } else {
        (char_code_sum(s.drop_last()) + (s.last() as u32)) % 0x1_0000_0000
    }
}

/// Number of colors an avatar background is picked from.
pub const AVATAR_PALETTE_LEN: usize = 8;

/// An optional string as seen by specifications.
pub open spec fn opt_seq(o: Option<String>) -> Option<Seq<char>> {
    match o {
        Some(s) => Some(s@),
        None => None,
    }
}

impl Avatar {
    /// An avatar with no name, picture or status; medium and round.
    pub fn new() -> (a: Avatar)
        ensures
            a.name is None && a.src is None && a.status is None,
            a.size == AvatarSize::Md,
            a.shape == AvatarShape::Circle,
    {
        Avatar { name: None, src: None, size: AvatarSize::Md, shape: AvatarShape::Circle, status: None }
    }

    /// Sets the name.
    pub fn name(self, name: &str) -> (a: Avatar)
        ensures
            a.name matches Some(n) && n@ == name@,
            a.src == self.src && a.size == self.size,
            a.shape == self.shape && a.status == self.status,
    {
        Avatar { name: Some(name.to_owned()), ..self }
    }

    /// Sets the picture source.
    pub fn src(self, src: &str) -> (a: Avatar)
        ensures
            a.src matches Some(s) && s@ == src@,
            a.name == self.name && a.size == self.size,
            a.shape == self.shape && a.status == self.status,
    {
        Avatar { src: Some(src.to_owned()), ..self }
    }

    /// Sets the size.
    pub fn size(self, size: AvatarSize) -> (a: Avatar)
        ensures
            a == (Avatar { size, ..self }),
    {
        Avatar { size, ..self }
    }

    /// Sets the outline.
    pub fn shape(self, shape: AvatarShape) -> (a: Avatar)
        ensures
            a == (Avatar { shape, ..self }),
    {
        Avatar { shape, ..self }
    }

    /// Sets the presence dot.
    pub fn status(self, status: AvatarStatus) -> (a: Avatar)
        ensures
            a == (Avatar { status: Some(status), ..self }),
    {
        Avatar { status: Some(status), ..self }
    }

    /// The initials shown when there is no picture; for an ASCII name they
    /// are its word initials in ASCII uppercase.
    pub fn get_initials(&self) -> (s: String)
        ensures
            s@ == initials_spec(opt_seq(self.name)),
            self.name matches Some(n) ==> (is_ascii_chars(n@) ==> s@ == first_two(
                word_initials_from(n@, 0, true),
            ).map_values(|c: char| ascii_upper(c))),
    {
        match &self.name {
            None => "?".to_owned(),
            Some(name) => {
                let chars = chars_of(name.as_str());
                let ghost cs = chars@;
                let mut picked = String::new();
                let mut count: usize = 0;
                let mut after_space = true;
                let mut i: usize = 0;
                while i < chars.len() && count < 2
                    invariant
                        i <= cs.len(),
                        chars@ == cs,
                        cs == name@,
                        count <= 2,
                        picked@.len() == count,
                        first_two(picked@ + word_initials_from(cs, i as int, after_space))
                            == first_two(word_initials_from(cs, 0, true)),
                    decreases cs.len() - i,
                {
                    let c = chars[i];
                    if char_is_whitespace(c) {
                        after_space = true;
                    } else {
                        if after_space {
                            let ghost old_picked = picked@;
                            push_char(&mut picked, c);
                            count = count + 1;
                            assert(old_picked + word_initials_from(cs, i as int, true) =~= picked@
                                + word_initials_from(cs, i + 1, false));
                        }
                        after_space = false;
                    }
                    i = i + 1;
                }
                proof {
                    let rest = word_initials_from(cs, i as int, after_space);
                    if count < 2 {
                        assert(rest =~= Seq::<char>::empty());
                        assert(picked@ + rest =~= picked@);
                    } else {
                        assert((picked@ + rest).take(2) =~= picked@);
                    }
                    assert(first_two(picked@ + rest) == picked@);
                    if is_ascii_chars(cs) {
                        lemma_initials_keep_ascii(cs, 0, true);
                        let w = word_initials_from(cs, 0, true);
                        assert(is_ascii_chars(first_two(w))) by {
                            assert forall|k: int| 0 <= k < first_two(w).len() implies '\0'
                                <= #[trigger] first_two(w)[k] <= '\u{7f}' by {
                                assert(first_two(w)[k] == w[k]);
                            }
                        }
                    }
                }
                to_uppercase(picked.as_str())
            },
        }
    }

    /// Which of the eight background colors the avatar gets: the sum of the
    /// name's character codes (wrapping at 2^32) modulo 8; none without a name.
    pub fn bg_color_index(&self) -> (i: Option<usize>)
        ensures
            match (opt_seq(self.name), i) {
                (Some(n), Some(k)) => k == char_code_sum(n) % 8,
                (None, None) => true,
                _ => false,
            },
    {
        match &self.name {
            None => None,
            Some(name) => {
                let chars = chars_of(name.as_str());
                let mut hash: u32 = 0;
                let mut i: usize = 0;
                while i < chars.len()
                    invariant
                        i <= chars@.len(),
                        chars@ == name@,
                        hash == char_code_sum(chars@.take(i as int)),
                    decreases chars@.len() - i,
                {
                    assert(chars@.take(i + 1).drop_last() =~= chars@.take(i as int));
                    hash = hash.wrapping_add(chars[i] as u32);
                    i = i + 1;
                }
                assert(chars@.take(i as int) =~= chars@);
                Some((hash as usize) % AVATAR_PALETTE_LEN)
            },
        }
    }
}

/// A row of overlapping avatars with a "+N" count for those not shown.
pub struct AvatarGroup {
    /// All avatars.
    pub avatars: Vec<Avatar>,
    /// How many avatars are drawn at most.
    pub max_display: usize,
    /// Size of every avatar in the row.
    pub size: AvatarSize,
}

impl AvatarGroup {
    /// An empty group drawing at most four medium avatars.
    pub fn new() -> (g: AvatarGroup)
        ensures
            g.avatars@.len() == 0,
            g.max_display == 4,
            g.size == AvatarSize::Md,
    {
        AvatarGroup { avatars: Vec::new(), max_display: 4, size: AvatarSize::Md }
    }

    /// Sets the avatars.
    pub fn avatars(self, avatars: Vec<Avatar>) -> (g: AvatarGroup)
        ensures
            g == (AvatarGroup { avatars, ..self }),
    {
        AvatarGroup { avatars, ..self }
    }

    /// Sets how many avatars are drawn.
    pub fn max_display(self, max: usize) -> (g: AvatarGroup)
        ensures
            g == (AvatarGroup { max_display: max, ..self }),
    {
        AvatarGroup { max_display: max, ..self }
    }

    /// Sets the size of the avatars.
    pub fn size(self, size: AvatarSize) -> (g: AvatarGroup)
        ensures
            g == (AvatarGroup { size, ..self }),
    {
        AvatarGroup { size, ..self }
    }

    /// How many avatars are drawn: all of them, up to the maximum.
    pub fn display_count(&self) -> (n: usize)
        ensures
            n == if self.avatars@.len() < self.max_display {
                self.avatars@.len() as int
            } else {
                self.max_display as int
            },
    {
        if self.avatars.len() < self.max_display {
            self.avatars.len()
        } else {
            self.max_display
        }
    }

    /// How many avatars the "+N" count stands for.
    pub fn remaining(&self) -> (n: usize)
        ensures
            n == if self.avatars@.len() > self.max_display {
                self.avatars@.len() - self.max_display
            } else {
                0
            },
    {
        self.avatars.len().saturating_sub(self.max_display)
    }
}

/// Law: the drawn avatars and the "+N" count together account for every
/// avatar of the group.
pub proof fn lemma_group_accounts_for_all(len: nat, max: nat)
    ensures
        (if len < max { len } else { max }) + (if len > max { len - max } else { 0 }) == len,
{
}

} // verus!

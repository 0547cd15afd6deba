//! The letter word: fragments of a letter-encoded word, each with the nature its letters imply.
use crate::error::MongolConvertError;
use crate::text::push_char;
use crate::unicode::mgl;
use crate::word::char_type::CharType;
use crate::word::nature::Nature;
use crate::word::shape_word::padded_key;
use vstd::prelude::*;

verus! {

/// One fragment of a letter word: its content, context and nature.
pub struct LetterWordFragment {
    head: Option<CharType>,
    tail: Option<CharType>,
    content: Vec<char>,
    nature: Nature,
}

/// The value of a [`LetterWordFragment`].
pub struct LetterFragView {
    pub head: Option<CharType>,
    pub tail: Option<CharType>,
    pub content: Seq<char>,
    pub nature: Nature,
}

impl View for LetterWordFragment {
    type V = LetterFragView;

    closed spec fn view(&self) -> LetterFragView {
        LetterFragView { head: self.head, tail: self.tail, content: self.content@, nature: self.nature }
    }
}

/// A nature latched by `n`: a neutral nature takes the first non-neutral one it is given and
/// keeps it.
pub open spec fn latched(current: Nature, n: Nature) -> Nature {
    if current == Nature::Saarmag && n != Nature::Saarmag {
        n
    } else {
        current
    }
}

/// A fresh letter fragment: no content, no context, neutral.
pub open spec fn empty_letter_frag() -> LetterFragView {
    LetterFragView { head: None, tail: None, content: Seq::empty(), nature: Nature::Saarmag }
}

impl LetterWordFragment {
    /// An empty, neutral fragment with no context.
    pub fn new() -> (r: Self)
        ensures
            r@ == empty_letter_frag(),
    {
        LetterWordFragment { head: None, tail: None, content: Vec::new(), nature: Nature::Saarmag }
    }

    /// The content padded with a U+0020 on each side whose neighbour is not Mongolian: the
    /// locate key of the from-letter rules.
    pub fn get_key(&self) -> (r: String)
        ensures
            r@ == padded_key(self@.head, self@.tail, self@.content),
    {
        if self.content.len() == 0 {
            return String::new();
        }
        let mut s = String::new();
        if self.head != Some(CharType::Mongolian) {
            push_char(&mut s, ' ');
        }
        let ghost start = s@;
        for i in 0..self.content.len()
            invariant
                s@ == start + self.content@.take(i as int),
        {
            push_char(&mut s, self.content[i]);
            assert(self.content@.take(i + 1) == self.content@.take(i as int).push(self.content@[i as int]));
        }
        assert(self.content@.take(self.content.len() as int) == self.content@);
        if self.tail != Some(CharType::Mongolian) {
            push_char(&mut s, ' ');
        }
        assert(s@ =~= padded_key(self@.head, self@.tail, self@.content));
        s
    }

    /// Latches the nature: neutral becomes the first non-neutral nature given, then stays.
    pub fn set_nature(&mut self, nature: Nature)
        ensures
            final(self)@ == (LetterFragView { nature: latched(old(self)@.nature, nature), ..old(self)@ }),
    {
        if self.nature == Nature::Saarmag && nature != Nature::Saarmag {
            self.nature = nature;
        }
    }

    /// The fragment's nature.
    pub fn nature(&self) -> (r: Nature)
        ensures
            r == self@.nature,
    {
        self.nature
    }

    /// Appends a code point.
    pub fn push(&mut self, c: char)
        ensures
            final(self)@ == (LetterFragView { content: old(self)@.content.push(c), ..old(self)@ }),
    {
        self.content.push(c);
    }

    /// Removes the last code point; an error when there is none.
    pub fn pop(&mut self) -> (r: Result<(), MongolConvertError>)
        ensures
            old(self)@.content.len() == 0 ==> (r matches Err(e) && e@ == crate::error::ErrorView::NothingToPop
                && final(self)@ == old(self)@),
            old(self)@.content.len() > 0 ==> (r is Ok && final(self)@ == (LetterFragView {
                content: old(self)@.content.drop_last(),
                ..old(self)@
            })),
    {
        if self.content.len() == 0 {
            return Err(MongolConvertError::NothingToPop);
        }
        self.content.pop();
        Ok(())
    }

    /// No content.
    pub fn is_blank(&self) -> (r: bool)
        ensures
            r == (self@.content.len() == 0),
    {
        self.content.len() == 0
    }

    /// Some content.
    pub fn is_not_blank(&self) -> (r: bool)
        ensures
            r == (self@.content.len() > 0),
    {
        !self.is_blank()
    }

    /// The number of code points.
    pub fn size(&self) -> (r: usize)
        ensures
            r == self@.content.len(),
    {
        self.content.len()
    }

    /// The fragment's code points.
    pub fn content(&self) -> (r: &[char])
        ensures
            r@ == self@.content,
    {
        self.content.as_slice()
    }

    /// The last code point, if any.
    pub fn get_last_character(&self) -> (r: Option<char>)
        ensures
            r == (if self@.content.len() == 0 {
                None
            } else {
                Some(self@.content.last())
            }),
    {
        if self.content.len() == 0 {
            None
        } else {
            Some(self.content[self.content.len() - 1])
        }
    }

    /// Sets what precedes the fragment.
    pub fn set_head(&mut self, h: Option<CharType>)
        ensures
            final(self)@ == (LetterFragView { head: h, ..old(self)@ }),
    {
        self.head = h;
    }

    /// Sets what follows the fragment.
    pub fn set_tail(&mut self, t: Option<CharType>)
        ensures
            final(self)@ == (LetterFragView { tail: t, ..old(self)@ }),
    {
        self.tail = t;
    }
}

/// A word of letter fragments; its nature is the first non-neutral nature among them.
pub struct LetterWord {
    pub nature: Nature,
    pub fragments: Vec<LetterWordFragment>,
}

/// The views of a fragment vector.
pub open spec fn letter_frag_views(v: Seq<LetterWordFragment>) -> Seq<LetterFragView> {
    v.map_values(|f: LetterWordFragment| f@)
}

/// The last code point of a fragment view, if any.
pub open spec fn last_char(f: LetterFragView) -> Option<char> {
    if f.content.len() == 0 {
        None
    } else {
        Some(f.content.last())
    }
}

/// The fragments left once single-character vowel separators and variation selectors at the end
/// of the word that repeat the preceding fragment's last character are dropped, looking backwards
/// from index `i`. Each dropped selector marks the fragment before it as followed by a
/// non-letter.
pub open spec fn trimmed_from(f: Seq<LetterFragView>, i: int) -> Seq<LetterFragView>
    decreases i,
{
    if i <= 0 || i >= f.len() {
        f
    } else if f[i].content.len() != 1 {
        f
    } else if !(f[i].content[0] == mgl::VOWEL_SEPARATOR || mgl::free_variation_selector(f[i].content[0])) {
        f
    } else if last_char(f[i - 1]) == Some(f[i].content[0]) {
        trimmed_from(
            f.remove(i).update(i - 1, LetterFragView { tail: Some(CharType::Other), ..f[i - 1] }),
            i - 1,
        )
    } else {
        trimmed_from(f, i - 1)
    }
}

/// The word's fragments after [`LetterWord::remove_invalid_code_point_from_end`].
pub open spec fn trimmed(f: Seq<LetterFragView>) -> Seq<LetterFragView> {
    if f.len() == 0 {
        f
    } else {
        trimmed_from(f, f.len() - 1)
    }
}

impl LetterWord {
    /// An empty, neutral word.
    pub fn new() -> (r: Self)
        ensures
            r.nature == Nature::Saarmag,
            r.fragments@.len() == 0,
    {
        LetterWord { nature: Nature::Saarmag, fragments: Vec::new() }
    }

    /// Appends a fragment, latching the word's nature from it.
    pub fn add(&mut self, fragment: LetterWordFragment)
        ensures
            final(self).nature == latched(old(self).nature, fragment@.nature),
            final(self).fragments@ == old(self).fragments@.push(fragment),
    {
        if self.nature == Nature::Saarmag && fragment.nature != Nature::Saarmag {
            self.nature = fragment.nature;
        }
        self.fragments.push(fragment);
    }

    /// No fragments.
    pub fn is_blank(&self) -> (r: bool)
        ensures
            r == (self.fragments@.len() == 0),
    {
        self.fragments.len() == 0
    }

    /// Some fragments.
    pub fn is_not_blank(&self) -> (r: bool)
        ensures
            r == (self.fragments@.len() > 0),
    {
        !self.is_blank()
    }

    /// Drops the single-character vowel separators and variation selectors at the end of the word
    /// that repeat the last character of the fragment before them, marking that fragment as
    /// followed by a non-letter.
    pub fn remove_invalid_code_point_from_end(&mut self)
        ensures
            final(self).nature == old(self).nature,
            letter_frag_views(final(self).fragments@) == trimmed(letter_frag_views(old(self).fragments@)),
    {
        if self.fragments.len() == 0 {
            return;
        }
        let ghost whole = letter_frag_views(self.fragments@);
        let mut i = self.fragments.len() - 1;
        loop
            invariant
                0 <= i < self.fragments@.len(),
                self.nature == old(self).nature,
                whole == letter_frag_views(old(self).fragments@),
                trimmed(whole) == trimmed_from(letter_frag_views(self.fragments@), i as int),
            decreases i,
        {
            let ghost cur = letter_frag_views(self.fragments@);
            if i == 0 {
                return;
            }
            assert(cur[i as int] == self.fragments@[i as int]@);
            assert(cur[i - 1] == self.fragments@[i - 1]@);
            if self.fragments[i].size() != 1 {
                return;
            }
            let ch = self.fragments[i].content()[0];
            if !mgl::is_vowel_separator(ch) && !mgl::is_free_variation_selector(ch) {
                return;
            }
            let pre_last = self.fragments[i - 1].get_last_character();
            if pre_last == Some(ch) {
                self.fragments.remove(i);
                let mut prev = self.fragments.remove(i - 1);
                prev.set_tail(Some(CharType::Other));
                self.fragments.insert(i - 1, prev);
                assert(letter_frag_views(self.fragments@) =~= cur.remove(i as int).update(
                    i - 1,
                    LetterFragView { tail: Some(CharType::Other), ..cur[i - 1] },
                ));
            }
            i -= 1;
        }
    }
}

} // verus!

//! The shape word: fragments keyed by their raw content (to-shape rules) or by the content padded
//! with its context (from-shape rules).
use crate::error::MongolConvertError;
use crate::text::{push_char, str_eq, string_of};
use crate::word::char_type::CharType;
use crate::word::nature::Nature;
use vstd::prelude::*;

verus! {

broadcast use vstd::string::group_string_axioms;

/// One fragment of a shape word: its content and whether its neighbours belong to the word.
pub struct ShapeWordFragment {
    head: Option<CharType>,
    tail: Option<CharType>,
    content: Vec<char>,
}

/// The value of a [`ShapeWordFragment`].
pub struct ShapeFragView {
    pub head: Option<CharType>,
    pub tail: Option<CharType>,
    pub content: Seq<char>,
}

impl View for ShapeWordFragment {
    type V = ShapeFragView;

    closed spec fn view(&self) -> ShapeFragView {
        ShapeFragView { head: self.head, tail: self.tail, content: self.content@ }
    }
}

/// `content` with a U+0020 before it when `head` is not Mongolian and after it when `tail` is
/// not; empty content stays empty.
pub open spec fn padded_key(head: Option<CharType>, tail: Option<CharType>, content: Seq<char>) -> Seq<char> {
    if content.len() == 0 {
        Seq::empty()
    } else {
        (if head != Some(CharType::Mongolian) { seq![' '] } else { Seq::empty() }) + content + (
        if tail != Some(CharType::Mongolian) {
            seq![' ']
        } else {
            Seq::empty()
        })
    }
}

/// A fragment with no content and no context.
pub open spec fn empty_shape_frag() -> ShapeFragView {
    ShapeFragView { head: None, tail: None, content: Seq::empty() }
}

impl ShapeWordFragment {
    /// An empty fragment with no context.
    pub fn new() -> (r: Self)
        ensures
            r@ == empty_shape_frag(),
    {
        ShapeWordFragment { head: None, tail: None, content: Vec::new() }
    }

    /// Appends a code point.
    pub fn push(&mut self, c: char)
        ensures
            final(self)@ == (ShapeFragView { content: old(self)@.content.push(c), ..old(self)@ }),
    {
        self.content.push(c);
    }

    /// Removes the last code point; an error when there is none.
    pub fn pop(&mut self) -> (r: Result<(), MongolConvertError>)
        ensures
            old(self)@.content.len() == 0 ==> (r matches Err(e) && e@ == crate::error::ErrorView::NothingToPop
                && final(self)@ == old(self)@),
            old(self)@.content.len() > 0 ==> (r is Ok && final(self)@ == (ShapeFragView {
                content: old(self)@.content.drop_last(),
                ..old(self)@
            })),
    {
        if self.content.len() == 0 {
            return Err(MongolConvertError::NothingToPop);
        }
        self.content.pop();
        Ok(())
    }

    /// No content.
    pub fn is_blank(&self) -> (r: bool)
        ensures
            r == (self@.content.len() == 0),
    {
        self.content.len() == 0
    }

    /// Some content.
    pub fn is_not_blank(&self) -> (r: bool)
        ensures
            r == (self@.content.len() > 0),
    {
        !self.is_blank()
    }

    /// Sets what precedes the fragment.
    pub fn set_head(&mut self, h: Option<CharType>)
        ensures
            final(self)@ == (ShapeFragView { head: h, ..old(self)@ }),
    {
        self.head = h;
    }

    /// Sets what follows the fragment.
    pub fn set_tail(&mut self, t: Option<CharType>)
        ensures
            final(self)@ == (ShapeFragView { tail: t, ..old(self)@ }),
    {
        self.tail = t;
    }

    /// The fragment's code points.
    pub fn content(&self) -> (r: &[char])
        ensures
            r@ == self@.content,
    {
        self.content.as_slice()
    }

    /// The raw content, unpadded: the key of the to-shape rules.
    pub fn get_key(&self) -> (r: String)
        ensures
            r@ == self@.content,
    {
        string_of(&self.content)
    }

    /// The content padded with a U+0020 on each side whose neighbour is not Mongolian: the key of
    /// the from-shape rules.
    pub fn get_locate_key(&self) -> (r: String)
        ensures
            r@ == padded_key(self@.head, self@.tail, self@.content),
    {
        if self.content.len() == 0 {
            return String::new();
        }
        let mut s = String::new();
        if self.head != Some(CharType::Mongolian) {
            push_char(&mut s, ' ');
        }
        let ghost start = s@;
        for i in 0..self.content.len()
            invariant
                s@ == start + self.content@.take(i as int),
        {
            push_char(&mut s, self.content[i]);
            assert(self.content@.take(i + 1) == self.content@.take(i as int).push(self.content@[i as int]));
        }
        assert(self.content@.take(self.content.len() as int) == self.content@);
        if self.tail != Some(CharType::Mongolian) {
            push_char(&mut s, ' ');
        }
        assert(s@ =~= padded_key(self@.head, self@.tail, self@.content));
        s
    }
}

/// The three fragment keys that make a shape word feminine.
pub open spec fn is_hundii_marker(key: Seq<char>) -> bool {
    key == "\u{e006}\u{e00d}"@ || key == "\u{e031}"@ || key == "\u{e006}\u{e006}\u{e00d}"@
}

/// A word of shape fragments, with the nature its fragments imply.
pub struct ShapeWord {
    pub nature: Nature,
    pub fragments: Vec<ShapeWordFragment>,
}

/// The views of a fragment vector.
pub open spec fn shape_frag_views(v: Seq<ShapeWordFragment>) -> Seq<ShapeFragView> {
    v.map_values(|f: ShapeWordFragment| f@)
}

impl ShapeWord {
    /// An empty word; a shape word starts masculine.
    pub fn new() -> (r: Self)
        ensures
            r.nature == Nature::Chagh,
            r.fragments@.len() == 0,
    {
        ShapeWord { nature: Nature::Chagh, fragments: Vec::new() }
    }

    /// Appends a fragment; three marker keys make the word feminine.
    pub fn add(&mut self, fragment: ShapeWordFragment)
        ensures
            final(self).nature == (if is_hundii_marker(fragment@.content) {
                Nature::Hundii
            } else {
                old(self).nature
            }),
            final(self).fragments@ == old(self).fragments@.push(fragment),
    {
        let k = fragment.get_key();
        let ks = k.as_str();
        if str_eq(ks, "\u{e006}\u{e00d}") || str_eq(ks, "\u{e031}") || str_eq(
            ks,
            "\u{e006}\u{e006}\u{e00d}",
        ) {
            self.nature = Nature::Hundii;
        }
        self.fragments.push(fragment);
    }

    /// No fragments.
    pub fn is_blank(&self) -> (r: bool)
        ensures
            r == (self.fragments@.len() == 0),
    {
        self.fragments.len() == 0
    }

    /// Some fragments.
    pub fn is_not_blank(&self) -> (r: bool)
        ensures
            r == (self.fragments@.len() > 0),
    {
        !self.is_blank()
    }
}

} // verus!

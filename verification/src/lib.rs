//! Generates PGFPlots code to `\input` into LaTeX documents.
//!
//! A [`Picture`] holds options and axes, an [`Axis`](axis::Axis) holds
//! options, and `render` writes either of them out as text. What the text is
//! for given options and axes is said by `markup`, a function on the views of
//! the two types, and every `render` is proved to return exactly that text.

use crate::axis::{Axis, AxisView};
use crate::markup::{
    block_lines, lemma_block_lines_push, lemma_option_lines_concat, lemma_option_lines_push,
    option_block, option_lines, push_option_line,
};
use vstd::prelude::*;
use vstd::string::*;

/// Axis environment inside a [`Picture`].
pub mod axis;
/// Text that the environments share: the bracketed list of options and the
/// blocks of a body.
pub mod markup;

verus! {

/// Ti*k*Z options passed to the [`Picture`] environment.
///
/// An option goes into [`PictureKey::Custom`] as text, and is written among
/// the options of the [`Picture`] as it is.
#[derive(Debug)]
#[non_exhaustive]
pub enum PictureKey {
    /// An option given as text. It is written verbatim: nothing in it is
    /// escaped, and nothing is rejected.
    Custom(String),
}

/// What a [`PictureKey`] stands for: the same variants, with the custom text
/// as a sequence of characters.
pub enum PictureKeyView {
    Custom(Seq<char>),
}

impl View for PictureKey {
    type V = PictureKeyView;

    open spec fn view(&self) -> PictureKeyView {
        match self {
            PictureKey::Custom(key) => PictureKeyView::Custom(key@),
        }
    }
}

impl Clone for PictureKey {
    /// The copy stands for the same key.
    fn clone(&self) -> (copy: PictureKey)
        ensures
            copy@ == self@,
    {
        match self {
            PictureKey::Custom(key) => PictureKey::Custom(key.clone()),
        }
    }
}

impl PictureKeyView {
    /// The option as it stands in the list: custom text unchanged.
    pub open spec fn text(self) -> Seq<char> {
        match self {
            PictureKeyView::Custom(key) => key,
        }
    }
}

impl PictureKey {
    /// Writes the option out, without the tab and the comma of its line.
    pub fn render(&self) -> (out: String)
        ensures
            out@ == self@.text(),
    {
        match self {
            PictureKey::Custom(key) => key.clone(),
        }
    }
}

/// Picture environment.
///
/// Creating a [`Picture`] is equivalent to the Ti*k*Z graphics environment:
///
/// ```text
/// \begin{tikzpicture}[PictureKeys]
///     % contents
/// \end{tikzpicture}
/// ```
#[derive(Debug)]
pub struct Picture {
    keys: Vec<PictureKey>,
    /// The axes of the picture, in the order in which they are written.
    pub axes: Vec<Axis>,
}

/// What a [`Picture`] stands for: its options and its axes, each in the
/// order in which they were added.
#[verifier::ext_equal]
pub struct PictureView {
    pub keys: Seq<PictureKeyView>,
    pub axes: Seq<AxisView>,
}

impl View for Picture {
    type V = PictureView;

    open(crate) spec fn view(&self) -> PictureView {
        PictureView {
            keys: self.keys@.map_values(|key: PictureKey| key@),
            axes: self.axes@.map_values(|axis: Axis| axis@),
        }
    }
}

impl Clone for Picture {
    /// The copy has the same keys and the same axes, each in the same order.
    fn clone(&self) -> (copy: Picture)
        ensures
            copy@ == self@,
    {
        let keys = self.keys.clone();
        let axes = self.axes.clone();
        assert(keys@.map_values(|key: PictureKey| key@) == self.keys@.map_values(
            |key: PictureKey| key@,
        ));
        assert(axes@.map_values(|axis: Axis| axis@) == self.axes@.map_values(|axis: Axis| axis@));
        Picture { keys, axes }
    }
}

/// The texts of `keys`, in order.
pub open spec fn key_texts(keys: Seq<PictureKeyView>) -> Seq<Seq<char>> {
    keys.map_values(|key: PictureKeyView| key.text())
}

/// The texts of `axes`, in order.
pub open spec fn axis_texts(axes: Seq<AxisView>) -> Seq<Seq<char>> {
    axes.map_values(|axis: AxisView| axis.markup())
}

impl PictureView {
    /// The picture without options and without axes.
    pub open spec fn empty() -> PictureView {
        PictureView { keys: Seq::empty(), axes: Seq::empty() }
    }

    /// The picture with one more key, behind those that are there.
    pub open spec fn add_key(self, key: PictureKeyView) -> PictureView {
        PictureView { keys: self.keys.push(key), axes: self.axes }
    }

    /// The picture after `keys` were added one by one, the first of them
    /// first.
    pub open spec fn add_keys(self, keys: Seq<PictureKeyView>) -> PictureView
        decreases keys.len(),
    {
        if keys.len() == 0 {
            self
        } else {
            self.add_keys(keys.drop_last()).add_key(keys.last())
        }
    }

    /// The whole environment: the opening tag with the option list, a line
    /// break, every axis with a line break behind it, and the closing tag.
    pub open spec fn markup(self) -> Seq<char> {
        "\\begin{tikzpicture}"@ + option_block(key_texts(self.keys)) + "\n"@ + block_lines(
            axis_texts(self.axes),
        ) + "\\end{tikzpicture}"@
    }
}

impl Default for Picture {
    /// The picture without options and without axes.
    fn default() -> (picture: Picture)
        ensures
            picture@ == PictureView::empty(),
    {
        Picture { keys: Vec::new(), axes: Vec::new() }
    }
}

impl Picture {
    /// Create a new, empty picture environment.
    pub fn new() -> (picture: Picture)
        ensures
            picture@ == PictureView::empty(),
    {
        Picture::default()
    }

    /// Add a key to control the appearance of the picture. The key goes
    /// behind those that are there; none of them is taken out or moved, and
    /// the axes stay as they are.
    pub fn add_key(&mut self, key: PictureKey)
        ensures
            final(self)@ == old(self)@.add_key(key@),
    {
        self.keys.push(key);
    }

    /// Writes the environment out, with all its axes.
    pub fn render(&self) -> (out: String)
        ensures
            out@ == self@.markup(),
    {
        let mut out = String::from_str("\\begin{tikzpicture}");
        if self.keys.len() > 0 {
            out.append("[\n");
            let mut i: usize = 0;
            while i < self.keys.len()
                invariant
                    i <= self.keys.len(),
                    out@ == "\\begin{tikzpicture}"@ + "[\n"@ + option_lines(
                        key_texts(self@.keys).take(i as int),
                    ),
                decreases self.keys.len() - i,
            {
                let text = self.keys[i].render();
                push_option_line(&mut out, text.as_str());
                proof {
                    let texts = key_texts(self@.keys);
                    assert(texts.take(i + 1) == texts.take(i as int).push(text@));
                    lemma_option_lines_push(texts.take(i as int), text@);
                }
                i += 1;
            }
            proof {
                let texts = key_texts(self@.keys);
                assert(texts.take(i as int) == texts);
            }
            out.append("]");
        }
        out.append("\n");
        let ghost head = out@;
        let mut j: usize = 0;
        while j < self.axes.len()
            invariant
                j <= self.axes.len(),
                out@ == head + block_lines(axis_texts(self@.axes).take(j as int)),
            decreases self.axes.len() - j,
        {
            let block = self.axes[j].render();
            out.append(block.as_str());
            out.append("\n");
            proof {
                let blocks = axis_texts(self@.axes);
                assert(blocks.take(j + 1) == blocks.take(j as int).push(block@));
                lemma_block_lines_push(blocks.take(j as int), block@);
            }
            j += 1;
        }
        proof {
            let blocks = axis_texts(self@.axes);
            assert(blocks.take(j as int) == blocks);
        }
        out.append("\\end{tikzpicture}");
        out
    }
}

/// A picture without options and without axes is written as the opening
/// tag, a line break and the closing tag.
pub proof fn lemma_empty_picture(picture: PictureView)
    requires
        picture.keys.len() == 0,
        picture.axes.len() == 0,
    ensures
        picture.markup() == "\\begin{tikzpicture}\n\\end{tikzpicture}"@,
{
    reveal_strlit("\\begin{tikzpicture}");
    reveal_strlit("\n");
    reveal_strlit("\\end{tikzpicture}");
    reveal_strlit("\\begin{tikzpicture}\n\\end{tikzpicture}");
    assert(axis_texts(picture.axes) =~= Seq::empty());
    assert(picture.markup() =~= "\\begin{tikzpicture}\n\\end{tikzpicture}"@);
}

/// A picture with two options and without axes lists the first option, then
/// the second, each on a line of its own that begins with a tab and ends in
/// a comma, between brackets that follow the opening tag.
pub proof fn lemma_picture_with_two_options(
    picture: PictureView,
    first: PictureKeyView,
    second: PictureKeyView,
)
    requires
        picture.keys == seq![first, second],
        picture.axes.len() == 0,
    ensures
        picture.markup() == "\\begin{tikzpicture}[\n\t"@ + first.text() + ",\n\t"@ + second.text()
            + ",\n]\n\\end{tikzpicture}"@,
{
    reveal_strlit("\\begin{tikzpicture}");
    reveal_strlit("[\n");
    reveal_strlit("\t");
    reveal_strlit(",\n");
    reveal_strlit("]");
    reveal_strlit("\n");
    reveal_strlit("\\end{tikzpicture}");
    reveal_strlit("\\begin{tikzpicture}[\n\t");
    reveal_strlit(",\n\t");
    reveal_strlit(",\n]\n\\end{tikzpicture}");
    let texts = key_texts(picture.keys);
    assert(texts =~= Seq::empty().push(first.text()).push(second.text()));
    lemma_option_lines_push(Seq::empty().push(first.text()), second.text());
    lemma_option_lines_push(Seq::empty(), first.text());
    assert(option_lines(Seq::empty()) =~= Seq::empty());
    assert(axis_texts(picture.axes) =~= Seq::empty());
    assert(picture.markup() =~= "\\begin{tikzpicture}[\n\t"@ + first.text() + ",\n\t"@
        + second.text() + ",\n]\n\\end{tikzpicture}"@);
}

/// A picture with two axes holds the whole text of the first axis, a line
/// break, the whole text of the second axis and a line break, between the
/// line of the opening tag and the closing tag.
pub proof fn lemma_picture_with_two_axes(picture: PictureView, first: AxisView, second: AxisView)
    requires
        picture.axes == seq![first, second],
    ensures
        picture.markup() == "\\begin{tikzpicture}"@ + option_block(key_texts(picture.keys)) + "\n"@
            + first.markup() + "\n"@ + second.markup() + "\n"@ + "\\end{tikzpicture}"@,
{
    let blocks = axis_texts(picture.axes);
    assert(blocks =~= Seq::empty().push(first.markup()).push(second.markup()));
    lemma_block_lines_push(Seq::empty().push(first.markup()), second.markup());
    lemma_block_lines_push(Seq::empty(), first.markup());
    assert(block_lines(Seq::empty()) =~= Seq::empty());
    assert(block_lines(blocks) =~= first.markup() + "\n"@ + second.markup() + "\n"@);
}

/// Keys that are added one by one stand in the picture in the order in which
/// they were added, behind the keys that were there. None is moved and none
/// is dropped, also where the same key is added twice, and the axes stay as
/// they are. The lines of the keys are written in that order, behind the
/// lines that were there.
pub proof fn lemma_picture_keys_keep_order(picture: PictureView, keys: Seq<PictureKeyView>)
    ensures
        picture.add_keys(keys).keys == picture.keys + keys,
        picture.add_keys(keys).axes == picture.axes,
        option_lines(key_texts(picture.add_keys(keys).keys)) == option_lines(
            key_texts(picture.keys),
        ) + option_lines(key_texts(keys)),
    decreases keys.len(),
{
    if keys.len() > 0 {
        lemma_picture_keys_keep_order(picture, keys.drop_last());
        assert(keys == keys.drop_last().push(keys.last()));
    }
    assert(picture.add_keys(keys).keys == picture.keys + keys);
    assert(key_texts(picture.keys + keys) == key_texts(picture.keys) + key_texts(keys));
    lemma_option_lines_concat(key_texts(picture.keys), key_texts(keys));
}

/// Rendering reads nothing but the options and the axes: two texts that
/// `render` gives for one picture, with no change to it in between, are the
/// same text.
pub proof fn lemma_render_repeats(picture: Picture, first: String, second: String)
    requires
        first@ == picture@.markup(),
        second@ == picture@.markup(),
    ensures
        first@ == second@,
{
}

} // verus!

use crate::markup::{
    lemma_option_lines_concat, lemma_option_lines_push, option_block, option_lines,
    push_option_line,
};
use vstd::prelude::*;
use vstd::string::*;

verus! {

/// Control the scaling of the *x* axis.
#[derive(Clone, Copy, Debug)]
pub enum XMode {
    /// Logarithmic scaling i.e. apply the natural logarithm to each *x*
    /// coordinate.
    Log,
    /// Linear scaling of the *x* coordinates.
    Normal,
}

impl XMode {
    /// The value as it stands behind `xmode=`.
    pub open spec fn text(self) -> Seq<char> {
        match self {
            XMode::Log => "log"@,
            XMode::Normal => "normal"@,
        }
    }

    /// Writes the value out.
    pub fn render(&self) -> (out: String)
        ensures
            out@ == self.text(),
    {
        match self {
            XMode::Log => String::from_str("log"),
            XMode::Normal => String::from_str("normal"),
        }
    }
}

/// Control the scaling of the *y* axis.
#[derive(Clone, Copy, Debug)]
pub enum YMode {
    /// Logarithmic scaling i.e. apply the natural logarithm to each *y*
    /// coordinate.
    Log,
    /// Linear scaling of the *y* coordinates.
    Normal,
}

impl YMode {
    /// The value as it stands behind `ymode=`.
    pub open spec fn text(self) -> Seq<char> {
        match self {
            YMode::Log => "log"@,
            YMode::Normal => "normal"@,
        }
    }

    /// Writes the value out.
    pub fn render(&self) -> (out: String)
        ensures
            out@ == self.text(),
    {
        match self {
            YMode::Log => String::from_str("log"),
            YMode::Normal => String::from_str("normal"),
        }
    }
}

/// PGFPlots options passed to the [`Axis`] environment.
///
/// The options in common use have a variant of their own. Any other option
/// goes into [`AxisKey::Custom`] as text, and is written among the options of
/// the [`Axis`] as it is.
#[derive(Debug)]
pub enum AxisKey {
    /// An option given as text. It is written verbatim: nothing in it is
    /// escaped, and nothing is rejected.
    Custom(String),
    /// Control the scaling of the *x* axis.
    XMode(XMode),
    /// Control the scaling of the *y* axis.
    YMode(YMode),
}

/// What an [`AxisKey`] stands for: the same variants, with the custom text as
/// a sequence of characters.
pub enum AxisKeyView {
    Custom(Seq<char>),
    XMode(XMode),
    YMode(YMode),
}

impl View for AxisKey {
    type V = AxisKeyView;

    open spec fn view(&self) -> AxisKeyView {
        match self {
            AxisKey::Custom(key) => AxisKeyView::Custom(key@),
            AxisKey::XMode(value) => AxisKeyView::XMode(*value),
            AxisKey::YMode(value) => AxisKeyView::YMode(*value),
        }
    }
}

impl Clone for AxisKey {
    /// The copy stands for the same key.
    fn clone(&self) -> (copy: AxisKey)
        ensures
            copy@ == self@,
    {
        match self {
            AxisKey::Custom(key) => AxisKey::Custom(key.clone()),
            AxisKey::XMode(value) => AxisKey::XMode(*value),
            AxisKey::YMode(value) => AxisKey::YMode(*value),
        }
    }
}

impl AxisKeyView {
    /// The option as it stands in the list: custom text unchanged, anything
    /// else as `name=value`.
    pub open spec fn text(self) -> Seq<char> {
        match self {
            AxisKeyView::Custom(key) => key,
            AxisKeyView::XMode(value) => "xmode="@ + value.text(),
            AxisKeyView::YMode(value) => "ymode="@ + value.text(),
        }
    }
}

impl AxisKey {
    /// Writes the option out, without the tab and the comma of its line.
    pub fn render(&self) -> (out: String)
        ensures
            out@ == self@.text(),
    {
        match self {
            AxisKey::Custom(key) => key.clone(),
            AxisKey::XMode(value) => {
                let mut out = String::from_str("xmode=");
                out.append(value.render().as_str());
                out
            },
            AxisKey::YMode(value) => {
                let mut out = String::from_str("ymode=");
                out.append(value.render().as_str());
                out
            },
        }
    }
}

/// Axis environment inside a [`Picture`](crate::Picture).
///
/// Adding an [`Axis`] to a picture is equivalent to the PGFPlots axis
/// environment:
///
/// ```text
/// \begin{axis}[AxisKeys]
///     % contents
/// \end{axis}
/// ```
#[derive(Debug)]
pub struct Axis {
    keys: Vec<AxisKey>,
}

/// What an [`Axis`] stands for: its options, in the order in which they were
/// added.
#[verifier::ext_equal]
pub struct AxisView {
    pub keys: Seq<AxisKeyView>,
}

impl View for Axis {
    type V = AxisView;

    closed spec fn view(&self) -> AxisView {
        AxisView { keys: self.keys@.map_values(|key: AxisKey| key@) }
    }
}

impl Clone for Axis {
    /// The copy has the same keys in the same order.
    fn clone(&self) -> (copy: Axis)
        ensures
            copy@ == self@,
    {
        let keys = self.keys.clone();
        assert(keys@.map_values(|key: AxisKey| key@) == self.keys@.map_values(
            |key: AxisKey| key@,
        ));
        Axis { keys }
    }
}

/// The texts of `keys`, in order.
pub open spec fn key_texts(keys: Seq<AxisKeyView>) -> Seq<Seq<char>> {
    keys.map_values(|key: AxisKeyView| key.text())
}

impl AxisView {
    /// The axis without options.
    pub open spec fn empty() -> AxisView {
        AxisView { keys: Seq::empty() }
    }

    /// The axis with one more key, behind those that are there.
    pub open spec fn add_key(self, key: AxisKeyView) -> AxisView {
        AxisView { keys: self.keys.push(key) }
    }

    /// The axis after `keys` were added one by one, the first of them first.
    pub open spec fn add_keys(self, keys: Seq<AxisKeyView>) -> AxisView
        decreases keys.len(),
    {
        if keys.len() == 0 {
            self
        } else {
            self.add_keys(keys.drop_last()).add_key(keys.last())
        }
    }

    /// The whole environment: the opening tag with the option list, a line
    /// break, and the closing tag.
    pub open spec fn markup(self) -> Seq<char> {
        "\\begin{axis}"@ + option_block(key_texts(self.keys)) + "\n"@ + "\\end{axis}"@
    }
}

impl Axis {
    /// Create a new, empty axis environment.
    pub fn new() -> (axis: Axis)
        ensures
            axis@ == AxisView::empty(),
    {
        Axis { keys: Vec::new() }
    }

    /// Add a key to control the appearance of the axis. The key goes behind
    /// those that are there; none of them is taken out or moved.
    pub fn add_key(&mut self, key: AxisKey)
        ensures
            final(self)@ == old(self)@.add_key(key@),
    {
        self.keys.push(key);
    }

    /// Writes the environment out.
    pub fn render(&self) -> (out: String)
        ensures
            out@ == self@.markup(),
    {
        let mut out = String::from_str("\\begin{axis}");
        if self.keys.len() > 0 {
            out.append("[\n");
            let mut i: usize = 0;
            while i < self.keys.len()
                invariant
                    i <= self.keys.len(),
                    out@ == "\\begin{axis}"@ + "[\n"@ + option_lines(
                        key_texts(self@.keys).take(i as int),
                    ),
                decreases self.keys.len() - i,
            {
                let text = self.keys[i].render();
                push_option_line(&mut out, text.as_str());
                proof {
                    let texts = key_texts(self@.keys);
                    assert(texts.take(i + 1) == texts.take(i as int).push(text@));
                    lemma_option_lines_push(texts.take(i as int), text@);
                }
                i += 1;
            }
            proof {
                let texts = key_texts(self@.keys);
                assert(texts.take(i as int) == texts);
            }
            out.append("]");
        }
        out.append("\n");
        out.append("\\end{axis}");
        out
    }
}

/// An axis without options is written as the opening tag, a line break and
/// the closing tag: there is no bracketed list, not even an empty one.
pub proof fn lemma_axis_without_options(axis: AxisView)
    requires
        axis.keys.len() == 0,
    ensures
        axis.markup() == "\\begin{axis}\n\\end{axis}"@,
{
    reveal_strlit("\\begin{axis}");
    reveal_strlit("\n");
    reveal_strlit("\\end{axis}");
    reveal_strlit("\\begin{axis}\n\\end{axis}");
    assert(axis.markup() =~= "\\begin{axis}\n\\end{axis}"@);
}

/// Keys that are added one by one stand in the axis in the order in which
/// they were added, behind the keys that were there. None is moved and none
/// is dropped, also where the same key is added twice. Their lines are
/// written in that order, behind the lines that were there.
pub proof fn lemma_axis_keys_keep_order(axis: AxisView, keys: Seq<AxisKeyView>)
    ensures
        axis.add_keys(keys).keys == axis.keys + keys,
        option_lines(key_texts(axis.add_keys(keys).keys)) == option_lines(key_texts(axis.keys))
            + option_lines(key_texts(keys)),
    decreases keys.len(),
{
    if keys.len() > 0 {
        lemma_axis_keys_keep_order(axis, keys.drop_last());
        assert(keys == keys.drop_last().push(keys.last()));
    }
    assert(axis.add_keys(keys).keys == axis.keys + keys);
    assert(key_texts(axis.keys + keys) == key_texts(axis.keys) + key_texts(keys));
    lemma_option_lines_concat(key_texts(axis.keys), key_texts(keys));
}

} // verus!

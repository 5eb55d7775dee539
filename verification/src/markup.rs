use vstd::prelude::*;
use vstd::seq_lib::lemma_flatten_concat;
use vstd::string::*;

verus! {

/// The line that one option takes in a bracketed list: a tab, the option's
/// text, a comma and a line break.
pub open spec fn option_line(text: Seq<char>) -> Seq<char> {
    "\t"@ + text + ",\n"@
}

/// The lines of all options, one after the other, in the order of `texts`.
pub open spec fn option_lines(texts: Seq<Seq<char>>) -> Seq<char> {
    texts.flat_map(|text: Seq<char>| option_line(text))
}

/// The bracketed list that follows `\begin{..}`. Without options there is no
/// list at all, not even an empty pair of brackets.
pub open spec fn option_block(texts: Seq<Seq<char>>) -> Seq<char> {
    if texts.len() == 0 {
        Seq::empty()
    } else {
        "[\n"@ + option_lines(texts) + "]"@
    }
}

/// Blocks of text one after the other, in the order of `blocks`, each closed
/// by a line break.
pub open spec fn block_lines(blocks: Seq<Seq<char>>) -> Seq<char> {
    blocks.flat_map(|block: Seq<char>| block + "\n"@)
}

/// Appends the line of one option to `out`.
pub(crate) fn push_option_line(out: &mut String, text: &str)
    ensures
        final(out)@ == old(out)@ + option_line(text@),
{
    out.append("\t");
    out.append(text);
    out.append(",\n");
}

/// One more option adds its line behind the lines that are there.
pub proof fn lemma_option_lines_push(texts: Seq<Seq<char>>, text: Seq<char>)
    ensures
        option_lines(texts.push(text)) == option_lines(texts) + option_line(text),
{
    let line = |text: Seq<char>| option_line(text);
    assert(texts.push(text).map_values(line) == texts.map_values(line).push(option_line(text)));
    texts.map_values(line).lemma_flatten_push(option_line(text));
}

/// The lines of two lists of options, one list behind the other, are the
/// lines of the first list followed by the lines of the second: no line
/// moves, none is dropped and none is merged with another.
pub proof fn lemma_option_lines_concat(front: Seq<Seq<char>>, back: Seq<Seq<char>>)
    ensures
        option_lines(front + back) == option_lines(front) + option_lines(back),
{
    let line = |text: Seq<char>| option_line(text);
    assert((front + back).map_values(line) == front.map_values(line) + back.map_values(line));
    lemma_flatten_concat(front.map_values(line), back.map_values(line));
}

/// The line of the option at `i` stands behind the lines of all options
/// before it and in front of the lines of all options after it.
pub proof fn lemma_option_line_at(texts: Seq<Seq<char>>, i: int)
    requires
        0 <= i < texts.len(),
    ensures
        option_lines(texts) == option_lines(texts.take(i)) + option_line(texts[i]) + option_lines(
            texts.skip(i + 1),
        ),
{
    assert(texts == texts.take(i).push(texts[i]) + texts.skip(i + 1));
    lemma_option_lines_concat(texts.take(i).push(texts[i]), texts.skip(i + 1));
    lemma_option_lines_push(texts.take(i), texts[i]);
}

/// One more block goes behind the blocks that are there.
pub proof fn lemma_block_lines_push(blocks: Seq<Seq<char>>, block: Seq<char>)
    ensures
        block_lines(blocks.push(block)) == block_lines(blocks) + block + "\n"@,
{
    let closed = |block: Seq<char>| block + "\n"@;
    assert(blocks.push(block).map_values(closed) == blocks.map_values(closed).push(closed(block)));
    blocks.map_values(closed).lemma_flatten_push(closed(block));
}

/// The blocks of two lists, one list behind the other, are the blocks of the
/// first list followed by the blocks of the second.
pub proof fn lemma_block_lines_concat(front: Seq<Seq<char>>, back: Seq<Seq<char>>)
    ensures
        block_lines(front + back) == block_lines(front) + block_lines(back),
{
    let closed = |block: Seq<char>| block + "\n"@;
    assert((front + back).map_values(closed) == front.map_values(closed) + back.map_values(
        closed,
    ));
    lemma_flatten_concat(front.map_values(closed), back.map_values(closed));
}

/// The block at `i` stands behind all blocks before it and in front of all
/// blocks after it, with its line break behind it.
pub proof fn lemma_block_at(blocks: Seq<Seq<char>>, i: int)
    requires
        0 <= i < blocks.len(),
    ensures
        block_lines(blocks) == block_lines(blocks.take(i)) + blocks[i] + "\n"@ + block_lines(
            blocks.skip(i + 1),
        ),
{
    assert(blocks == blocks.take(i).push(blocks[i]) + blocks.skip(i + 1));
    lemma_block_lines_concat(blocks.take(i).push(blocks[i]), blocks.skip(i + 1));
    lemma_block_lines_push(blocks.take(i), blocks[i]);
}

} // verus!

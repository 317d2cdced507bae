use vstd::prelude::*;
use crate::input::TextPosition;

verus! {

/// One row of a galley as an accessibility tool sees it: the accessibility node of the
/// row, how many glyphs it holds, and whether it ends with a newline.
#[derive(Clone, Copy, Debug, PartialEq, Eq, Structural)]
pub struct TextRow {
    pub node: u64,
    pub glyph_count: usize,
    pub ends_with_newline: bool,
}

/// The number of characters that a row adds to the text: its glyphs, and its newline.
pub open spec fn row_text_len(row: TextRow) -> int {
    row.glyph_count + if row.ends_with_newline {
        1int
    } else {
        0int
    }
}

/// The number of characters in the rows before row `i`.
pub open spec fn text_len_before(rows: Seq<TextRow>, i: int) -> int
    decreases i,
{
    if i <= 0 {
        0
    } else {
        text_len_before(rows, i - 1) + row_text_len(rows[i - 1])
    }
}

/// No row before row `i` belongs to `node`.
pub open spec fn node_absent_before(rows: Seq<TextRow>, node: u64, i: int) -> bool {
    forall|j: int| 0 <= j < i ==> #[trigger] rows[j].node != node
}

/// Row `i` is the first row that belongs to `node`.
pub open spec fn first_row_of(rows: Seq<TextRow>, node: u64, i: int) -> bool {
    0 <= i < rows.len() && rows[i].node == node && node_absent_before(rows, node, i)
}

/// A cursor that counts characters from the start of a galley's text, as the galley's
/// rows hold them. Where it stands at a wrap between two rows, `prefer_next_row` puts it
/// at the start of the next row rather than at the end of the previous one.
#[derive(Clone, Copy, Debug, PartialEq, Eq, Structural)]
pub struct CCursor {
    pub index: usize,
    pub prefer_next_row: bool,
}

/// The cursor at `position` in row `i`: the characters before the row and the position's
/// character index within it. A cursor at the very end of a row that wraps onto a next
/// row stays on this row; every other one prefers the next row.
pub open spec fn cursor_in_row(rows: Seq<TextRow>, i: int, position: TextPosition) -> CCursor {
    CCursor {
        index: (text_len_before(rows, i) + position.character_index) as usize,
        prefer_next_row: !(position.character_index == rows[i].glyph_count
            && !rows[i].ends_with_newline && i + 1 < rows.len()),
    }
}

/// Counting the characters up to `position` fits in a `usize`: up to the row of the
/// position, or over all rows where no row has its node.
pub open spec fn position_fits(rows: Seq<TextRow>, position: TextPosition) -> bool {
    &&& forall|i: int|
        0 <= i <= rows.len() && node_absent_before(rows, position.node, i) ==> #[trigger] text_len_before(
            rows,
            i,
        ) <= usize::MAX
    &&& forall|i: int|
        #[trigger] first_row_of(rows, position.node, i) ==> text_len_before(rows, i)
            + position.character_index <= usize::MAX
}

/// The cursor that an accessibility text position stands for in a galley with `rows`,
/// or `None` if no row has the position's node.
pub fn ccursor_from_accesskit_text_position(rows: &Vec<TextRow>, position: &TextPosition) -> (r:
    Option<CCursor>)
    requires
        position_fits(rows@, *position),
    ensures
        r is None <==> node_absent_before(rows@, position.node, rows.len() as int),
        r is Some ==> exists|i: int| #[trigger] first_row_of(rows@, position.node, i),
        forall|i: int|
            #[trigger] first_row_of(rows@, position.node, i) ==> r == Some(
                cursor_in_row(rows@, i, *position),
            ),
{
    let mut total_length: usize = 0;
    let mut i: usize = 0;
    while i < rows.len()
        invariant
            i <= rows.len(),
            position_fits(rows@, *position),
            node_absent_before(rows@, position.node, i as int),
            total_length == text_len_before(rows@, i as int),
        decreases rows.len() - i,
    {
        let row = &rows[i];
        if row.node == position.node {
            assert(first_row_of(rows@, position.node, i as int));
            let r = Some(
                CCursor {
                    index: total_length + position.character_index,
                    prefer_next_row: !(position.character_index == row.glyph_count
                        && !row.ends_with_newline && (i + 1) < rows.len()),
                },
            );
            assert forall|k: int| #[trigger] first_row_of(rows@, position.node, k) implies k == i by {
                if k < i {
                    assert(rows@[k].node != position.node);
                } else if k > i {
                    assert(rows@[i as int].node != position.node);
                }
            }
            return r;
        }
        assert(node_absent_before(rows@, position.node, i + 1));
        assert(text_len_before(rows@, i + 1) <= usize::MAX);
        total_length += row.glyph_count + (row.ends_with_newline as usize);
        i += 1;
    }
    assert forall|k: int| #[trigger] first_row_of(rows@, position.node, k) implies false by {
        assert(rows@[k].node != position.node);
    }
    None
}

} // verus!

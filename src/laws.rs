use vstd::prelude::*;
use crate::buffer::{ScreenChar, BUFFER_HEIGHT, BUFFER_WIDTH};
use crate::color::ColorCode;
use crate::writer::{blank, blank_row, glyph_of, is_displayable, Screen, PLACEHOLDER};

verus! {

/// Whether a byte is printable ASCII.
pub open spec fn is_printable(b: u8) -> bool {
    0x20 <= b <= 0x7e
}

/// Writing any byte keeps the screen well formed.
pub proof fn lemma_put_byte_wf(s: Screen, b: u8)
    requires
        s.wf(),
    ensures
        s.put_byte(b).wf(),
        s.put_byte(b).color == s.color,
{
    let n = s.new_line();
    assert(n.wf());
}

/// Writing any string keeps the screen well formed.
pub proof fn lemma_put_str_wf(s: Screen, bytes: Seq<u8>)
    requires
        s.wf(),
    ensures
        s.put_str(bytes).wf(),
        s.put_str(bytes).color == s.color,
    decreases bytes.len(),
{
    if bytes.len() > 0 {
        lemma_put_str_wf(s, bytes.drop_last());
        lemma_put_byte_wf(s.put_str(bytes.drop_last()), glyph_of(bytes.last()));
    }
}

/// A printable byte lands at the cursor in the active color and moves the
/// cursor one column right; on a full row it first wraps to the start of the
/// next line.
pub proof fn lemma_printable_lands_at_cursor(s: Screen, b: u8)
    requires
        s.wf(),
        is_printable(b),
    ensures
        s.column < BUFFER_WIDTH ==> {
            &&& s.put_byte(b).grid[s.row][s.column] == (ScreenChar { ascii_character: b, color_code: s.color })
            &&& s.put_byte(b).row == s.row
            &&& s.put_byte(b).column == s.column + 1
        },
        s.column == BUFFER_WIDTH ==> {
            &&& s.put_byte(b).grid[s.new_line().row][0] == (ScreenChar { ascii_character: b, color_code: s.color })
            &&& s.put_byte(b).row == s.new_line().row
            &&& s.put_byte(b).column == 1
        },
{
    let n = s.new_line();
    assert(n.wf());
}

/// Writing `k` printable bytes that fit in the rest of the row fills the
/// cells after the cursor in the active color and changes nothing else.
pub proof fn lemma_printable_run(s: Screen, bytes: Seq<u8>, k: int)
    requires
        s.wf(),
        0 <= k <= bytes.len(),
        s.column + k <= BUFFER_WIDTH,
        forall|i: int| 0 <= i < bytes.len() ==> is_printable(#[trigger] bytes[i]),
    ensures
        ({
            let t = s.put_str(bytes.take(k));
            &&& t.wf()
            &&& t.row == s.row
            &&& t.column == s.column + k
            &&& t.color == s.color
            &&& forall|r: int| 0 <= r < BUFFER_HEIGHT && r != s.row ==> #[trigger] t.grid[r] == s.grid[r]
            &&& forall|j: int|
                0 <= j < BUFFER_WIDTH ==> #[trigger] t.grid[s.row][j] == if s.column <= j < s.column + k {
                    ScreenChar { ascii_character: bytes[j - s.column], color_code: s.color }
                } else {
                    s.grid[s.row][j]
                }
        }),
    decreases k,
{
    if k == 0 {
        assert(bytes.take(0) =~= Seq::<u8>::empty());
    } else {
        lemma_printable_run(s, bytes, k - 1);
        let p = bytes.take(k);
        assert(p.drop_last() =~= bytes.take(k - 1));
        assert(p.last() == bytes[k - 1]);
        assert(is_printable(bytes[k - 1]));
        let t0 = s.put_str(bytes.take(k - 1));
        let t = s.put_str(p);
        assert(t == t0.put_byte(bytes[k - 1]));
        assert forall|r: int| 0 <= r < BUFFER_HEIGHT implies (#[trigger] t.grid[r]).len() == BUFFER_WIDTH by {
            if r == s.row {
                assert(t.grid[r] == t0.grid[r].update(s.column + k - 1, ScreenChar {
                    ascii_character: bytes[k - 1],
                    color_code: s.color,
                }));
            }
        }
    }
}

/// A full row of printable bytes followed by one more wraps exactly once:
/// the row is filled in order and the last byte lands at the start of the
/// next line (the last row, scrolled, when the cursor was already there).
pub proof fn lemma_wrap_once(s: Screen, bytes: Seq<u8>)
    requires
        s.wf(),
        s.column == 0,
        bytes.len() == BUFFER_WIDTH + 1,
        forall|i: int| 0 <= i < bytes.len() ==> is_printable(#[trigger] bytes[i]),
    ensures
        ({
            let t = s.put_str(bytes);
            &&& t.row == if s.row == BUFFER_HEIGHT - 1 {
                s.row
            } else {
                s.row + 1
            }
            &&& t.column == 1
            &&& t.grid[t.row][0] == (ScreenChar { ascii_character: bytes[BUFFER_WIDTH as int], color_code: s.color })
            &&& forall|j: int|
                0 <= j < BUFFER_WIDTH ==> #[trigger] t.grid[t.row - 1][j] == (ScreenChar {
                    ascii_character: bytes[j],
                    color_code: s.color,
                })
        }),
{
    let w = BUFFER_WIDTH as int;
    lemma_printable_run(s, bytes, w);
    let t0 = s.put_str(bytes.take(w));
    assert(bytes.drop_last() =~= bytes.take(w));
    assert(is_printable(bytes[w]));
    assert(s.put_str(bytes) == t0.put_byte(bytes[w]));
    let n = t0.new_line();
    assert(n.wf());
}

/// After clearing, every cell is blank in the active color and the cursor is
/// at the top left.
pub proof fn lemma_clear_is_blank(s: Screen)
    requires
        s.wf(),
    ensures
        s.clear().wf(),
        s.clear().row == 0,
        s.clear().column == 0,
        forall|r: int, c: int|
            0 <= r < BUFFER_HEIGHT && 0 <= c < BUFFER_WIDTH ==> #[trigger] s.clear().grid[r][c] == blank(s.color),
{
}

/// Whether `ch` stood in column `j` of some row of `s`.
pub open spec fn held_in_column(s: Screen, ch: ScreenChar, j: int) -> bool {
    exists|r: int| 0 <= r < BUFFER_HEIGHT && #[trigger] s.grid[r][j] == ch
}

/// Every cell of `t` either has color `c` or holds a character that stood in
/// the same column of `s`.
pub open spec fn colored_or_kept(s: Screen, t: Screen, c: ColorCode) -> bool {
    forall|r: int, j: int|
        0 <= r < BUFFER_HEIGHT && 0 <= j < BUFFER_WIDTH ==> (#[trigger] t.grid[r][j]).color_code == c
            || held_in_column(s, t.grid[r][j], j)
}

/// Writing a string in a scoped color leaves the active color as it was, and
/// every cell the string wrote or blanked carries the scoped color: any other
/// cell holds a character that was already on the screen.
pub proof fn lemma_color_scope(s: Screen, c: ColorCode, bytes: Seq<u8>)
    requires
        s.wf(),
    ensures
        s.put_str_in(c, bytes).color == s.color,
        s.put_str_in(c, bytes).wf(),
        colored_or_kept(s, s.put_str_in(c, bytes), c),
{
    lemma_scoped_run(s, Screen { color: c, ..s }, bytes);
    lemma_put_str_wf(Screen { color: c, ..s }, bytes);
}

proof fn lemma_scoped_run(s: Screen, u: Screen, bytes: Seq<u8>)
    requires
        s.wf(),
        u == (Screen { color: u.color, ..s }),
    ensures
        colored_or_kept(s, u.put_str(bytes), u.color),
    decreases bytes.len(),
{
    let c = u.color;
    if bytes.len() == 0 {
        assert forall|r: int, j: int| 0 <= r < BUFFER_HEIGHT && 0 <= j < BUFFER_WIDTH implies (
        #[trigger] u.grid[r][j]).color_code == c || held_in_column(s, u.grid[r][j], j) by {
            assert(s.grid[r][j] == u.grid[r][j]);
        }
    } else {
        lemma_scoped_run(s, u, bytes.drop_last());
        let t0 = u.put_str(bytes.drop_last());
        lemma_put_str_wf(u, bytes.drop_last());
        let b = glyph_of(bytes.last());
        let n = t0.new_line();
        assert(n.wf());
        assert(colored_or_kept(s, n, c)) by {
            assert forall|r: int, j: int| 0 <= r < BUFFER_HEIGHT && 0 <= j < BUFFER_WIDTH implies (
            #[trigger] n.grid[r][j]).color_code == c || held_in_column(s, n.grid[r][j], j) by {
                if t0.row == BUFFER_HEIGHT - 1 {
                    if r < BUFFER_HEIGHT - 1 {
                        assert(n.grid[r][j] == t0.grid[r + 1][j]);
                    }
                }
            }
        }
        let t = t0.put_byte(b);
        assert(colored_or_kept(s, t, c)) by {
            let m = if b == 0x0a || t0.column >= BUFFER_WIDTH {
                n
            } else {
                t0
            };
            assert(colored_or_kept(s, m, c));
            assert forall|r: int, j: int| 0 <= r < BUFFER_HEIGHT && 0 <= j < BUFFER_WIDTH implies (
            #[trigger] t.grid[r][j]).color_code == c || held_in_column(s, t.grid[r][j], j) by {
                if b != 0x0a && !(r == m.row && j == m.column) {
                    assert(t.grid[r][j] == m.grid[r][j]);
                }
            }
        }
    }
}

/// A byte that is neither printable nor a newline is shown as the
/// placeholder glyph, in the active color.
pub proof fn lemma_placeholder(s: Screen, b: u8)
    requires
        s.wf(),
        s.column < BUFFER_WIDTH,
        !is_displayable(b),
    ensures
        s.put_str(seq![b]).grid[s.row][s.column] == (ScreenChar { ascii_character: PLACEHOLDER, color_code: s.color }),
        s.put_str(seq![b]).column == s.column + 1,
{
    assert(seq![b].drop_last() =~= Seq::<u8>::empty());
    assert(s.put_str(Seq::<u8>::empty()) == s);
}

/// A newline on the last row moves every row up by one, blanks the last row
/// in the active color and leaves the cursor at the start of the last row.
pub proof fn lemma_scroll(s: Screen)
    requires
        s.wf(),
        s.row == BUFFER_HEIGHT - 1,
    ensures
        ({
            let t = s.put_byte(0x0a);
            &&& t.row == BUFFER_HEIGHT - 1
            &&& t.column == 0
            &&& forall|r: int| 0 <= r < BUFFER_HEIGHT - 1 ==> #[trigger] t.grid[r] == s.grid[r + 1]
            &&& t.grid[BUFFER_HEIGHT - 1] == blank_row(s.color)
        }),
{
}

} // verus!

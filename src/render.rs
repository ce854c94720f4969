use vstd::prelude::*;

use crate::title::{Align, Title};

verus! {

/// `n` copies of `c`.
pub open spec fn fill(n: nat, c: char) -> Seq<char> {
    Seq::new(n, |i: int| c)
}

/// Appends `n` copies of the one-character string `glyph` to `line`.
fn push_fill(line: &mut String, n: usize, glyph: &str)
    requires
        glyph@.len() == 1,
    ensures
        final(line)@ == old(line)@ + fill(n as nat, glyph@[0]),
{
    let mut k: usize = 0;
    while k < n
        invariant
            k <= n,
            glyph@.len() == 1,
            line@ == old(line)@ + fill(k as nat, glyph@[0]),
        decreases n - k,
    {
        line.append(glyph);
        k = k + 1;
        assert(line@ =~= old(line)@ + fill(k as nat, glyph@[0]));
    }
}

/// Why a box cannot be drawn.
#[derive(Debug, Clone, Copy, PartialEq, Eq, Structural)]
pub enum LayoutError {
    /// The width or the height is below the smallest box, three by three.
    TooSmall,
}

/// The lines of one drawn box, top to bottom; line `i` belongs on row `i`,
/// starting at column 0.
#[derive(Debug, Clone)]
pub struct Frame {
    pub lines: Vec<String>,
    /// The title was longer than its field and only its start is shown.
    pub truncated: bool,
}

impl Frame {
    /// The characters of each line.
    pub open spec fn text_lines(&self) -> Seq<Seq<char>> {
        self.lines@.map_values(|l: String| l@)
    }
}

/// How many positions the title may take in a box `width` wide: the two
/// corners and one edge column before the right corner are reserved.
pub open spec fn field_width(width: nat) -> nat {
    (width - 3) as nat
}

/// The part of `text` that fits a field of `field` positions.
pub open spec fn shown_title(text: Seq<char>, field: nat) -> Seq<char> {
    if text.len() <= field {
        text
    } else {
        text.take(field as int)
    }
}

/// Where the shown title starts inside its field.
pub open spec fn title_offset(align: Align, field: nat, len: nat) -> nat {
    let pad = (field - len) as nat;
    match align {
        Align::Left => 0,
        Align::Middle => pad / 2,
        Align::Right => pad,
    }
}

/// The title field: the shown title placed by `align`, the rest horizontal
/// edge; an odd padding leaves its extra glyph after a centred title.
pub open spec fn placed_title(text: Seq<char>, align: Align, field: nat) -> Seq<char> {
    let shown = shown_title(text, field);
    let before = title_offset(align, field, shown.len());
    let after = (field - shown.len() - before) as nat;
    fill(before, '─') + shown + fill(after, '─')
}

/// The top border of a box `width` wide, with its title.
pub open spec fn top_line(text: Seq<char>, align: Align, width: nat) -> Seq<char> {
    seq!['┌'] + placed_title(text, align, field_width(width)) + seq!['─', '┐']
}

/// A row between the top and bottom borders.
pub open spec fn middle_line(width: nat) -> Seq<char> {
    seq!['│'] + fill((width - 2) as nat, ' ') + seq!['│']
}

/// The bottom border.
pub open spec fn bottom_line(width: nat) -> Seq<char> {
    seq!['└'] + fill((width - 2) as nat, '─') + seq!['┘']
}

/// Every line of a box `width` by `height` titled `text`.
pub open spec fn frame_lines(text: Seq<char>, align: Align, width: nat, height: nat) -> Seq<
    Seq<char>,
> {
    Seq::new(
        height,
        |i: int|
            if i == 0 {
                top_line(text, align, width)
            } else if i == height - 1 {
                bottom_line(width)
            } else {
                middle_line(width)
            },
    )
}

/// What `render_square` returns for `title` at `size` (width, height).
pub open spec fn render_square_post(title: Title, size: (usize, usize), r: Result<Frame, LayoutError>) -> bool {
    match r {
        Ok(f) => {
            &&& size.0 >= 3 && size.1 >= 3
            &&& f.text_lines() == frame_lines(title.text@, title.align, size.0 as nat, size.1 as nat)
            &&& f.truncated == (title.text@.len() > field_width(size.0 as nat))
        },
        Err(e) => e == LayoutError::TooSmall && (size.0 < 3 || size.1 < 3),
    }
}

/// Builds the top border line.
fn render_top(title: &Title, width: usize) -> (r: (String, bool))
    requires
        width >= 3,
    ensures
        r.0@ == top_line(title.text@, title.align, width as nat),
        r.1 == (title.text@.len() > field_width(width as nat)),
{
    let field = width - 3;
    let text = title.text.as_str();
    let len = text.unicode_len();
    let shown_len = if len <= field {
        len
    } else {
        field
    };
    let pad = field - shown_len;
    let before = match title.align {
        Align::Left => 0,
        Align::Middle => pad / 2,
        Align::Right => pad,
    };
    let after = pad - before;
    let shown = text.substring_char(0, shown_len);
    let mut line = String::new();
    proof {
        reveal_strlit("┌");
        reveal_strlit("─");
        reveal_strlit("┐");
    }
    line.append("┌");
    push_fill(&mut line, before, "─");
    line.append(shown);
    push_fill(&mut line, after, "─");
    line.append("─");
    line.append("┐");
    proof {
        let f = field as nat;
        assert(shown@ =~= shown_title(title.text@, f));
        assert(line@ =~= top_line(title.text@, title.align, width as nat));
    }
    (line, len > field)
}

/// Builds a line of `width` characters: `left`, then `inner` repeated,
/// then `right`.
fn render_edge(width: usize, left: &str, inner: &str, right: &str) -> (r: String)
    requires
        width >= 2,
        left@.len() == 1,
        inner@.len() == 1,
        right@.len() == 1,
    ensures
        r@ == seq![left@[0]] + fill((width - 2) as nat, inner@[0]) + seq![right@[0]],
{
    let mut line = String::new();
    line.append(left);
    push_fill(&mut line, width - 2, inner);
    line.append(right);
    assert(line@ =~= seq![left@[0]] + fill((width - 2) as nat, inner@[0]) + seq![right@[0]]);
    line
}

/// Lays out a box `size.0` characters wide and `size.1` lines high, with
/// `title` in its top border.
///
/// A box smaller than three by three is refused with `TooSmall`. A title
/// longer than its field (`size.0 - 3` positions) is cut to fit, and the
/// frame says so in `truncated`.
pub fn render_square(title: &Title, size: (usize, usize)) -> (r: Result<Frame, LayoutError>)
    ensures
        render_square_post(*title, size, r),
{
    let (width, height) = size;
    if width < 3 || height < 3 {
        return Err(LayoutError::TooSmall);
    }
    let (top, truncated) = render_top(title, width);
    proof {
        reveal_strlit("└");
        reveal_strlit("─");
        reveal_strlit("┘");
    }
    let ghost text = title.text@;
    let ghost align = title.align;
    let mut lines: Vec<String> = Vec::new();
    lines.push(top);
    let mut i: usize = 1;
    while i < height - 1
        invariant
            3 <= height,
            3 <= width,
            1 <= i <= height - 1,
            lines@.len() == i,
            forall|j: int|
                0 <= j < i ==> #[trigger] lines@[j]@ == frame_lines(
                    text,
                    align,
                    width as nat,
                    height as nat,
                )[j],
        decreases height - i,
    {
        proof {
            reveal_strlit("│");
            reveal_strlit(" ");
        }
        let row = render_edge(width, "│", " ", "│");
        assert(row@ =~= middle_line(width as nat));
        lines.push(row);
        i = i + 1;
    }
    let bottom = render_edge(width, "└", "─", "┘");
    assert(bottom@ =~= bottom_line(width as nat));
    lines.push(bottom);
    let frame = Frame { lines, truncated };
    assert(frame.text_lines() =~= frame_lines(text, align, width as nat, height as nat));
    Ok(frame)
}

/// The shown title never exceeds its field, and the placed field is
/// exactly as wide as the field.
proof fn lemma_placed_title_len(text: Seq<char>, align: Align, field: nat)
    ensures
        shown_title(text, field).len() <= field,
        placed_title(text, align, field).len() == field,
{
}

/// Every line of the model of a box is `width` characters long.
proof fn lemma_frame_lines_width(text: Seq<char>, align: Align, width: nat, height: nat)
    requires
        width >= 3,
        height >= 3,
    ensures
        frame_lines(text, align, width, height).len() == height,
        forall|i: int|
            0 <= i < height ==> (#[trigger] frame_lines(text, align, width, height)[i]).len()
                == width,
{
    lemma_placed_title_len(text, align, field_width(width));
}

/// A box of width `w` and height `h`, both at least three, has exactly `h`
/// lines, each of exactly `w` characters.
pub proof fn lemma_frame_dimensions(title: Title, size: (usize, usize), r: Result<Frame, LayoutError>)
    requires
        size.0 >= 3,
        size.1 >= 3,
        render_square_post(title, size, r),
    ensures
        r is Ok,
        r->Ok_0.lines@.len() == size.1,
        forall|i: int| 0 <= i < size.1 ==> (#[trigger] r->Ok_0.lines@[i])@.len() == size.0,
{
    let f = r->Ok_0;
    lemma_frame_lines_width(title.text@, title.align, size.0 as nat, size.1 as nat);
    assert forall|i: int| 0 <= i < size.1 implies (#[trigger] f.lines@[i])@.len() == size.0 by {
        assert(f.text_lines()[i] == f.lines@[i]@);
    }
}

/// With a title that fits its field, the top line holds the title at the
/// place its alignment gives (flush left, centred with any odd padding
/// glyph after it, or flush right), and horizontal edge everywhere else
/// between the two corners.
pub proof fn lemma_title_placement(title: Title, size: (usize, usize), r: Result<Frame, LayoutError>)
    requires
        size.0 >= 3,
        size.1 >= 3,
        title.text@.len() <= field_width(size.0 as nat),
        render_square_post(title, size, r),
    ensures
        ({
            let top = r->Ok_0.lines@[0]@;
            let len = title.text@.len();
            let start = 1 + title_offset(title.align, field_width(size.0 as nat), len) as int;
            &&& top.len() == size.0
            &&& top[0] == '┌'
            &&& top[size.0 - 1] == '┐'
            &&& top.subrange(start, start + len as int) == title.text@
            &&& forall|k: int|
                1 <= k < size.0 - 1 && !(start <= k < start + len) ==> #[trigger] top[k] == '─'
        }),
{
    let f = r->Ok_0;
    let text = title.text@;
    let width = size.0 as nat;
    let field = field_width(width);
    lemma_frame_lines_width(text, title.align, width, size.1 as nat);
    assert(f.text_lines()[0] == f.lines@[0]@);
    let top = f.lines@[0]@;
    assert(top == top_line(text, title.align, width));
    let len = text.len();
    let before = title_offset(title.align, field, len);
    let after = (field - len - before) as nat;
    let start = 1 + before as int;
    assert(shown_title(text, field) == text);
    assert(top =~= seq!['┌'] + fill(before, '─') + text + fill(after, '─') + seq!['─', '┐']);
    assert(top.subrange(start, start + len as int) =~= text);
}

/// Rendering is a function of its inputs: two renders of the same title at
/// the same size give the same outcome, line for line.
pub proof fn lemma_render_deterministic(
    title: Title,
    size: (usize, usize),
    r1: Result<Frame, LayoutError>,
    r2: Result<Frame, LayoutError>,
)
    requires
        render_square_post(title, size, r1),
        render_square_post(title, size, r2),
    ensures
        r1 is Ok <==> r2 is Ok,
        r1 is Err ==> r1 == r2,
        r1 is Ok ==> r1->Ok_0.text_lines() == r2->Ok_0.text_lines() && r1->Ok_0.truncated
            == r2->Ok_0.truncated,
{
}

/// The smallest boxes: at width three the title field is empty, so the
/// borders are just their corners around one edge glyph and every middle
/// row is one blank; at height three there is one middle row.
pub proof fn lemma_minimal_frame(title: Title, size: (usize, usize), r: Result<Frame, LayoutError>)
    requires
        size.0 >= 3,
        size.1 >= 3,
        size.0 == 3 || size.1 == 3,
        render_square_post(title, size, r),
    ensures
        r is Ok,
        size.0 == 3 ==> {
            &&& r->Ok_0.lines@[0]@ == seq!['┌', '─', '┐']
            &&& r->Ok_0.lines@[size.1 - 1]@ == seq!['└', '─', '┘']
            &&& forall|i: int|
                0 < i < size.1 - 1 ==> (#[trigger] r->Ok_0.lines@[i])@ == seq!['│', ' ', '│']
        },
        size.1 == 3 ==> {
            &&& r->Ok_0.lines@.len() == 3
            &&& r->Ok_0.lines@[1]@ == middle_line(size.0 as nat)
        },
{
    let f = r->Ok_0;
    let text = title.text@;
    let width = size.0 as nat;
    let height = size.1 as nat;
    lemma_frame_lines_width(text, title.align, width, height);
    assert(f.text_lines()[0] == f.lines@[0]@);
    assert(f.text_lines()[size.1 - 1] == f.lines@[size.1 - 1]@);
    if size.0 == 3 {
        assert(shown_title(text, 0) =~= Seq::<char>::empty());
        assert(f.lines@[0]@ =~= seq!['┌', '─', '┐']);
        assert(f.lines@[size.1 - 1]@ =~= seq!['└', '─', '┘']);
        assert forall|i: int| 0 < i < size.1 - 1 implies (#[trigger] f.lines@[i])@ == seq![
            '│',
            ' ',
            '│',
        ] by {
            assert(f.text_lines()[i] == f.lines@[i]@);
            assert(f.lines@[i]@ =~= seq!['│', ' ', '│']);
        }
    }
    if size.1 == 3 {
        assert(f.text_lines()[1] == f.lines@[1]@);
    }
}

/// A box narrower or lower than three is refused with `TooSmall`.
pub proof fn lemma_too_small(title: Title, size: (usize, usize), r: Result<Frame, LayoutError>)
    requires
        size.0 < 3 || size.1 < 3,
        render_square_post(title, size, r),
    ensures
        r == Err::<Frame, LayoutError>(LayoutError::TooSmall),
{
}

} // verus!

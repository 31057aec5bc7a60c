//! Layout of a bordered text table: column widths and the lines to print.
use vstd::prelude::*;
use vstd::string::*;
use vstd::utf8::encode_utf8;

verus! {

/// `piece` written `n` times.
pub open spec fn repeat(piece: Seq<char>, n: nat) -> Seq<char>
    decreases n,
{
    if n == 0 {
        Seq::empty()
    } else {
        repeat(piece, (n - 1) as nat) + piece
    }
}

/// `s` followed by spaces up to `width` characters; a longer `s` is kept whole.
pub open spec fn padded(s: Seq<char>, width: nat) -> Seq<char> {
    if s.len() < width {
        s + repeat(" "@, (width - s.len()) as nat)
    } else {
        s
    }
}

/// The cells of a row, as plain text.
pub open spec fn row_view(row: Vec<&str>) -> Seq<Seq<char>> {
    Seq::new(row@.len(), |j: int| row@[j]@)
}

/// The cells of every row, as plain text.
pub open spec fn rows_view(rows: Seq<Vec<&str>>) -> Seq<Seq<Seq<char>>> {
    Seq::new(rows.len(), |k: int| row_view(rows[k]))
}

/// The width of column `c`: the length in UTF-8 bytes of its longest cell
/// among `rows`, 0 where no row reaches it.
pub open spec fn widest(rows: Seq<Seq<Seq<char>>>, c: int) -> nat
    decreases rows.len(),
{
    if rows.len() == 0 {
        0
    } else {
        let w = widest(rows.drop_last(), c);
        let last = rows.last();
        if 0 <= c < last.len() && encode_utf8(last[c]).len() > w {
            encode_utf8(last[c]).len()
        } else {
            w
        }
    }
}

/// The inner part of a border: a run of `─` as wide as each column, with
/// `mid` between two columns.
pub open spec fn border_cells(widths: Seq<usize>, mid: Seq<char>) -> Seq<char>
    decreases widths.len(),
{
    if widths.len() == 0 {
        Seq::empty()
    } else {
        let before = widths.drop_last();
        let sep = if before.len() == 0 {
            Seq::empty()
        } else {
            mid
        };
        border_cells(before, mid) + sep + repeat("─"@, widths.last() as nat)
    }
}

/// A whole border line.
pub open spec fn border_line(widths: Seq<usize>, left: Seq<char>, mid: Seq<char>, right: Seq<char>) -> Seq<char> {
    left + border_cells(widths, mid) + right
}

/// The cells of a row, each framed on the left and padded to its column.
pub open spec fn row_cells(cells: Seq<Seq<char>>, widths: Seq<usize>) -> Seq<char>
    decreases cells.len(),
{
    if cells.len() == 0 {
        Seq::empty()
    } else {
        let j = cells.len() - 1;
        row_cells(cells.drop_last(), widths) + "│ "@ + padded(cells.last(), widths[j] as nat) + " "@
    }
}

/// A whole line of cells.
pub open spec fn row_line(cells: Seq<Seq<char>>, widths: Seq<usize>) -> Seq<char> {
    row_cells(cells, widths) + "│"@
}

/// `piece` written `n` times.
fn repeat_str(piece: &str, n: usize) -> (r: String)
    ensures
        r@ == repeat(piece@, n as nat),
{
    let mut r = String::new();
    let mut i: usize = 0;
    while i < n
        invariant
            0 <= i <= n,
            r@ == repeat(piece@, i as nat),
        decreases n - i,
    {
        r = r.concat(piece);
        i += 1;
    }
    r
}

/// `s` padded with spaces up to `width` characters.
fn pad_right(s: &str, width: usize) -> (r: String)
    ensures
        r@ == padded(s@, width as nat),
{
    let len = s.unicode_len();
    let r = String::from_str(s);
    if len < width {
        let spaces = repeat_str(" ", width - len);
        r.concat(spaces.as_str())
    } else {
        r
    }
}

/// The width of each column: the length in UTF-8 bytes of its longest cell
/// over `rows`.
/// Headers do not count.
pub fn column_widths(headers: &Vec<&str>, rows: &Vec<Vec<&str>>) -> (r: Vec<usize>)
    requires
        forall|k: int| 0 <= k < rows@.len() ==> (#[trigger] rows@[k])@.len() <= headers@.len(),
    ensures
        r@.len() == headers@.len(),
        forall|c: int| 0 <= c < r@.len() ==> r@[c] == widest(rows_view(rows@), c),
{
    let n = headers.len();
    let ghost table = rows_view(rows@);
    let mut widths: Vec<usize> = Vec::new();
    let mut c: usize = 0;
    while c < n
        invariant
            0 <= c <= n,
            n == headers@.len(),
            widths@.len() == c,
            forall|i: int| 0 <= i < c ==> widths@[i] == 0,
        decreases n - c,
    {
        widths.push(0);
        c += 1;
    }
    assert(table.take(0) =~= Seq::<Seq<Seq<char>>>::empty());
    let mut k: usize = 0;
    while k < rows.len()
        invariant
            0 <= k <= rows@.len(),
            n == headers@.len(),
            table == rows_view(rows@),
            widths@.len() == n,
            forall|k2: int| 0 <= k2 < rows@.len() ==> (#[trigger] rows@[k2])@.len() <= n,
            forall|i: int| 0 <= i < n ==> widths@[i] == widest(table.take(k as int), i),
        decreases rows@.len() - k,
    {
        let row = &rows[k];
        let ghost before = table.take(k as int);
        let ghost after = table.take(k + 1);
        assert(after.drop_last() =~= before);
        let mut j: usize = 0;
        while j < row.len()
            invariant
                0 <= j <= row@.len(),
                row@.len() <= n,
                widths@.len() == n,
                after.len() == k + 1,
                after.drop_last() == before,
                after.last() == row_view(*row),
                row_view(*row).len() == row@.len(),
                forall|i: int| 0 <= i < j ==> widths@[i] == widest(after, i),
                forall|i: int| j <= i < n ==> widths@[i] == widest(before, i),
            decreases row@.len() - j,
        {
            let w = row[j].as_bytes().len();
            assert(after.last()[j as int] == row@[j as int]@);
            assert(widest(after, j as int) == if encode_utf8(after.last()[j as int]).len() > widest(
                before,
                j as int,
            ) {
                encode_utf8(after.last()[j as int]).len()
            } else {
                widest(before, j as int)
            });
            if widths[j] < w {
                widths[j] = w;
            }
            j += 1;
        }
        assert forall|i: int| 0 <= i < n implies widths@[i] == widest(after, i) by {
            if i >= row@.len() {
                assert(widest(after, i) == widest(before, i));
            }
        }
        assert(table.take(k + 1) == after);
        k += 1;
    }
    assert(table.take(rows@.len() as int) =~= table);
    widths
}

/// A border line: `left`, a run of `─` for each column with `mid` between
/// two of them, and `right`.
fn border(widths: &Vec<usize>, left: &str, mid: &str, right: &str) -> (r: String)
    ensures
        r@ == border_line(widths@, left@, mid@, right@),
{
    let mut line = String::from_str(left);
    let mut j: usize = 0;
    while j < widths.len()
        invariant
            0 <= j <= widths@.len(),
            line@ == left@ + border_cells(widths@.take(j as int), mid@),
        decreases widths@.len() - j,
    {
        let ghost taken = widths@.take(j + 1);
        assert(taken.drop_last() =~= widths@.take(j as int));
        if j > 0 {
            line = line.concat(mid);
        }
        let dashes = repeat_str("─", widths[j]);
        line = line.concat(dashes.as_str());
        assert(line@ =~= left@ + border_cells(taken, mid@));
        j += 1;
    }
    assert(widths@.take(widths@.len() as int) =~= widths@);
    line.concat(right)
}

/// A line of cells, each padded to its column's width, closed by `│`.
fn cells_line(cells: &Vec<&str>, widths: &Vec<usize>) -> (r: String)
    requires
        cells@.len() <= widths@.len(),
    ensures
        r@ == row_line(row_view(*cells), widths@),
{
    let ghost all = row_view(*cells);
    let mut line = String::new();
    let mut j: usize = 0;
    while j < cells.len()
        invariant
            0 <= j <= cells@.len(),
            cells@.len() <= widths@.len(),
            all == row_view(*cells),
            line@ == row_cells(all.take(j as int), widths@),
        decreases cells@.len() - j,
    {
        let ghost taken = all.take(j + 1);
        assert(taken.drop_last() =~= all.take(j as int));
        let cell = pad_right(cells[j], widths[j]);
        line = line.concat("│ ");
        line = line.concat(cell.as_str());
        line = line.concat(" ");
        assert(line@ =~= row_cells(taken, widths@));
        j += 1;
    }
    assert(all.take(cells@.len() as int) =~= all);
    line.concat("│")
}

/// The lines of a table: a top border, the headers, a rule, one line per
/// row, and a bottom border, every column as wide as its longest cell.
pub fn draw(headers: &Vec<&str>, rows: &Vec<Vec<&str>>) -> (r: Vec<String>)
    requires
        forall|k: int| 0 <= k < rows@.len() ==> (#[trigger] rows@[k])@.len() <= headers@.len(),
    ensures
        ({
            let widths = Seq::new(headers@.len(), |c: int| widest(rows_view(rows@), c) as usize);
            &&& r@.len() == rows@.len() + 4
            &&& r@[0]@ == border_line(widths, "┌─"@, "─┬─"@, "─┐"@)
            &&& r@[1]@ == row_line(row_view(*headers), widths)
            &&& r@[2]@ == border_line(widths, "├─"@, "─┼─"@, "─┤"@)
            &&& forall|k: int| 0 <= k < rows@.len() ==> r@[k + 3]@ == row_line(row_view(#[trigger] rows@[k]), widths)
            &&& r@[rows@.len() as int + 3]@ == border_line(widths, "└─"@, "─┴─"@, "─┘"@)
        }),
{
    let widths = column_widths(headers, rows);
    assert(widths@ =~= Seq::new(headers@.len(), |c: int| widest(rows_view(rows@), c) as usize));
    let mut lines: Vec<String> = Vec::new();
    lines.push(border(&widths, "┌─", "─┬─", "─┐"));
    lines.push(cells_line(headers, &widths));
    lines.push(border(&widths, "├─", "─┼─", "─┤"));
    let mut k: usize = 0;
    while k < rows.len()
        invariant
            0 <= k <= rows@.len(),
            widths@.len() == headers@.len(),
            forall|k2: int| 0 <= k2 < rows@.len() ==> (#[trigger] rows@[k2])@.len() <= headers@.len(),
            lines@.len() == k + 3,
            lines@[0]@ == border_line(widths@, "┌─"@, "─┬─"@, "─┐"@),
            lines@[1]@ == row_line(row_view(*headers), widths@),
            lines@[2]@ == border_line(widths@, "├─"@, "─┼─"@, "─┤"@),
            forall|k2: int| 0 <= k2 < k ==> lines@[k2 + 3]@ == row_line(row_view(#[trigger] rows@[k2]), widths@),
        decreases rows@.len() - k,
    {
        lines.push(cells_line(&rows[k], &widths));
        k += 1;
    }
    lines.push(border(&widths, "└─", "─┴─", "─┘"));
    lines
}

} // verus!

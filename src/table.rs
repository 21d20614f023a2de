//! Tabular output as aligned text: bold headers, a rule of dashes, then one
//! line per row, each column padded to its widest cell. Widths count the
//! bytes of the UTF-8 text.
use vstd::prelude::*;
use vstd::string::*;
use vstd::utf8::encode_utf8;

verus! {

/// The length of `s` in UTF-8 bytes.
pub open spec fn byte_len(s: Seq<char>) -> int {
    encode_utf8(s).len() as int
}

/// `h` is among the omitted fields.
pub open spec fn omitted(h: Seq<char>, omit: Seq<String>) -> bool {
    exists|j: int| 0 <= j < omit.len() && #[trigger] omit[j]@ == h
}

/// The positions of the headers that are not omitted, in order.
pub open spec fn kept_columns(headers: Seq<String>, omit: Seq<String>) -> Seq<int>
    decreases headers.len(),
{
    if headers.len() == 0 {
        Seq::empty()
    } else {
        let rest = kept_columns(headers.drop_last(), omit);
        if omitted(headers.last()@, omit) {
            rest
        } else {
            rest.push(headers.len() - 1)
        }
    }
}

/// The widest of the header and the cells of column `c`.
pub open spec fn column_width(header: Seq<char>, rows: Seq<Vec<String>>, c: int) -> int
    decreases rows.len(),
{
    if rows.len() == 0 {
        byte_len(header)
    } else {
        let w = column_width(header, rows.drop_last(), c);
        let l = byte_len(rows.last()@[c]@);
        if l > w { l } else { w }
    }
}

/// `n` copies of `ch`.
pub open spec fn fill(ch: char, n: int) -> Seq<char> {
    Seq::new(n as nat, |i: int| ch)
}

/// A cell: its text, then, unless it is the last, padding to `width` and the
/// separator.
pub open spec fn cell_piece(text: Seq<char>, width: int, sep: Seq<char>, last: bool) -> Seq<char> {
    if last {
        text
    } else {
        text + fill(' ', width - byte_len(text)) + sep
    }
}

/// Turns bold on, in a terminal.
pub open spec fn bold_on() -> Seq<char> {
    seq!['\x1b', '[', '1', 'm']
}

/// Turns bold off, in a terminal.
pub open spec fn bold_off() -> Seq<char> {
    seq!['\x1b', '[', '0', 'm']
}

/// A header cell: its text in bold, then, unless it is the last, padding and
/// the separator.
pub open spec fn header_piece(text: Seq<char>, width: int, sep: Seq<char>, last: bool) -> Seq<char> {
    bold_on() + text + bold_off() + if last {
        Seq::empty()
    } else {
        fill(' ', width - byte_len(text)) + sep
    }
}

/// The widths of the kept columns.
pub open spec fn widths_of(headers: Seq<String>, rows: Seq<Vec<String>>, cols: Seq<int>) -> Seq<int> {
    Seq::new(cols.len(), |n: int| column_width(headers[cols[n]]@, rows, cols[n]))
}

/// The first `k` cells of the line of `row`.
pub open spec fn row_prefix(row: Seq<String>, cols: Seq<int>, widths: Seq<int>, sep: Seq<char>, k: int) -> Seq<char>
    decreases k,
{
    if k <= 0 {
        Seq::empty()
    } else {
        row_prefix(row, cols, widths, sep, k - 1) + cell_piece(row[cols[k - 1]]@, widths[k - 1], sep, k - 1 == cols.len() - 1)
    }
}

/// The first `k` cells of the header line.
pub open spec fn header_prefix(headers: Seq<String>, cols: Seq<int>, widths: Seq<int>, sep: Seq<char>, k: int) -> Seq<char>
    decreases k,
{
    if k <= 0 {
        Seq::empty()
    } else {
        header_prefix(headers, cols, widths, sep, k - 1) + header_piece(
            headers[cols[k - 1]]@,
            widths[k - 1],
            sep,
            k - 1 == cols.len() - 1,
        )
    }
}

/// The rule under the first `k` columns: their widths in dashes, and as many
/// dashes as the separator has bytes between them.
pub open spec fn rule_prefix(widths: Seq<int>, sep_len: int, k: int) -> Seq<char>
    decreases k,
{
    if k <= 0 {
        Seq::empty()
    } else {
        rule_prefix(widths, sep_len, k - 1) + (if k > 1 { fill('-', sep_len) } else { Seq::empty() }) + fill(
            '-',
            widths[k - 1],
        )
    }
}

/// The lines of the first `k` rows, separated by newlines.
pub open spec fn rows_text(rows: Seq<Vec<String>>, cols: Seq<int>, widths: Seq<int>, sep: Seq<char>, k: int) -> Seq<char>
    decreases k,
{
    if k <= 0 {
        Seq::empty()
    } else {
        rows_text(rows, cols, widths, sep, k - 1) + (if k > 1 && cols.len() > 0 { seq!['\n'] } else { Seq::empty() })
            + row_prefix(rows[k - 1]@, cols, widths, sep, cols.len() as int)
    }
}

/// The whole table: unless headers are left out, the header line, a newline,
/// the rule and a newline (nothing for no columns); then the rows.
pub open spec fn table_text(
    headers: Seq<String>,
    rows: Seq<Vec<String>>,
    omit: Seq<String>,
    no_headers: bool,
    sep: Seq<char>,
) -> Seq<char> {
    let cols = kept_columns(headers, omit);
    let widths = widths_of(headers, rows, cols);
    let head = if no_headers || cols.len() == 0 {
        Seq::empty()
    } else {
        header_prefix(headers, cols, widths, sep, cols.len() as int) + seq!['\n'] + rule_prefix(
            widths,
            byte_len(sep),
            cols.len() as int,
        ) + seq!['\n']
    };
    head + rows_text(rows, cols, widths, sep, rows.len() as int)
}

/// Appends `n` copies of the single character of `ch`.
fn append_fill(out: &mut String, ch: &str, n: usize)
    requires
        ch@.len() == 1,
    ensures
        final(out)@ == old(out)@ + fill(ch@[0], n as int),
{
    let ghost start = out@;
    let mut j: usize = 0;
    while j < n
        invariant
            j <= n,
            ch@.len() == 1,
            out@ == start + fill(ch@[0], j as int),
        decreases n - j,
    {
        out.append(ch);
        j = j + 1;
        assert(fill(ch@[0], j as int) =~= fill(ch@[0], j - 1) + ch@);
    }
}

fn is_omitted(h: &String, omit: &Vec<String>) -> (r: bool)
    ensures
        r == omitted(h@, omit@),
{
    let mut j: usize = 0;
    while j < omit.len()
        invariant
            j <= omit@.len(),
            forall|k: int| 0 <= k < j ==> #[trigger] omit@[k]@ != h@,
        decreases omit@.len() - j,
    {
        if omit[j] == *h {
            return true;
        }
        j = j + 1;
    }
    false
}

fn columns_kept(headers: &Vec<String>, omit: &Vec<String>) -> (r: Vec<usize>)
    ensures
        r@.len() == kept_columns(headers@, omit@).len(),
        forall|n: int| 0 <= n < r@.len() ==> #[trigger] r@[n] as int == kept_columns(headers@, omit@)[n],
        forall|n: int| 0 <= n < r@.len() ==> #[trigger] r@[n] < headers@.len(),
{
    let mut cols: Vec<usize> = Vec::new();
    let mut i: usize = 0;
    while i < headers.len()
        invariant
            i <= headers@.len(),
            cols@.len() == kept_columns(headers@.take(i as int), omit@).len(),
            forall|n: int| 0 <= n < cols@.len() ==> #[trigger] cols@[n] as int == kept_columns(headers@.take(i as int), omit@)[n],
            forall|n: int| 0 <= n < cols@.len() ==> #[trigger] cols@[n] < i,
        decreases headers@.len() - i,
    {
        proof {
            assert(headers@.take(i + 1).drop_last() =~= headers@.take(i as int));
            assert(headers@.take(i + 1).last() == headers@[i as int]);
        }
        if !is_omitted(&headers[i], omit) {
            cols.push(i);
        }
        i = i + 1;
    }
    proof {
        assert(headers@.take(i as int) =~= headers@);
    }
    cols
}

fn width_of_column(header: &String, rows: &Vec<Vec<String>>, c: usize) -> (r: usize)
    requires
        forall|i: int| 0 <= i < rows@.len() ==> c < (#[trigger] rows@[i])@.len(),
    ensures
        r as int == column_width(header@, rows@, c as int),
{
    let mut w: usize = header.as_str().as_bytes().len();
    let mut i: usize = 0;
    while i < rows.len()
        invariant
            i <= rows@.len(),
            forall|k: int| 0 <= k < rows@.len() ==> c < (#[trigger] rows@[k])@.len(),
            w as int == column_width(header@, rows@.take(i as int), c as int),
        decreases rows@.len() - i,
    {
        proof {
            assert(rows@.take(i + 1).drop_last() =~= rows@.take(i as int));
            assert(rows@.take(i + 1).last() == rows@[i as int]);
        }
        let l = rows[i][c].as_str().as_bytes().len();
        if l > w {
            w = l;
        }
        i = i + 1;
    }
    proof {
        assert(rows@.take(i as int) =~= rows@);
    }
    w
}

proof fn lemma_width_at_least_cell(header: Seq<char>, rows: Seq<Vec<String>>, c: int, i: int)
    requires
        0 <= i < rows.len(),
    ensures
        byte_len(rows[i]@[c]@) <= column_width(header, rows, c),
        byte_len(header) <= column_width(header, rows, c),
    decreases rows.len(),
{
    lemma_header_within_width(header, rows, c);
    if i < rows.len() - 1 {
        lemma_width_at_least_cell(header, rows.drop_last(), c, i);
        assert(rows.drop_last()[i] == rows[i]);
    }
}

proof fn lemma_header_within_width(header: Seq<char>, rows: Seq<Vec<String>>, c: int)
    ensures
        byte_len(header) <= column_width(header, rows, c),
    decreases rows.len(),
{
    if rows.len() > 0 {
        lemma_header_within_width(header, rows.drop_last(), c);
    }
}

/// A formatter of tables.
pub trait TabularFormatter {
    type Error;

    fn format(&self, headers: &Vec<String>, rows: &Vec<Vec<String>>) -> Result<String, Self::Error>;
}

/// Formats tables as aligned text.
#[derive(Debug)]
pub struct TextFormatter {
    pub omit_fields: Vec<String>,
    pub no_headers: bool,
    pub seperator: String,
}

impl TextFormatter {
    pub fn new(omit_fields: Vec<String>, no_headers: bool, seperator: String) -> (r: TextFormatter)
        ensures
            r.omit_fields == omit_fields,
            r.no_headers == no_headers,
            r.seperator == seperator,
    {
        TextFormatter { omit_fields, no_headers, seperator }
    }

    /// The text of the table of `headers` and `rows`: see `table_text`.
    pub fn format_table(&self, headers: &Vec<String>, rows: &Vec<Vec<String>>) -> (r: String)
        requires
            forall|i: int| 0 <= i < rows@.len() ==> headers@.len() <= (#[trigger] rows@[i])@.len(),
        ensures
            r@ == table_text(headers@, rows@, self.omit_fields@, self.no_headers, self.seperator@),
    {
        let ghost kept = kept_columns(headers@, self.omit_fields@);
        let cols = columns_kept(headers, &self.omit_fields);
        let ghost widths_s = widths_of(headers@, rows@, kept);
        let mut widths: Vec<usize> = Vec::new();
        let mut n: usize = 0;
        while n < cols.len()
            invariant
                n <= cols@.len(),
                cols@.len() == kept.len(),
                forall|m: int| 0 <= m < cols@.len() ==> #[trigger] cols@[m] as int == kept[m],
                forall|m: int| 0 <= m < cols@.len() ==> #[trigger] cols@[m] < headers@.len(),
                forall|i: int| 0 <= i < rows@.len() ==> headers@.len() <= (#[trigger] rows@[i])@.len(),
                widths@.len() == n,
                forall|m: int| 0 <= m < n ==> #[trigger] widths@[m] as int == widths_s[m],
                widths_s == widths_of(headers@, rows@, kept),
            decreases cols@.len() - n,
        {
            let c = cols[n];
            widths.push(width_of_column(&headers[c], rows, c));
            n = n + 1;
        }
        let sep = self.seperator.as_str();
        let ncols = cols.len();
        let mut out = String::new();
        if !self.no_headers && ncols > 0 {
            let mut k: usize = 0;
            while k < ncols
                invariant
                    k <= ncols,
                    ncols == cols@.len(),
                    cols@.len() == kept.len(),
                    forall|m: int| 0 <= m < cols@.len() ==> #[trigger] cols@[m] as int == kept[m],
                    forall|m: int| 0 <= m < cols@.len() ==> #[trigger] cols@[m] < headers@.len(),
                    widths@.len() == ncols,
                    forall|m: int| 0 <= m < ncols ==> #[trigger] widths@[m] as int == widths_s[m],
                    widths_s == widths_of(headers@, rows@, kept),
                    sep@ == self.seperator@,
                    out@ == header_prefix(headers@, kept, widths_s, sep@, k as int),
                decreases ncols - k,
            {
                let h = headers[cols[k]].as_str();
                out.append("\x1b[1m");
                out.append(h);
                out.append("\x1b[0m");
                proof {
                    reveal_strlit("\x1b[1m");
                    reveal_strlit("\x1b[0m");
                    lemma_header_within_width(headers@[kept[k as int]]@, rows@, kept[k as int]);
                }
                proof {
                    reveal_strlit(" ");
                }
                if k != ncols - 1 {
                    let hl = h.as_bytes().len();
                    append_fill(&mut out, " ", widths[k] - hl);
                    out.append(sep);
                }
                proof {
                    reveal_strlit(" ");
                }
                k = k + 1;
                assert(out@ =~= header_prefix(headers@, kept, widths_s, sep@, k as int));
            }
            out.append("\n");
            let mut k: usize = 0;
            let ghost before_rule = out@;
            let sep_len = sep.as_bytes().len();
            while k < ncols
                invariant
                    k <= ncols,
                    widths@.len() == ncols,
                    widths_s.len() == ncols,
                    forall|m: int| 0 <= m < ncols ==> #[trigger] widths@[m] as int == widths_s[m],
                    sep_len as int == byte_len(sep@),
                    out@ == before_rule + rule_prefix(widths_s, byte_len(sep@), k as int),
                decreases ncols - k,
            {
                proof {
                    reveal_strlit("-");
                }
                if k > 0 {
                    append_fill(&mut out, "-", sep_len);
                }
                append_fill(&mut out, "-", widths[k]);
                proof {
                    reveal_strlit("-");
                }
                k = k + 1;
                assert(out@ =~= before_rule + rule_prefix(widths_s, byte_len(sep@), k as int));
            }
            out.append("\n");
            proof {
                reveal_strlit("\n");
            }
        }
        let ghost head = out@;
        assert(head == (if self.no_headers || kept.len() == 0 {
            Seq::<char>::empty()
        } else {
            header_prefix(headers@, kept, widths_s, sep@, kept.len() as int) + seq!['\n'] + rule_prefix(
                widths_s,
                byte_len(sep@),
                kept.len() as int,
            ) + seq!['\n']
        }));
        let mut i: usize = 0;
        while i < rows.len()
            invariant
                i <= rows@.len(),
                ncols == cols@.len(),
                cols@.len() == kept.len(),
                forall|m: int| 0 <= m < cols@.len() ==> #[trigger] cols@[m] as int == kept[m],
                forall|m: int| 0 <= m < cols@.len() ==> #[trigger] cols@[m] < headers@.len(),
                forall|r: int| 0 <= r < rows@.len() ==> headers@.len() <= (#[trigger] rows@[r])@.len(),
                widths@.len() == ncols,
                forall|m: int| 0 <= m < ncols ==> #[trigger] widths@[m] as int == widths_s[m],
                widths_s == widths_of(headers@, rows@, kept),
                sep@ == self.seperator@,
                out@ == head + rows_text(rows@, kept, widths_s, sep@, i as int),
            decreases rows@.len() - i,
        {
            if i > 0 && ncols > 0 {
                out.append("\n");
                proof {
                    reveal_strlit("\n");
                }
            }
            let ghost line_start = out@;
            let row = &rows[i];
            let mut k: usize = 0;
            while k < ncols
                invariant
                    k <= ncols,
                    i < rows@.len(),
                    row == &rows@[i as int],
                    ncols == cols@.len(),
                    cols@.len() == kept.len(),
                    forall|m: int| 0 <= m < cols@.len() ==> #[trigger] cols@[m] as int == kept[m],
                    forall|m: int| 0 <= m < cols@.len() ==> #[trigger] cols@[m] < headers@.len(),
                    headers@.len() <= row@.len(),
                    widths@.len() == ncols,
                    forall|m: int| 0 <= m < ncols ==> #[trigger] widths@[m] as int == widths_s[m],
                    widths_s == widths_of(headers@, rows@, kept),
                    sep@ == self.seperator@,
                    out@ == line_start + row_prefix(row@, kept, widths_s, sep@, k as int),
                decreases ncols - k,
            {
                let c = cols[k];
                let cell = row[c].as_str();
                out.append(cell);
                proof {
                    reveal_strlit(" ");
                }
                if k != ncols - 1 {
                    proof {
                        lemma_width_at_least_cell(headers@[c as int]@, rows@, c as int, i as int);
                    }
                    let cl = cell.as_bytes().len();
                    append_fill(&mut out, " ", widths[k] - cl);
                    out.append(sep);
                    proof {
                        reveal_strlit(" ");
                    }
                }
                k = k + 1;
                assert(out@ =~= line_start + row_prefix(row@, kept, widths_s, sep@, k as int));
            }
            i = i + 1;
            assert(out@ =~= head + rows_text(rows@, kept, widths_s, sep@, i as int));
        }
        out
    }
}

impl TabularFormatter for TextFormatter {
    type Error = ();

    fn format(&self, headers: &Vec<String>, rows: &Vec<Vec<String>>) -> Result<String, ()> {
        let mut i: usize = 0;
        while i < rows.len()
            invariant
                i <= rows@.len(),
                forall|k: int| 0 <= k < i ==> headers@.len() <= (#[trigger] rows@[k])@.len(),
            decreases rows@.len() - i,
        {
            if rows[i].len() < headers.len() {
                return Err(());
            }
            i = i + 1;
        }
        Ok(self.format_table(headers, rows))
    }
}

} // verus!

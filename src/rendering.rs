//! HTML for the demo page: the query form, the result table and the
//! greeting component.
use vstd::prelude::*;
use crate::result::{DuckDBColumn, ResolvedResult};
use crate::text::{escaped, push_escaped};
use crate::value::value_label;

verus! {

/// The pieces one after the other.
pub open spec fn concat(items: Seq<Seq<char>>) -> Seq<char>
    decreases items.len(),
{
    if items.len() == 0 {
        seq![]
    } else {
        concat(items.drop_last()) + items.last()
    }
}

/// The views of a list of strings.
pub open spec fn texts(v: Seq<String>) -> Seq<Seq<char>> {
    v.map_values(|s: String| s@)
}

/// Already rendered fragments, rendered one after the other.
pub struct Container(pub Vec<String>);

impl Container {
    pub fn render(&self) -> (r: String)
        ensures
            r@ == concat(texts(self.0@)),
    {
        let mut out = String::new();
        let mut i: usize = 0;
        while i < self.0.len()
            invariant
                i <= self.0@.len(),
                out@ == concat(texts(self.0@.take(i as int))),
            decreases self.0@.len() - i,
        {
            out.append(self.0[i].as_str());
            i = i + 1;
            assert(texts(self.0@.take(i as int)).drop_last() =~= texts(self.0@.take(i - 1)));
        }
        assert(self.0@.take(i as int) =~= self.0@);
        out
    }
}

/// A header cell: the column's name, then the name of the variant that
/// its cells decode to.
pub open spec fn head_cell(c: DuckDBColumn) -> Seq<char> {
    "<td>"@ + escaped(c.name@) + ": "@ + escaped(value_label(c.type_)) + "</td>"@
}

pub open spec fn head_cells(cols: Seq<DuckDBColumn>) -> Seq<char>
    decreases cols.len(),
{
    if cols.len() == 0 {
        seq![]
    } else {
        head_cells(cols.drop_last()) + head_cell(cols.last())
    }
}

/// A body cell holding the text of one value.
pub open spec fn body_cell(text: Seq<char>) -> Seq<char> {
    "<td>"@ + escaped(text) + "</td>"@
}

pub open spec fn body_cells(cells: Seq<String>) -> Seq<char>
    decreases cells.len(),
{
    if cells.len() == 0 {
        seq![]
    } else {
        body_cells(cells.drop_last()) + body_cell(cells.last()@)
    }
}

pub open spec fn body_rows(rows: Seq<Vec<String>>) -> Seq<char>
    decreases rows.len(),
{
    if rows.len() == 0 {
        seq![]
    } else {
        body_rows(rows.drop_last()) + "<tr>"@ + body_cells(rows.last()@) + "</tr>"@
    }
}

/// A table whose header names each column and the kind of its values,
/// and whose body has one row per entry of `rows`, one cell per text.
pub open spec fn table_html(cols: Seq<DuckDBColumn>, rows: Seq<Vec<String>>) -> Seq<char> {
    "<table><thead>"@ + head_cells(cols) + "</thead><tbody>"@ + body_rows(rows)
        + "</tbody></table>"@
}

fn push_head_cells(out: &mut String, cols: &[DuckDBColumn])
    ensures
        final(out)@ == old(out)@ + head_cells(cols@),
{
    let ghost start = out@;
    let mut i: usize = 0;
    while i < cols.len()
        invariant
            i <= cols@.len(),
            out@ == start + head_cells(cols@.take(i as int)),
        decreases cols@.len() - i,
    {
        out.append("<td>");
        push_escaped(out, cols[i].name.as_str());
        out.append(": ");
        push_escaped(out, cols[i].type_.value_label());
        out.append("</td>");
        i = i + 1;
        assert(cols@.take(i as int).drop_last() =~= cols@.take(i - 1));
        assert(out@ =~= start + head_cells(cols@.take(i as int)));
    }
    assert(cols@.take(i as int) =~= cols@);
}

fn push_body_cells(out: &mut String, cells: &Vec<String>)
    ensures
        final(out)@ == old(out)@ + body_cells(cells@),
{
    let ghost start = out@;
    let mut i: usize = 0;
    while i < cells.len()
        invariant
            i <= cells@.len(),
            out@ == start + body_cells(cells@.take(i as int)),
        decreases cells@.len() - i,
    {
        out.append("<td>");
        push_escaped(out, cells[i].as_str());
        out.append("</td>");
        i = i + 1;
        assert(cells@.take(i as int).drop_last() =~= cells@.take(i - 1));
        assert(out@ =~= start + body_cells(cells@.take(i as int)));
    }
    assert(cells@.take(i as int) =~= cells@);
}

/// Renders the result table of `resolved`, with `rows` holding the text
/// of each decoded cell, row by row: one row per row of the result, one
/// cell per column.
#[allow(non_snake_case)]
pub fn Table(resolved: &ResolvedResult, rows: &Vec<Vec<String>>) -> (r: String)
    requires
        rows@.len() == resolved.spec_row_count(),
        forall|i: int| 0 <= i < rows@.len() ==> #[trigger] rows@[i]@.len() == resolved.spec_column_count(),
    ensures
        r@ == table_html(resolved.spec_columns(), rows@),
{
    let mut out = String::new();
    out.append("<table><thead>");
    push_head_cells(&mut out, resolved.columns());
    out.append("</thead><tbody>");
    let ghost start = out@;
    let mut i: usize = 0;
    while i < rows.len()
        invariant
            i <= rows@.len(),
            out@ == start + body_rows(rows@.take(i as int)),
        decreases rows@.len() - i,
    {
        out.append("<tr>");
        push_body_cells(&mut out, &rows[i]);
        out.append("</tr>");
        i = i + 1;
        assert(rows@.take(i as int).drop_last() =~= rows@.take(i - 1));
        assert(out@ =~= start + body_rows(rows@.take(i as int)));
    }
    assert(rows@.take(i as int) =~= rows@);
    out.append("</tbody></table>");
    assert(out@ =~= table_html(resolved.spec_columns(), rows@));
    out
}

/// The form through which the page posts a query to the host's callback.
pub open spec fn form_html() -> Seq<char> {
    "<form onsubmit=\""@ + escaped(
        "event.preventDefault(); Module.ccall('callback', 'void', ['string'], [document.forms[0].query.value])"@,
    ) + "\"><input placeholder=\""@ + escaped("select random()"@) + "\" autofocus=\""@ + escaped(
        "true"@,
    ) + "\" name=\""@ + escaped("query"@) + "\"/></form>"@
}

fn push_form(out: &mut String)
    ensures
        final(out)@ == old(out)@ + form_html(),
{
    let ghost start = out@;
    out.append("<form onsubmit=\"");
    push_escaped(
        out,
        "event.preventDefault(); Module.ccall('callback', 'void', ['string'], [document.forms[0].query.value])",
    );
    out.append("\"><input placeholder=\"");
    push_escaped(out, "select random()");
    out.append("\" autofocus=\"");
    push_escaped(out, "true");
    out.append("\" name=\"");
    push_escaped(out, "query");
    out.append("\"/></form>");
    assert(out@ =~= start + form_html());
}

/// The query form.
pub fn form() -> (r: String)
    ensures
        r@ == form_html(),
{
    let mut out = String::new();
    push_form(&mut out);
    out
}

/// The page after a query that succeeded: the form, then the rendered
/// result table as it is.
pub fn result_page(table: &str) -> (r: String)
    ensures
        r@ == "<div>"@ + form_html() + table@ + "</div>"@,
{
    let mut out = String::new();
    out.append("<div>");
    push_form(&mut out);
    out.append(table);
    out.append("</div>");
    assert(out@ =~= "<div>"@ + form_html() + table@ + "</div>"@);
    out
}

/// The page after a query that failed: the form, then the error text.
pub fn error_page(message: &str) -> (r: String)
    ensures
        r@ == "<div>"@ + form_html() + "<pre><code>"@ + escaped(message@) + "</code></pre></div>"@,
{
    let mut out = String::new();
    out.append("<div>");
    push_form(&mut out);
    out.append("<pre><code>");
    push_escaped(&mut out, message);
    out.append("</code></pre></div>");
    assert(out@ =~= "<div>"@ + form_html() + "<pre><code>"@ + escaped(message@)
        + "</code></pre></div>"@);
    out
}

/// A component that greets someone.
pub struct Hello<'who> {
    who: &'who str,
}

/// The element id of the greeting for `who`.
pub open spec fn hello_id(who: Seq<char>) -> Seq<char> {
    "hello-"@ + who
}

/// A `div` with that id, holding `Hello, ` and the name in bold with `!`.
pub open spec fn hello_html(who: Seq<char>) -> Seq<char> {
    "<div id=\""@ + escaped(hello_id(who)) + "\">Hello, <strong>"@ + escaped(who) + "!</strong></div>"@
}

impl<'who> Hello<'who> {
    pub closed spec fn spec_who(&self) -> Seq<char> {
        self.who@
    }

    /// Construct a new `Hello` component that greets the given `who`.
    pub fn new(who: &'who str) -> (r: Hello<'who>)
        ensures
            r.spec_who() == who@,
    {
        Hello { who }
    }

    pub fn who(&self) -> (r: &'who str)
        ensures
            r@ == self.spec_who(),
    {
        self.who
    }

    pub fn id(&self) -> (r: String)
        ensures
            r@ == hello_id(self.spec_who()),
    {
        let mut out = String::new();
        out.append("hello-");
        out.append(self.who);
        out
    }

    pub fn render(&self) -> (r: String)
        ensures
            r@ == hello_html(self.spec_who()),
    {
        let id = self.id();
        let mut out = String::new();
        out.append("<div id=\"");
        push_escaped(&mut out, id.as_str());
        out.append("\">Hello, <strong>");
        push_escaped(&mut out, self.who);
        out.append("!</strong></div>");
        assert(out@ =~= hello_html(self.spec_who()));
        out
    }
}

} // verus!

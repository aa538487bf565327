use duckdb_bridge::{
    error_page, form, result_page, Container, DbError, DuckDBColumn, DuckDBState, DuckDBType,
    Hello, RawResult, ResolvedResult, Table,
};

const FORM: &str = "<form onsubmit=\"event.preventDefault(); Module.ccall(&apos;callback&apos;, &apos;void&apos;, [&apos;string&apos;], [document.forms[0].query.value])\"><input placeholder=\"select random()\" autofocus=\"true\" name=\"query\"/></form>";

#[test]
fn form_escapes_its_attributes() {
    assert_eq!(form(), FORM);
}

#[test]
fn table_has_head_and_body() {
    let raw = RawResult {
        column_count: 2,
        row_count: 2,
        columns: vec![
            DuckDBColumn { type_: DuckDBType::DuckDBTypeInteger, name: "a<b".to_string() },
            DuckDBColumn { type_: DuckDBType::DuckDBTypeVarchar, name: "s".to_string() },
        ],
        error_message: None,
    };
    let result = ResolvedResult::resolve(DuckDBState::DuckDBSuccess, raw).unwrap();
    let rows = vec![
        vec!["1".to_string(), "x & y".to_string()],
        vec!["2".to_string(), "'q'".to_string()],
    ];
    assert_eq!(
        Table(&result, &rows),
        "<table><thead><td>a&lt;b: Integer</td><td>s: String</td></thead><tbody>\
         <tr><td>1</td><td>x &amp; y</td></tr><tr><td>2</td><td>&apos;q&apos;</td></tr>\
         </tbody></table>"
    );
}

#[test]
fn empty_table() {
    let raw = RawResult { column_count: 0, row_count: 0, columns: vec![], error_message: None };
    let result = ResolvedResult::resolve(DuckDBState::DuckDBSuccess, raw).unwrap();
    assert_eq!(Table(&result, &vec![]), "<table><thead></thead><tbody></tbody></table>");
}

#[test]
fn pages_wrap_the_form() {
    assert_eq!(result_page("<table></table>"), format!("<div>{}<table></table></div>", FORM));
    let err = DbError::QueryError("bad \"sql\"".to_string());
    assert_eq!(
        error_page(&err.to_string()),
        format!("<div>{}<pre><code>bad &quot;sql&quot;</code></pre></div>", FORM)
    );
}

#[test]
fn container_renders_in_order() {
    let c = Container(vec!["<a/>".to_string(), "<b/>".to_string()]);
    assert_eq!(c.render(), "<a/><b/>");
    assert_eq!(Container(vec![]).render(), "");
}

#[test]
fn hello_greets() {
    let hello = Hello::new("world");
    assert_eq!(hello.who(), "world");
    assert_eq!(hello.id(), "hello-world");
    assert_eq!(hello.render(), "<div id=\"hello-world\">Hello, <strong>world!</strong></div>");
    assert_eq!(Hello::new("<me>").render(), "<div id=\"hello-&lt;me&gt;\">Hello, <strong>&lt;me&gt;!</strong></div>");
}

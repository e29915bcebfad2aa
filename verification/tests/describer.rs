use schema_engine::sql_schema::unquote_string;

#[test]
fn unquoting_works() {
    let quoted_str = "'abc $$ def'".to_string();

    assert_eq!(unquote_string(&quoted_str), "abc $$ def");

    assert_eq!(unquote_string("heh "), "heh ");
}

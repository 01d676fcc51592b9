use neor::command::Command;
use neor::datum::Datum;
use neor::frame::query_text;
use neor::protocol::QueryType;
use neor::r;

fn text(s: &str) -> Datum {
    Datum::Str(s.to_string())
}

#[test]
fn r_table_insert() {
    let document = Datum::Object(vec![("item".to_string(), text("bar"))]);
    let query = r.table("foo").insert(Command::from_json(document));
    let serialised = query.serialise();
    let expected = r#"[56,[[15,["foo"]],{"item":"bar"}]]"#;
    assert_eq!(serialised, expected);
}

#[test]
fn literal_serialises_as_json() {
    assert_eq!(Command::from_json(Datum::Null).serialise(), "null");
    assert_eq!(Command::from_json(Datum::Bool(true)).serialise(), "true");
    assert_eq!(Command::from_json(Datum::Number(-42)).serialise(), "-42");
    assert_eq!(Command::from_json(Datum::Number(i64::MIN)).serialise(), "-9223372036854775808");
    assert_eq!(Command::from_json(Datum::Decimal("1.5".to_string())).serialise(), "1.5");
    assert_eq!(Command::from_json(text("a\"b")).serialise(), r#""a\"b""#);
}

#[test]
fn array_literal_becomes_make_array() {
    let arr = Datum::Array(vec![Datum::Number(1), Datum::Array(vec![]), text("x")]);
    assert_eq!(Command::from_json(arr).serialise(), r#"[2,[1,[2,[]],"x"]]"#);
}

#[test]
fn node_without_arguments() {
    assert_eq!(r.db_list().serialise(), "[59,[]]");
}

#[test]
fn chained_single_argument() {
    let q = r.db("blog").table("users").get(Command::from_json(Datum::Number(1)));
    assert_eq!(q.serialise(), r#"[16,[[15,[[14,["blog"]],"users"]],1]]"#);
}

#[test]
fn node_with_options() {
    let opts = vec![("index".to_string(), Command::string("name"))];
    let q = r
        .table("users")
        .get_all(vec![Command::string("bob")])
        .with_opts(opts);
    assert_eq!(q.serialise(), r#"[78,[[15,["users"]],"bob"],{"index":"name"}]"#);
}

#[test]
fn gt_over_several_values() {
    let q = r.expr(Datum::Number(7)).gt(vec![Command::from_json(Datum::Number(6))]);
    assert_eq!(q.serialise(), "[21,[7,6]]");
}

#[test]
fn builder_leaves_its_source_unchanged() {
    let table = r.table("t");
    let a = table.count(vec![]);
    let b = table.is_empty();
    assert_eq!(a.serialise(), r#"[43,[[15,["t"]]]]"#);
    assert_eq!(b.serialise(), r#"[86,[[15,["t"]]]]"#);
    assert_eq!(table.serialise(), r#"[15,["t"]]"#);
}

#[test]
fn with_parent_puts_the_parent_first() {
    let q = Command::new(neor::term_type::TermType::Limit)
        .with_arg(Command::from_json(Datum::Number(3)))
        .with_parent(r.table("t"));
    assert_eq!(q.serialise(), r#"[71,[[15,["t"]],3]]"#);
}

#[test]
fn args_and_min_val() {
    let q = r.args(vec![Command::from_json(Datum::Number(1))]);
    assert_eq!(q.serialise(), "[154,[[2,[1]]]]");
    assert_eq!(r::min_val().serialise(), "[180,[]]");
    assert_eq!(r::max_val().serialise(), "[181,[]]");
}

#[test]
fn start_query_carries_the_database() {
    let opts = vec![("db".to_string(), r.db("test"))];
    let body = query_text(QueryType::Start, Some(&r.table_list()), &opts);
    assert_eq!(body, r#"[1,[62,[]],{"db":[14,["test"]]}]"#);
}

#[test]
fn control_queries_have_no_term() {
    assert_eq!(query_text(QueryType::Continue, None, &vec![]), "[2]");
    assert_eq!(query_text(QueryType::Stop, None, &vec![]), "[3]");
    assert_eq!(query_text(QueryType::NoreplyWait, None, &vec![]), "[4]");
    assert_eq!(query_text(QueryType::ServerInfo, None, &vec![]), "[5]");
}

#[test]
fn object_with_nested_values() {
    let doc = Datum::Object(vec![
        ("id".to_string(), Datum::Number(1)),
        ("tags".to_string(), Datum::Array(vec![text("a")])),
        ("ok".to_string(), Datum::Bool(false)),
    ]);
    assert_eq!(
        Command::from_json(doc).serialise(),
        r#"{"id":1,"tags":[2,["a"]],"ok":false}"#
    );
}

#[test]
fn table_lifecycle_query_shapes() {
    assert_eq!(r.db("test").table_create("t").serialise(), r#"[60,[[14,["test"]],"t"]]"#);
    assert_eq!(r.table_drop("t").serialise(), r#"[61,["t"]]"#);
    let missing = r.table("t").get(Command::string("nope"));
    assert_eq!(missing.serialise(), r#"[16,[[15,["t"]],"nope"]]"#);
}

#[test]
fn changefeed_with_initial_values() {
    let opts = vec![("include_initial".to_string(), Command::from_json(Datum::Bool(true)))];
    let q = r.table("t").changes().with_opts(opts);
    assert_eq!(q.serialise(), r#"[152,[[15,["t"]]],{"include_initial":true}]"#);
}

#[test]
fn rebalance_status_and_wait() {
    let t = r.table("t");
    assert_eq!(t.rebalance().serialise(), r#"[179,[[15,["t"]]]]"#);
    assert_eq!(t.status().serialise(), r#"[175,[[15,["t"]]]]"#);
    assert_eq!(t.wait().serialise(), r#"[177,[[15,["t"]]]]"#);
}

#[test]
fn object_term_alternates_keys_and_values() {
    let q = r.object(vec![Command::string("a"), Command::from_json(Datum::Number(1))]);
    assert_eq!(q.serialise(), r#"[143,["a",1]]"#);
}

#[test]
fn strings_are_escaped_as_json() {
    let q = Command::string("a\u{1}\n\t\\\"é\u{1f}");
    assert_eq!(q.serialise(), r#""a\u0001\n\t\\\"é\u001f""#);
}

#[test]
fn comparisons_without_a_receiver() {
    let vals = |v: &[i64]| v.iter().map(|n| Command::from_json(Datum::Number(*n))).collect::<Vec<_>>();
    assert_eq!(r.gt(vals(&[7, 6, 5])).serialise(), "[21,[7,6,5]]");
    assert_eq!(r.le(vals(&[5, 6, 7])).serialise(), "[20,[5,6,7]]");
}

use neor::command::Command;
use neor::datum::Datum;
use neor::options::{
    BetweenBuilder, Conflict, DistanceOption, Durability, GetAllBuilder, InsertBuilder,
    MaxBuilder, ReconfigureOption, Replicas, ReturnChanges, Status, Unit,
};
use neor::r;
use neor::terms::{var_counter, ConcatMapBuilder, LimitBuilder};

fn num(n: i64) -> Command {
    Command::from_json(Datum::Number(n))
}

#[test]
fn between_with_bounds() {
    let q = BetweenBuilder::new(num(1), num(5))
        .with_index("age")
        .with_right_bound(Status::Closed)
        .into_command();
    assert_eq!(q.serialise(), r#"[182,[1,5],{"index":"age","right_bound":"closed"}]"#);
}

#[test]
fn get_all_with_index() {
    let q = GetAllBuilder::new(vec![Command::string("a")]).with_index("name").into_command();
    assert_eq!(q.serialise(), r#"[78,["a"],{"index":"name"}]"#);
}

#[test]
fn insert_with_options() {
    let doc = Command::from_json(Datum::Object(vec![("item".to_string(), Datum::Str("bar".to_string()))]));
    let q = InsertBuilder::new(doc)
        .with_durability(Durability::Soft)
        .with_return_changes(ReturnChanges::Always)
        .with_conflict(Conflict::Update)
        .with_ignore_write_hook(true)
        .into_command()
        .with_parent(r.table("foo"));
    assert_eq!(
        q.serialise(),
        r#"[56,[[15,["foo"]],{"item":"bar"}],{"durability":"soft","return_changes":"always","conflict":"update","ignore_write_hook":true}]"#
    );
}

#[test]
fn insert_with_conflict_function() {
    let f = Command::func(vec![1, 2, 3], Command::var(3));
    let q = InsertBuilder::new(num(1))
        .with_return_changes(ReturnChanges::Bool(false))
        .with_conflict_func(f)
        .into_command();
    assert_eq!(
        q.serialise(),
        r#"[56,[1],{"return_changes":false,"conflict":[69,[[2,[1,2,3]],[10,[3]]]]}]"#
    );
}

#[test]
fn conflict_function_replaces_the_conflict_policy() {
    let f = Command::func(vec![1, 2, 3], Command::var(2));
    let q = InsertBuilder::new(num(1))
        .with_conflict(Conflict::Replace)
        .with_durability(Durability::Hard)
        .with_conflict_func(f)
        .into_command();
    assert_eq!(
        q.serialise(),
        r#"[56,[1],{"durability":"hard","conflict":[69,[[2,[1,2,3]],[10,[2]]]]}]"#
    );
}

#[test]
fn max_with_index() {
    let q = MaxBuilder::new(None).with_index("score").command;
    assert_eq!(q.serialise(), r#"[148,[],{"index":"score"}]"#);
}

#[test]
fn distance_options() {
    let o = DistanceOption { geo_system: None, unit: None }.unit(Unit::Kilometer);
    let q = r.table("t").distance(num(1)).with_opts(o.to_opts());
    assert_eq!(q.serialise(), r#"[162,[[15,["t"]],1],{"unit":"km"}]"#);
}

#[test]
fn reconfigure_options() {
    let o = ReconfigureOption::new().shards(2).replicas(Replicas::Int(1));
    assert_eq!(r.table("t").reconfigure(o).serialise(), r#"[176,[[15,["t"]]],{"shards":2,"replicas":1}]"#);
    let tagged = Replicas::Tagged {
        replicas: vec![("us".to_string(), 2), ("eu".to_string(), 1)],
        primary_replica_tag: "us".to_string(),
    };
    let o = ReconfigureOption::new().replicas(tagged);
    assert_eq!(
        r.table("t").reconfigure(o).serialise(),
        r#"[176,[[15,["t"]]],{"replicas":{"us":2,"eu":1},"primary_replica_tag":"us"}]"#
    );
}

#[test]
fn get_intersecting_names_its_index() {
    let q = r.table("geo").get_intersecting(num(0), "area");
    assert_eq!(q.serialise(), r#"[166,[[15,["geo"]],0],{"index":"area"}]"#);
}

#[test]
fn do_calls_the_function_on_the_query() {
    let f = Command::func(vec![1], Command::var(1));
    assert_eq!(num(5).do_(f).serialise(), "[64,[[69,[[2,[1]],[10,[1]]]],5]]");
}

#[test]
fn variables_are_numbered_in_turn() {
    let mut next: u64 = 1;
    assert_eq!(var_counter(&mut next), 1);
    assert_eq!(var_counter(&mut next), 2);
    assert_eq!(next, 3);
}

#[test]
fn typed_builders_hold_their_node() {
    assert_eq!(LimitBuilder::new(num(2)).command.serialise(), "[71,[2]]");
    assert_eq!(ConcatMapBuilder::new(num(0)).command.serialise(), "[40,[0]]");
}

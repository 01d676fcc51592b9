use vstd::prelude::*;

use crate::command::{commands_model, node, Command, Term};
use crate::datum::{owned, Datum, Json};
use crate::term_type::TermType;

verus! {

/// Entry point of the query language: `r.table("users")`, `r.db_list()`, ...
#[allow(non_camel_case_types)]
#[derive(Clone, Copy, Debug)]
pub struct r;

/// Where and as whom to connect: host, port, default database, user and
/// password.
#[derive(Debug)]
pub struct ConnectionCommand {
    pub host: String,
    pub port: u16,
    pub db: String,
    pub user: String,
    pub password: String,
}

impl ConnectionCommand {
    /// Sets the host.
    pub fn host(self, host: &str) -> (res: ConnectionCommand)
        ensures
            res.host@ == host@,
            res.port == self.port,
            res.db == self.db,
            res.user == self.user,
            res.password == self.password,
    {
        ConnectionCommand { host: owned(host), ..self }
    }

    /// Sets the port.
    pub fn port(self, port: u16) -> (res: ConnectionCommand)
        ensures
            res.host == self.host,
            res.port == port,
            res.db == self.db,
            res.user == self.user,
            res.password == self.password,
    {
        ConnectionCommand { port, ..self }
    }

    /// Sets the default database.
    pub fn dbname(self, db: &str) -> (res: ConnectionCommand)
        ensures
            res.host == self.host,
            res.port == self.port,
            res.db@ == db@,
            res.user == self.user,
            res.password == self.password,
    {
        ConnectionCommand { db: owned(db), ..self }
    }

    /// Sets the user and the password.
    pub fn user(self, user: &str, password: &str) -> (res: ConnectionCommand)
        ensures
            res.host == self.host,
            res.port == self.port,
            res.db == self.db,
            res.user@ == user@,
            res.password@ == password@,
    {
        ConnectionCommand { user: owned(user), password: owned(password), ..self }
    }
}

impl r {
    /// The default connection settings: `localhost`, port 28015, database
    /// `test`, user `admin` without a password.
    pub fn connection(self) -> (res: ConnectionCommand)
        ensures
            res.host@ == "localhost"@,
            res.port == 28015,
            res.db@ == "test"@,
            res.user@ == "admin"@,
            res.password@ == ""@,
    {
        ConnectionCommand {
            host: owned("localhost"),
            port: 28015,
            db: owned("test"),
            user: owned("admin"),
            password: owned(""),
        }
    }

    /// `db_create`: a `DbCreate` node on the string `name`.
    pub fn db_create(self, name: &str) -> (res: Command)
        ensures
            res@ == node(TermType::DbCreate, seq![Term::Literal(Json::Str(name@))]),
    {
        let res = Command::new(TermType::DbCreate).with_arg(Command::string(name));
        proof {
            assert(Seq::<Term>::empty().push(Term::Literal(Json::Str(name@))) =~= seq![
                Term::Literal(Json::Str(name@)),
            ]);
        }
        res
    }

    /// `db_drop`: a `DbDrop` node on the string `name`.
    pub fn db_drop(self, name: &str) -> (res: Command)
        ensures
            res@ == node(TermType::DbDrop, seq![Term::Literal(Json::Str(name@))]),
    {
        let res = Command::new(TermType::DbDrop).with_arg(Command::string(name));
        proof {
            assert(Seq::<Term>::empty().push(Term::Literal(Json::Str(name@))) =~= seq![
                Term::Literal(Json::Str(name@)),
            ]);
        }
        res
    }

    /// `db`: a `Db` node on the string `name`.
    pub fn db(self, name: &str) -> (res: Command)
        ensures
            res@ == node(TermType::Db, seq![Term::Literal(Json::Str(name@))]),
    {
        let res = Command::new(TermType::Db).with_arg(Command::string(name));
        proof {
            assert(Seq::<Term>::empty().push(Term::Literal(Json::Str(name@))) =~= seq![
                Term::Literal(Json::Str(name@)),
            ]);
        }
        res
    }

    /// `table_drop`: a `TableDrop` node on the string `name`.
    pub fn table_drop(self, name: &str) -> (res: Command)
        ensures
            res@ == node(TermType::TableDrop, seq![Term::Literal(Json::Str(name@))]),
    {
        let res = Command::new(TermType::TableDrop).with_arg(Command::string(name));
        proof {
            assert(Seq::<Term>::empty().push(Term::Literal(Json::Str(name@))) =~= seq![
                Term::Literal(Json::Str(name@)),
            ]);
        }
        res
    }

    /// `table_create`: a `TableCreate` node on the string `name`.
    pub fn table_create(self, name: &str) -> (res: Command)
        ensures
            res@ == node(TermType::TableCreate, seq![Term::Literal(Json::Str(name@))]),
    {
        let res = Command::new(TermType::TableCreate).with_arg(Command::string(name));
        proof {
            assert(Seq::<Term>::empty().push(Term::Literal(Json::Str(name@))) =~= seq![
                Term::Literal(Json::Str(name@)),
            ]);
        }
        res
    }

    /// `table`: a `Table` node on the string `name`.
    pub fn table(self, name: &str) -> (res: Command)
        ensures
            res@ == node(TermType::Table, seq![Term::Literal(Json::Str(name@))]),
    {
        let res = Command::new(TermType::Table).with_arg(Command::string(name));
        proof {
            assert(Seq::<Term>::empty().push(Term::Literal(Json::Str(name@))) =~= seq![
                Term::Literal(Json::Str(name@)),
            ]);
        }
        res
    }

    /// `db_list`: a `DbList` node without arguments.
    pub fn db_list(self) -> (res: Command)
        ensures
            res@ == node(TermType::DbList, seq![]),
    {
        Command::new(TermType::DbList)
    }

    /// `table_list`: a `TableList` node without arguments.
    pub fn table_list(self) -> (res: Command)
        ensures
            res@ == node(TermType::TableList, seq![]),
    {
        Command::new(TermType::TableList)
    }

    /// `map`: a `MapEach` node on `args`, in order.
    pub fn map(self, args: Vec<Command>) -> (res: Command)
        ensures
            res@ == node(TermType::MapEach, commands_model(args)),
    {
        Command::node_of(TermType::MapEach, args)
    }

    /// `order_by`: a `OrderBy` node on `args`, in order.
    pub fn order_by(self, args: Vec<Command>) -> (res: Command)
        ensures
            res@ == node(TermType::OrderBy, commands_model(args)),
    {
        Command::node_of(TermType::OrderBy, args)
    }

    /// `union`: a `Union` node on `args`, in order.
    pub fn union(self, args: Vec<Command>) -> (res: Command)
        ensures
            res@ == node(TermType::Union, commands_model(args)),
    {
        Command::node_of(TermType::Union, args)
    }

    /// `reduce`: a `Reduce` node on `args`, in order.
    pub fn reduce(self, args: Vec<Command>) -> (res: Command)
        ensures
            res@ == node(TermType::Reduce, commands_model(args)),
    {
        Command::node_of(TermType::Reduce, args)
    }

    /// `count`: a `Count` node on `args`, in order.
    pub fn count(self, args: Vec<Command>) -> (res: Command)
        ensures
            res@ == node(TermType::Count, commands_model(args)),
    {
        Command::node_of(TermType::Count, args)
    }

    /// `sum`: a `Sum` node on `args`, in order.
    pub fn sum(self, args: Vec<Command>) -> (res: Command)
        ensures
            res@ == node(TermType::Sum, commands_model(args)),
    {
        Command::node_of(TermType::Sum, args)
    }

    /// `avg`: a `Avg` node on `args`, in order.
    pub fn avg(self, args: Vec<Command>) -> (res: Command)
        ensures
            res@ == node(TermType::Avg, commands_model(args)),
    {
        Command::node_of(TermType::Avg, args)
    }

    /// `min`: a `Min` node on `args`, in order.
    pub fn min(self, args: Vec<Command>) -> (res: Command)
        ensures
            res@ == node(TermType::Min, commands_model(args)),
    {
        Command::node_of(TermType::Min, args)
    }

    /// `max`: a `Max` node on `args`, in order.
    pub fn max(self, args: Vec<Command>) -> (res: Command)
        ensures
            res@ == node(TermType::Max, commands_model(args)),
    {
        Command::node_of(TermType::Max, args)
    }

    /// `distinct`: a `Distinct` node on `args`, in order.
    pub fn distinct(self, args: Vec<Command>) -> (res: Command)
        ensures
            res@ == node(TermType::Distinct, commands_model(args)),
    {
        Command::node_of(TermType::Distinct, args)
    }

    /// `contains`: a `Contains` node on `args`, in order.
    pub fn contains(self, args: Vec<Command>) -> (res: Command)
        ensures
            res@ == node(TermType::Contains, commands_model(args)),
    {
        Command::node_of(TermType::Contains, args)
    }

    /// `object`: the object whose keys and values alternate in `values`.
    pub fn object(self, values: Vec<Command>) -> (res: Command)
        ensures
            res@ == node(TermType::Object, commands_model(values)),
    {
        Command::node_of(TermType::Object, values)
    }

    /// `gt`: a `Gt` node on `args`, in order (whether each value is greater than the next).
    pub fn gt(self, args: Vec<Command>) -> (res: Command)
        ensures
            res@ == node(TermType::Gt, commands_model(args)),
    {
        Command::node_of(TermType::Gt, args)
    }

    /// `le`: a `Le` node on `args`, in order (whether each value is at most the next).
    pub fn le(self, args: Vec<Command>) -> (res: Command)
        ensures
            res@ == node(TermType::Le, commands_model(args)),
    {
        Command::node_of(TermType::Le, args)
    }

    /// `expr`: the JSON value `value` as a query.
    pub fn expr(self, value: Datum) -> (res: Command)
        ensures
            res@ == Term::Literal(value@),
    {
        Command::from_json(value)
    }

    /// `args`: splices the array `values` into the arguments of the node that
    /// takes this one as an argument.
    pub fn args(self, values: Vec<Command>) -> (res: Command)
        ensures
            res@ == node(TermType::Args, seq![node(TermType::MakeArray, commands_model(values))]),
    {
        let arr = Command::node_of(TermType::MakeArray, values);
        let res = Command::new(TermType::Args).with_arg(arr);
        proof {
            assert(Seq::<Term>::empty().push(node(TermType::MakeArray, commands_model(values)))
                =~= seq![node(TermType::MakeArray, commands_model(values))]);
        }
        res
    }

    /// `min_val`: the value below every other.
    pub fn min_val() -> (res: Command)
        ensures
            res@ == node(TermType::Minval, seq![]),
    {
        Command::new(TermType::Minval)
    }

    /// `max_val`: the value above every other.
    pub fn max_val() -> (res: Command)
        ensures
            res@ == node(TermType::Maxval, seq![]),
    {
        Command::new(TermType::Maxval)
    }
}

} // verus!

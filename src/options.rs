use vstd::prelude::*;

use crate::command::{
    lemma_option_models, node, option_models, options_model, set_opts, Command, Term,
};
use crate::datum::{owned, datum_model, Datum, Json};
use crate::term_type::TermType;

verus! {

/// One named option, present only when `present` holds.
pub open spec fn opt_if(present: bool, key: Seq<char>, value: Term) -> Seq<(Seq<char>, Term)> {
    if present {
        seq![(key, value)]
    } else {
        Seq::empty()
    }
}

pub open spec fn str_term(s: Seq<char>) -> Term {
    Term::Literal(Json::Str(s))
}

pub open spec fn bool_term(b: bool) -> Term {
    Term::Literal(Json::Bool(b))
}

/// The model of an optional query.
pub open spec fn model_of(c: Option<Command>) -> Option<Term> {
    match c {
        Some(x) => Some(x@),
        None => None,
    }
}

/// Appends one named option.
pub fn push_opt(v: &mut Vec<(String, Command)>, key: &str, value: Command)
    ensures
        options_model(*final(v)) == options_model(*old(v)).push((key@, value@)),
{
    let k = owned(key);
    let ghost before = v@;
    v.push((k, value));
    proof {
        assert(v@.subrange(0, v@.len() - 1) =~= before);
    }
}

fn bool_lit(b: bool) -> (res: Command)
    ensures
        res@ == bool_term(b),
{
    Command::from_json(Datum::Bool(b))
}

/// Whether a bound of `between` belongs to the range.
#[derive(Clone, Copy, Debug, PartialEq, Eq, Structural)]
pub enum Status {
    Open,
    Closed,
}

impl Status {
    pub open spec fn spec_name(self) -> Seq<char> {
        match self {
            Status::Open => "open"@,
            Status::Closed => "closed"@,
        }
    }

    /// The name the server knows this bound by.
    pub fn name(self) -> (res: &'static str)
        ensures
            res@ == self.spec_name(),
    {
        match self {
            Status::Open => "open",
            Status::Closed => "closed",
        }
    }
}

/// Options of `between`.
#[derive(Debug)]
pub struct BetweenOption {
    pub index: Option<String>,
    pub left_bound: Option<Status>,
    pub right_bound: Option<Status>,
}

impl BetweenOption {
    pub open spec fn spec_opts(self) -> Seq<(Seq<char>, Term)> {
        opt_if(self.index is Some, "index"@, str_term(self.index->Some_0@)) + opt_if(
            self.left_bound is Some,
            "left_bound"@,
            str_term(self.left_bound->Some_0.spec_name()),
        ) + opt_if(
            self.right_bound is Some,
            "right_bound"@,
            str_term(self.right_bound->Some_0.spec_name()),
        )
    }

    /// No option set.
    pub fn new() -> (res: BetweenOption)
        ensures
            res.index is None,
            res.left_bound is None,
            res.right_bound is None,
    {
        BetweenOption { index: None, left_bound: None, right_bound: None }
    }

    /// The options that are set, by name, in the order of the fields.
    pub fn to_opts(&self) -> (res: Vec<(String, Command)>)
        ensures
            options_model(res) == self.spec_opts(),
    {
        let mut res: Vec<(String, Command)> = Vec::new();
        proof {
            assert(options_model(res) =~= Seq::<(Seq<char>, Term)>::empty());
        }
        match &self.index {
            Some(i) => push_opt(&mut res, "index", Command::string(i.as_str())),
            None => {},
        }
        match self.left_bound {
            Some(b) => push_opt(&mut res, "left_bound", Command::string(b.name())),
            None => {},
        }
        match self.right_bound {
            Some(b) => push_opt(&mut res, "right_bound", Command::string(b.name())),
            None => {},
        }
        proof {
            assert(options_model(res) =~= self.spec_opts());
        }
        res
    }
}

/// `between` under construction: the node and its options.
pub struct BetweenBuilder {
    pub command: Command,
    pub options: BetweenOption,
}

impl BetweenBuilder {
    /// The values from `lower_key` to `upper_key`, with no option set.
    pub fn new(lower_key: Command, upper_key: Command) -> (res: BetweenBuilder)
        ensures
            res.command@ == node(TermType::Between, seq![lower_key@, upper_key@]),
            res.options.index is None,
            res.options.left_bound is None,
            res.options.right_bound is None,
    {
        let command = Command::new(TermType::Between).with_arg(lower_key).with_arg(upper_key);
        proof {
            assert(Seq::<Term>::empty().push(lower_key@).push(upper_key@) =~= seq![
                lower_key@,
                upper_key@,
            ]);
        }
        BetweenBuilder { command, options: BetweenOption::new() }
    }

    /// Selects by the secondary index `index`.
    pub fn with_index(self, index: &str) -> (res: BetweenBuilder)
        ensures
            res.command@ == self.command@,
            res.options.index is Some && res.options.index->Some_0@ == index@,
            res.options.left_bound == self.options.left_bound,
            res.options.right_bound == self.options.right_bound,
    {
        let s = owned(index);
        let BetweenBuilder { command, options } = self;
        BetweenBuilder {
            command,
            options: BetweenOption {
                index: Some(s),
                left_bound: options.left_bound,
                right_bound: options.right_bound,
            },
        }
    }

    /// Whether the lower bound belongs to the range.
    pub fn with_left_bound(self, status: Status) -> (res: BetweenBuilder)
        ensures
            res.command@ == self.command@,
            res.options.index == self.options.index,
            res.options.left_bound == Some(status),
            res.options.right_bound == self.options.right_bound,
    {
        let BetweenBuilder { command, options } = self;
        BetweenBuilder {
            command,
            options: BetweenOption {
                index: options.index,
                left_bound: Some(status),
                right_bound: options.right_bound,
            },
        }
    }

    /// Whether the upper bound belongs to the range.
    pub fn with_right_bound(self, status: Status) -> (res: BetweenBuilder)
        ensures
            res.command@ == self.command@,
            res.options.index == self.options.index,
            res.options.left_bound == self.options.left_bound,
            res.options.right_bound == Some(status),
    {
        let BetweenBuilder { command, options } = self;
        BetweenBuilder {
            command,
            options: BetweenOption {
                index: options.index,
                left_bound: options.left_bound,
                right_bound: Some(status),
            },
        }
    }

    /// The node with its options.
    pub fn into_command(self) -> (res: Command)
        ensures
            res@ == set_opts(self.command@, self.options.spec_opts()),
    {
        let opts = self.options.to_opts();
        self.command.with_opts(opts)
    }
}

/// Options of `get_all`.
#[derive(Debug)]
pub struct GetAllOption {
    pub index: Option<String>,
}

impl GetAllOption {
    pub open spec fn spec_opts(self) -> Seq<(Seq<char>, Term)> {
        opt_if(self.index is Some, "index"@, str_term(self.index->Some_0@))
    }

    /// The options that are set, by name.
    pub fn to_opts(&self) -> (res: Vec<(String, Command)>)
        ensures
            options_model(res) == self.spec_opts(),
    {
        let mut res: Vec<(String, Command)> = Vec::new();
        proof {
            assert(options_model(res) =~= Seq::<(Seq<char>, Term)>::empty());
        }
        match &self.index {
            Some(i) => push_opt(&mut res, "index", Command::string(i.as_str())),
            None => {},
        }
        proof {
            assert(options_model(res) =~= self.spec_opts());
        }
        res
    }
}

/// `get_all` under construction: the node and its options.
pub struct GetAllBuilder {
    pub command: Command,
    pub options: GetAllOption,
}

impl GetAllBuilder {
    /// The documents whose key is one of `index_keys`.
    pub fn new(index_keys: Vec<Command>) -> (res: GetAllBuilder)
        ensures
            res.command@ == node(TermType::GetAll, crate::command::commands_model(index_keys)),
            res.options.index is None,
    {
        GetAllBuilder {
            command: Command::node_of(TermType::GetAll, index_keys),
            options: GetAllOption { index: None },
        }
    }

    /// Looks the keys up in the secondary index `index`.
    pub fn with_index(self, index: &str) -> (res: GetAllBuilder)
        ensures
            res.command@ == self.command@,
            res.options.index is Some && res.options.index->Some_0@ == index@,
    {
        let s = owned(index);
        GetAllBuilder { command: self.command, options: GetAllOption { index: Some(s) } }
    }

    /// The node with its options.
    pub fn into_command(self) -> (res: Command)
        ensures
            res@ == set_opts(self.command@, self.options.spec_opts()),
    {
        let opts = self.options.to_opts();
        self.command.with_opts(opts)
    }
}

/// How a write is made durable.
#[derive(Clone, Copy, Debug, PartialEq, Eq, Structural)]
pub enum Durability {
    Hard,
    Soft,
}

/// Which changes a write reports.
#[derive(Clone, Copy, Debug, PartialEq, Eq, Structural)]
pub enum ReturnChanges {
    Bool(bool),
    Always,
}

/// What an insert does with a document whose key is taken.
#[derive(Clone, Copy, Debug, PartialEq, Eq, Structural)]
pub enum Conflict {
    Error,
    Replace,
    Update,
}

pub open spec fn durability_name(d: Durability) -> Seq<char> {
    match d {
        Durability::Hard => "hard"@,
        Durability::Soft => "soft"@,
    }
}

pub open spec fn conflict_name(c: Conflict) -> Seq<char> {
    match c {
        Conflict::Error => "error"@,
        Conflict::Replace => "replace"@,
        Conflict::Update => "update"@,
    }
}

pub open spec fn return_changes_term(r: ReturnChanges) -> Term {
    match r {
        ReturnChanges::Bool(b) => bool_term(b),
        ReturnChanges::Always => str_term("always"@),
    }
}

/// Options of `insert`.
#[derive(Clone, Copy, Debug)]
pub struct InsertOption {
    pub durability: Option<Durability>,
    pub return_changes: Option<ReturnChanges>,
    pub conflict: Option<Conflict>,
    pub ignore_write_hook: Option<bool>,
}

impl InsertOption {
    /// The options in the order of the fields; the `conflict` option is the
    /// function `func` when one is given, else the policy set, if any.
    pub open spec fn spec_opts_with(self, func: Option<Term>) -> Seq<(Seq<char>, Term)> {
        opt_if(
            self.durability is Some,
            "durability"@,
            str_term(durability_name(self.durability->Some_0)),
        ) + opt_if(
            self.return_changes is Some,
            "return_changes"@,
            return_changes_term(self.return_changes->Some_0),
        ) + (match func {
            Some(f) => seq![("conflict"@, f)],
            None => opt_if(
                self.conflict is Some,
                "conflict"@,
                str_term(conflict_name(self.conflict->Some_0)),
            ),
        }) + opt_if(
            self.ignore_write_hook is Some,
            "ignore_write_hook"@,
            bool_term(self.ignore_write_hook->Some_0),
        )
    }

    pub open spec fn spec_opts(self) -> Seq<(Seq<char>, Term)> {
        self.spec_opts_with(None)
    }

    /// The options that are set, by name, in the order of the fields.
    pub fn to_opts(&self) -> (res: Vec<(String, Command)>)
        ensures
            options_model(res) == self.spec_opts(),
    {
        self.to_opts_with(None)
    }

    /// The options that are set, by name, in the order of the fields, with the
    /// function `func`, when given, as the `conflict` option.
    pub fn to_opts_with(&self, func: Option<Command>) -> (res: Vec<(String, Command)>)
        ensures
            options_model(res) == self.spec_opts_with(model_of(func)),
    {
        let mut res: Vec<(String, Command)> = Vec::new();
        proof {
            assert(options_model(res) =~= Seq::<(Seq<char>, Term)>::empty());
        }
        match self.durability {
            Some(Durability::Hard) => push_opt(&mut res, "durability", Command::string("hard")),
            Some(Durability::Soft) => push_opt(&mut res, "durability", Command::string("soft")),
            None => {},
        }
        match self.return_changes {
            Some(ReturnChanges::Bool(b)) => push_opt(&mut res, "return_changes", bool_lit(b)),
            Some(ReturnChanges::Always) => push_opt(
                &mut res,
                "return_changes",
                Command::string("always"),
            ),
            None => {},
        }
        let ghost fm = model_of(func);
        match func {
            Some(f) => push_opt(&mut res, "conflict", f),
            None => match self.conflict {
                Some(Conflict::Error) => push_opt(&mut res, "conflict", Command::string("error")),
                Some(Conflict::Replace) => push_opt(
                    &mut res,
                    "conflict",
                    Command::string("replace"),
                ),
                Some(Conflict::Update) => push_opt(&mut res, "conflict", Command::string("update")),
                None => {},
            },
        }
        match self.ignore_write_hook {
            Some(b) => push_opt(&mut res, "ignore_write_hook", bool_lit(b)),
            None => {},
        }
        proof {
            assert(options_model(res) =~= self.spec_opts_with(fm));
        }
        res
    }
}

/// `insert` under construction: the node, its options, and the function
/// that resolves conflicts, if one is given.
pub struct InsertBuilder {
    pub command: Command,
    pub options: InsertOption,
    pub conflict_func: Option<Command>,
}

impl InsertBuilder {
    /// Inserts `document` (one document, or an array of them).
    pub fn new(document: Command) -> (res: InsertBuilder)
        ensures
            res.command@ == node(TermType::Insert, seq![document@]),
            res.options == (InsertOption {
                durability: None,
                return_changes: None,
                conflict: None,
                ignore_write_hook: None,
            }),
            res.conflict_func is None,
    {
        let command = Command::new(TermType::Insert).with_arg(document);
        proof {
            assert(Seq::<Term>::empty().push(document@) =~= seq![document@]);
        }
        InsertBuilder {
            command,
            options: InsertOption {
                durability: None,
                return_changes: None,
                conflict: None,
                ignore_write_hook: None,
            },
            conflict_func: None,
        }
    }

    /// Sets the durability of the write.
    pub fn with_durability(self, durability: Durability) -> (res: InsertBuilder)
        ensures
            res.command == self.command,
            res.conflict_func == self.conflict_func,
            res.options == (InsertOption { durability: Some(durability), ..self.options }),
    {
        let InsertBuilder { command, options, conflict_func } = self;
        InsertBuilder {
            command,
            options: InsertOption { durability: Some(durability), ..options },
            conflict_func,
        }
    }

    /// Sets which changes the write reports.
    pub fn with_return_changes(self, return_changes: ReturnChanges) -> (res: InsertBuilder)
        ensures
            res.command == self.command,
            res.conflict_func == self.conflict_func,
            res.options == (InsertOption { return_changes: Some(return_changes), ..self.options }),
    {
        let InsertBuilder { command, options, conflict_func } = self;
        InsertBuilder {
            command,
            options: InsertOption { return_changes: Some(return_changes), ..options },
            conflict_func,
        }
    }

    /// Sets whether the table's write hook is skipped.
    pub fn with_ignore_write_hook(self, ignore_write_hook: bool) -> (res: InsertBuilder)
        ensures
            res.command == self.command,
            res.conflict_func == self.conflict_func,
            res.options == (InsertOption {
                ignore_write_hook: Some(ignore_write_hook),
                ..self.options
            }),
    {
        let InsertBuilder { command, options, conflict_func } = self;
        InsertBuilder {
            command,
            options: InsertOption { ignore_write_hook: Some(ignore_write_hook), ..options },
            conflict_func,
        }
    }

    /// Sets what happens to a document whose key is taken.
    pub fn with_conflict(self, conflict: Conflict) -> (res: InsertBuilder)
        ensures
            res.command == self.command,
            res.conflict_func == self.conflict_func,
            res.options == (InsertOption { conflict: Some(conflict), ..self.options }),
    {
        let InsertBuilder { command, options, conflict_func } = self;
        InsertBuilder {
            command,
            options: InsertOption { conflict: Some(conflict), ..options },
            conflict_func,
        }
    }

    /// Resolves conflicts with the function `func`.
    pub fn with_conflict_func(self, func: Command) -> (res: InsertBuilder)
        ensures
            res.command == self.command,
            res.options == self.options,
            res.conflict_func == Some(func),
    {
        InsertBuilder { command: self.command, options: self.options, conflict_func: Some(func) }
    }

    /// The node with its options; a conflict function is the value of the
    /// `conflict` option.
    pub fn into_command(self) -> (res: Command)
        ensures
            res@ == set_opts(
                self.command@,
                self.options.spec_opts_with(model_of(self.conflict_func)),
            ),
    {
        let opts = self.options.to_opts_with(self.conflict_func);
        self.command.with_opts(opts)
    }
}

/// `max` under construction.
pub struct MaxBuilder {
    pub command: Command,
}

impl MaxBuilder {
    /// The largest value, by `arg` (a field name or a function) when given.
    pub fn new(arg: Option<Command>) -> (res: MaxBuilder)
        ensures
            arg is None ==> res.command@ == node(TermType::Max, seq![]),
            arg is Some ==> res.command@ == node(TermType::Max, seq![arg->Some_0@]),
    {
        let command = match arg {
            Some(a) => {
                let c = Command::new(TermType::Max).with_arg(a);
                proof {
                    assert(Seq::<Term>::empty().push(a@) =~= seq![a@]);
                }
                c
            },
            None => Command::new(TermType::Max),
        };
        MaxBuilder { command }
    }

    /// Looks for the largest value of the secondary index `index`.
    pub fn with_index(self, index: &str) -> (res: MaxBuilder)
        ensures
            res.command@ == set_opts(self.command@, seq![("index"@, str_term(index@))]),
    {
        let mut opts: Vec<(String, Command)> = Vec::new();
        push_opt(&mut opts, "index", Command::string(index));
        proof {
            assert(option_models(opts@) =~= seq![("index"@, str_term(index@))]) by {
                lemma_option_models(opts@);
            }
        }
        MaxBuilder { command: self.command.with_opts(opts) }
    }
}

/// The reference ellipsoid for geographic coordinates.
#[derive(Clone, Copy, Debug, PartialEq, Eq, Structural)]
pub enum GeoSystem {
    Wgs84,
    UnitSphere,
}

/// A unit of distance.
#[derive(Clone, Copy, Debug, PartialEq, Eq, Structural)]
pub enum Unit {
    Meter,
    Kilometer,
    InternationalMile,
    NauticalMile,
    InternationalFoot,
}

pub open spec fn geo_system_name(g: GeoSystem) -> Seq<char> {
    match g {
        GeoSystem::Wgs84 => "WGS84"@,
        GeoSystem::UnitSphere => "unit_sphere"@,
    }
}

pub open spec fn unit_name(u: Unit) -> Seq<char> {
    match u {
        Unit::Meter => "m"@,
        Unit::Kilometer => "km"@,
        Unit::InternationalMile => "mi"@,
        Unit::NauticalMile => "nm"@,
        Unit::InternationalFoot => "ft"@,
    }
}

/// Options of `distance`.
#[derive(Clone, Copy, Debug, PartialEq, Eq, Structural)]
pub struct DistanceOption {
    pub geo_system: Option<GeoSystem>,
    pub unit: Option<Unit>,
}

impl DistanceOption {
    pub open spec fn spec_opts(self) -> Seq<(Seq<char>, Term)> {
        opt_if(
            self.geo_system is Some,
            "geo_system"@,
            str_term(geo_system_name(self.geo_system->Some_0)),
        ) + opt_if(self.unit is Some, "unit"@, str_term(unit_name(self.unit->Some_0)))
    }

    /// Sets the unit of the result.
    pub fn unit(self, unit: Unit) -> (res: DistanceOption)
        ensures
            res == (DistanceOption { unit: Some(unit), ..self }),
    {
        DistanceOption { unit: Some(unit), ..self }
    }

    /// Sets the reference ellipsoid.
    pub fn geo_system(self, geo_system: GeoSystem) -> (res: DistanceOption)
        ensures
            res == (DistanceOption { geo_system: Some(geo_system), ..self }),
    {
        DistanceOption { geo_system: Some(geo_system), ..self }
    }

    /// The options that are set, by name, in the order of the fields.
    pub fn to_opts(&self) -> (res: Vec<(String, Command)>)
        ensures
            options_model(res) == self.spec_opts(),
    {
        let mut res: Vec<(String, Command)> = Vec::new();
        proof {
            assert(options_model(res) =~= Seq::<(Seq<char>, Term)>::empty());
        }
        match self.geo_system {
            Some(GeoSystem::Wgs84) => push_opt(&mut res, "geo_system", Command::string("WGS84")),
            Some(GeoSystem::UnitSphere) => push_opt(
                &mut res,
                "geo_system",
                Command::string("unit_sphere"),
            ),
            None => {},
        }
        let name = match self.unit {
            Some(Unit::Meter) => Some("m"),
            Some(Unit::Kilometer) => Some("km"),
            Some(Unit::InternationalMile) => Some("mi"),
            Some(Unit::NauticalMile) => Some("nm"),
            Some(Unit::InternationalFoot) => Some("ft"),
            None => None,
        };
        match name {
            Some(n) => push_opt(&mut res, "unit", Command::string(n)),
            None => {},
        }
        proof {
            assert(options_model(res) =~= self.spec_opts());
        }
        res
    }
}

/// How a table with unavailable replicas is repaired.
#[derive(Clone, Copy, Debug, PartialEq, Eq, Structural)]
pub enum EmergencyRepair {
    UnsafeRollback,
    UnsafeRollbackOrErase,
}

pub open spec fn repair_name(e: EmergencyRepair) -> Seq<char> {
    match e {
        EmergencyRepair::UnsafeRollback => "unsafe_rollback"@,
        EmergencyRepair::UnsafeRollbackOrErase => "unsafe_rollback_or_erase"@,
    }
}

/// The replicas of each shard: a number, or a number per server tag together
/// with the tag of the primary replica.
#[derive(Debug)]
pub enum Replicas {
    Int(usize),
    Tagged { replicas: Vec<(String, usize)>, primary_replica_tag: String },
}

/// The JSON members `{tag: count, ...}` of a replica map.
pub open spec fn replica_members(s: Seq<(String, usize)>) -> Seq<(Seq<char>, Json)>
    decreases s.len(),
{
    if s.len() == 0 {
        Seq::empty()
    } else {
        replica_members(s.subrange(0, s.len() - 1)).push(
            (s[s.len() - 1].0@, Json::Number(s[s.len() - 1].1 as int)),
        )
    }
}

/// Options of `reconfigure`.
#[derive(Debug)]
pub struct ReconfigureOption {
    pub shards: Option<u8>,
    pub replicas: Option<Replicas>,
    pub dry_run: Option<bool>,
    pub emergency_repair: Option<EmergencyRepair>,
}

/// The tags of a replica map are distinct, as the keys of a map are, and
/// each count fits a JSON integer of the wire (an `i64`).
pub open spec fn tags_well_formed(s: Seq<(String, usize)>) -> bool {
    &&& forall|i: int, j: int| 0 <= i < j < s.len() ==> (#[trigger] s[i]).0@ != (#[trigger] s[j]).0@
    &&& forall|i: int| 0 <= i < s.len() ==> (#[trigger] s[i]).1 <= i64::MAX
}

impl ReconfigureOption {
    /// The replicas can be written: a count that fits an `i64`, or a
    /// well-formed replica map (see `tags_well_formed`).
    pub open spec fn well_formed(self) -> bool {
        match self.replicas {
            Some(Replicas::Int(n)) => n <= i64::MAX,
            Some(Replicas::Tagged { replicas, primary_replica_tag: _ }) => tags_well_formed(replicas@),
            None => true,
        }
    }

    /// The options as the server reads them: `dry_run`, `emergency_repair`,
    /// `shards`, `replicas`, then `primary_replica_tag` for a replica map.
    pub open spec fn spec_opts(self) -> Seq<(Seq<char>, Term)> {
        opt_if(self.dry_run is Some, "dry_run"@, bool_term(self.dry_run->Some_0)) + opt_if(
            self.emergency_repair is Some,
            "emergency_repair"@,
            str_term(repair_name(self.emergency_repair->Some_0)),
        ) + opt_if(
            self.shards is Some,
            "shards"@,
            Term::Literal(Json::Number(self.shards->Some_0 as int)),
        ) + match self.replicas {
            Some(Replicas::Int(n)) => seq![("replicas"@, Term::Literal(Json::Number(n as int)))],
            Some(Replicas::Tagged { replicas, primary_replica_tag }) => seq![
                ("replicas"@, Term::Literal(Json::Object(replica_members(replicas@)))),
                ("primary_replica_tag"@, str_term(primary_replica_tag@)),
            ],
            None => Seq::empty(),
        }
    }

    /// No option set.
    pub fn new() -> (res: ReconfigureOption)
        ensures
            res.shards is None && res.replicas is None && res.dry_run is None
                && res.emergency_repair is None,
    {
        ReconfigureOption { shards: None, replicas: None, dry_run: None, emergency_repair: None }
    }

    /// Sets the number of shards.
    pub fn shards(self, shards: u8) -> (res: ReconfigureOption)
        ensures
            res.shards == Some(shards),
            res.replicas == self.replicas,
            res.dry_run == self.dry_run,
            res.emergency_repair == self.emergency_repair,
    {
        ReconfigureOption { shards: Some(shards), ..self }
    }

    /// Sets the replicas.
    pub fn replicas(self, replicas: Replicas) -> (res: ReconfigureOption)
        ensures
            res.shards == self.shards,
            res.replicas == Some(replicas),
            res.dry_run == self.dry_run,
            res.emergency_repair == self.emergency_repair,
    {
        ReconfigureOption { replicas: Some(replicas), ..self }
    }

    /// The options that are set, by name (see `spec_opts`).
    pub fn to_opts(&self) -> (res: Vec<(String, Command)>)
        requires
            self.well_formed(),
        ensures
            options_model(res) == self.spec_opts(),
    {
        let mut res: Vec<(String, Command)> = Vec::new();
        proof {
            assert(options_model(res) =~= Seq::<(Seq<char>, Term)>::empty());
        }
        match self.dry_run {
            Some(b) => push_opt(&mut res, "dry_run", bool_lit(b)),
            None => {},
        }
        let repair = match self.emergency_repair {
            Some(EmergencyRepair::UnsafeRollback) => Some("unsafe_rollback"),
            Some(EmergencyRepair::UnsafeRollbackOrErase) => Some("unsafe_rollback_or_erase"),
            None => None,
        };
        match repair {
            Some(n) => push_opt(&mut res, "emergency_repair", Command::string(n)),
            None => {},
        }
        match self.shards {
            Some(n) => push_opt(&mut res, "shards", Command::from_json(Datum::Number(n as i64))),
            None => {},
        }
        let ghost before = options_model(res);
        match &self.replicas {
            Some(Replicas::Int(n)) => {
                push_opt(&mut res, "replicas", Command::from_json(Datum::Number(*n as i64)));
            },
            Some(Replicas::Tagged { replicas, primary_replica_tag }) => {
                let map = replica_object(replicas);
                push_opt(&mut res, "replicas", Command::from_json(map));
                push_opt(&mut res, "primary_replica_tag", Command::string(primary_replica_tag.as_str()));
            },
            None => {},
        }
        proof {
            assert(options_model(res) =~= self.spec_opts());
        }
        res
    }
}

fn replica_object(replicas: &Vec<(String, usize)>) -> (res: Datum)
    requires
        tags_well_formed(replicas@),
    ensures
        res@ == Json::Object(replica_members(replicas@)),
{
    let mut out: Vec<(String, Datum)> = Vec::new();
    let mut i: usize = 0;
    while i < replicas.len()
        invariant
            i <= replicas.len(),
            tags_well_formed(replicas@),
            crate::datum::member_models(out@) == replica_members(replicas@.subrange(0, i as int)),
        decreases replicas.len() - i,
    {
        let tag = owned(replicas[i].0.as_str());
        assert(tag@ =~= replicas@[i as int].0@);
        let ghost before = out@;
        let count = Datum::Number(replicas[i].1 as i64);
        assert(datum_model(count) == Json::Number(replicas@[i as int].1 as int));
        out.push((tag, count));
        proof {
            assert(out@.subrange(0, out@.len() - 1) =~= before);
            assert(out@[out@.len() - 1].0@ == replicas@[i as int].0@);
            assert(crate::datum::member_models(out@) == crate::datum::member_models(before).push(
                (replicas@[i as int].0@, Json::Number(replicas@[i as int].1 as int)),
            ));
            let t = replicas@.subrange(0, i + 1);
            assert(t.subrange(0, t.len() - 1) =~= replicas@.subrange(0, i as int));
        }
        i = i + 1;
    }
    proof {
        assert(replicas@.subrange(0, replicas@.len() as int) =~= replicas@);
    }
    Datum::Object(out)
}

} // verus!

use vstd::prelude::*;

use crate::datum::{datum_model, owned, json_quote, json_wire, nat_text, quote, write_nat, Datum, Json};
use crate::term_type::TermType;

verus! {

/// Mathematical model of a query term.
pub enum Term {
    /// A JSON value standing for itself.
    Literal(Json),
    /// An operation: its kind, its positional arguments and its named options.
    Node(TermType, Seq<Term>, Seq<(Seq<char>, Term)>),
}

/// A node of a query: a literal value, or an operation with positional
/// arguments and named options, each of them a query in turn.
#[derive(Debug)]
pub enum Command {
    Literal(Datum),
    Node(TermType, Vec<Command>, Vec<(String, Command)>),
}

pub open spec fn term_model(c: Command) -> Term
    decreases c,
{
    match c {
        Command::Literal(d) => Term::Literal(datum_model(d)),
        Command::Node(k, args, opts) => Term::Node(k, term_models(args@), option_models(opts@)),
    }
}

pub open spec fn term_models(s: Seq<Command>) -> Seq<Term>
    decreases s,
{
    if s.len() == 0 {
        Seq::empty()
    } else {
        term_models(s.subrange(0, s.len() - 1)).push(term_model(s[s.len() - 1]))
    }
}

pub open spec fn option_models(s: Seq<(String, Command)>) -> Seq<(Seq<char>, Term)>
    decreases s,
{
    if s.len() == 0 {
        Seq::empty()
    } else {
        option_models(s.subrange(0, s.len() - 1)).push(
            (s[s.len() - 1].0@, term_model(s[s.len() - 1].1)),
        )
    }
}

impl View for Command {
    type V = Term;

    open spec fn view(&self) -> Term {
        term_model(*self)
    }
}

pub proof fn lemma_term_models(s: Seq<Command>)
    ensures
        term_models(s).len() == s.len(),
        forall|i: int| 0 <= i < s.len() ==> #[trigger] term_models(s)[i] == term_model(s[i]),
    decreases s.len(),
{
    if s.len() > 0 {
        lemma_term_models(s.subrange(0, s.len() - 1));
    }
}

pub proof fn lemma_option_models(s: Seq<(String, Command)>)
    ensures
        option_models(s).len() == s.len(),
        forall|i: int|
            0 <= i < s.len() ==> #[trigger] option_models(s)[i] == (s[i].0@, term_model(s[i].1)),
    decreases s.len(),
{
    if s.len() > 0 {
        lemma_option_models(s.subrange(0, s.len() - 1));
    }
}

/// An operation node with the given arguments and no options.
pub open spec fn node(k: TermType, args: Seq<Term>) -> Term {
    Term::Node(k, args, Seq::empty())
}

/// The wire text of a term: a literal as its JSON (`json_wire`); an operation
/// as `[code,[args...]]`, or `[code,[args...],{options...}]` when it has options.
pub open spec fn wire(t: Term) -> Seq<char>
    decreases t,
{
    match t {
        Term::Literal(j) => json_wire(j),
        Term::Node(k, args, opts) => "["@ + nat_text(k.spec_code()) + ",["@ + args_wire(args)
            + "]"@ + (if opts.len() == 0 {
            Seq::empty()
        } else {
            ",{"@ + members_wire(opts) + "}"@
        }) + "]"@,
    }
}

/// Comma-separated wire text of positional arguments.
pub open spec fn args_wire(s: Seq<Term>) -> Seq<char>
    decreases s,
{
    if s.len() == 0 {
        Seq::empty()
    } else if s.len() == 1 {
        wire(s[0])
    } else {
        args_wire(s.subrange(0, s.len() - 1)) + ","@ + wire(s[s.len() - 1])
    }
}

/// Comma-separated `"name":term` text of named options.
pub open spec fn members_wire(s: Seq<(Seq<char>, Term)>) -> Seq<char>
    decreases s,
{
    if s.len() == 0 {
        Seq::empty()
    } else if s.len() == 1 {
        json_quote(s[0].0) + ":"@ + wire(s[0].1)
    } else {
        members_wire(s.subrange(0, s.len() - 1)) + ","@ + json_quote(s[s.len() - 1].0) + ":"@
            + wire(s[s.len() - 1].1)
    }
}

/// What `with_arg` makes of a term: one more argument at the end of a node.
pub open spec fn push_arg(t: Term, a: Term) -> Term {
    match t {
        Term::Node(k, args, opts) => Term::Node(k, args.push(a), opts),
        Term::Literal(_) => t,
    }
}

/// What `with_parent` makes of a term: `p` before the arguments of a node.
pub open spec fn prepend_arg(t: Term, p: Term) -> Term {
    match t {
        Term::Node(k, args, opts) => Term::Node(k, seq![p] + args, opts),
        Term::Literal(_) => t,
    }
}

/// What `with_opts` makes of a term: a node whose options are `o`.
pub open spec fn set_opts(t: Term, o: Seq<(Seq<char>, Term)>) -> Term {
    match t {
        Term::Node(k, args, _) => Term::Node(k, args, o),
        Term::Literal(_) => t,
    }
}

/// Model of a list of commands.
pub open spec fn commands_model(v: Vec<Command>) -> Seq<Term> {
    term_models(v@)
}

/// Model of a list of named options.
pub open spec fn options_model(v: Vec<(String, Command)>) -> Seq<(Seq<char>, Term)> {
    option_models(v@)
}

impl Datum {
    /// A copy of this value.
    pub fn duplicate(&self) -> (res: Datum)
        ensures
            res@ == self@,
        decreases self,
    {
        match self {
            Datum::Null => Datum::Null,
            Datum::Bool(b) => Datum::Bool(*b),
            Datum::Number(n) => Datum::Number(*n),
            Datum::Decimal(t) => Datum::Decimal(owned(t.as_str())),
            Datum::Str(s) => Datum::Str(owned(s.as_str())),
            Datum::Array(items) => {
                let mut out: Vec<Datum> = Vec::new();
                let mut i: usize = 0;
                proof {
                    crate::datum::lemma_datum_models(items@);
                }
                while i < items.len()
                    invariant
                        i <= items.len(),
                        *self == Datum::Array(*items),
                        out@.len() == i,
                        crate::datum::datum_models(out@) =~= crate::datum::datum_models(
                            items@,
                        ).subrange(0, i as int),
                        crate::datum::datum_models(items@).len() == items@.len(),
                        forall|k: int|
                            0 <= k < items@.len() ==> #[trigger] crate::datum::datum_models(
                                items@,
                            )[k] == datum_model(items@[k]),
                    decreases items.len() - i,
                {
                    proof {
                        assert(decreases_to!(*self => self->Array_0));
                    }
                    let d = items[i].duplicate();
                    let ghost before = out@;
                    out.push(d);
                    proof {
                        assert(out@.subrange(0, out@.len() - 1) =~= before);
                    }
                    i = i + 1;
                }
                proof {
                    assert(crate::datum::datum_models(items@).subrange(0, items@.len() as int)
                        =~= crate::datum::datum_models(items@));
                }
                Datum::Array(out)
            },
            Datum::Object(members) => {
                let mut out: Vec<(String, Datum)> = Vec::new();
                let mut i: usize = 0;
                proof {
                    crate::datum::lemma_member_models(members@);
                }
                while i < members.len()
                    invariant
                        i <= members.len(),
                        *self == Datum::Object(*members),
                        out@.len() == i,
                        crate::datum::member_models(out@) =~= crate::datum::member_models(
                            members@,
                        ).subrange(0, i as int),
                        crate::datum::member_models(members@).len() == members@.len(),
                        forall|k: int|
                            0 <= k < members@.len() ==> #[trigger] crate::datum::member_models(
                                members@,
                            )[k] == (members@[k].0@, datum_model(members@[k].1)),
                    decreases members.len() - i,
                {
                    proof {
                        assert(decreases_to!(*self => self->Object_0));
                        assert(decreases_to!(members@[i as int] => members@[i as int].1));
                    }
                    let d = members[i].1.duplicate();
                    let key = owned(members[i].0.as_str());
                    let ghost before = out@;
                    out.push((key, d));
                    proof {
                        assert(out@.subrange(0, out@.len() - 1) =~= before);
                    }
                    i = i + 1;
                }
                proof {
                    assert(crate::datum::member_models(members@).subrange(
                        0,
                        members@.len() as int,
                    ) =~= crate::datum::member_models(members@));
                }
                Datum::Object(out)
            },
        }
    }
}

impl Command {
    /// An operation node of kind `kind`, without arguments or options.
    pub fn new(kind: TermType) -> (res: Command)
        ensures
            res@ == node(kind, seq![]),
    {
        let res = Command::Node(kind, Vec::new(), Vec::new());
        proof {
            assert(term_models(Seq::<Command>::empty()) =~= Seq::<Term>::empty());
            assert(option_models(Seq::<(String, Command)>::empty()) =~= Seq::<
                (Seq<char>, Term),
            >::empty());
        }
        res
    }

    /// A literal: the JSON value `value` standing for itself.
    pub fn from_json(value: Datum) -> (res: Command)
        ensures
            res@ == Term::Literal(value@),
    {
        Command::Literal(value)
    }

    /// Appends `arg` to the arguments of a node; a literal is returned unchanged.
    pub fn with_arg(self, arg: Command) -> (res: Command)
        ensures
            res@ == push_arg(self@, arg@),
    {
        match self {
            Command::Node(k, args, opts) => {
                let mut args = args;
                let ghost before = args@;
                args.push(arg);
                proof {
                    assert(args@.subrange(0, args@.len() - 1) =~= before);
                }
                Command::Node(k, args, opts)
            },
            Command::Literal(d) => Command::Literal(d),
        }
    }

    /// Appends each of `extra`, in order, to the arguments of a node; a literal
    /// is returned unchanged.
    pub fn with_args(self, extra: Vec<Command>) -> (res: Command)
        ensures
            self@ is Node ==> res@ == Term::Node(
                self@->Node_0,
                self@->Node_1 + commands_model(extra),
                self@->Node_2,
            ),
            self@ is Literal ==> res@ == self@,
    {
        let mut res = self;
        let mut rest = extra;
        let ghost all = term_models(rest@);
        let ghost start = res@;
        proof {
            lemma_term_models(rest@);
        }
        let ghost mut i: int = 0;
        while rest.len() > 0
            invariant
                0 <= i <= all.len(),
                rest@.len() == all.len() - i,
                forall|k: int| 0 <= k < rest@.len() ==> #[trigger] term_model(rest@[k]) == all[i + k],
                start is Node ==> res@ == Term::Node(
                    start->Node_0,
                    start->Node_1 + all.subrange(0, i),
                    start->Node_2,
                ),
                start is Literal ==> res@ == start,
            decreases rest.len(),
        {
            let ghost before = rest@;
            let c = rest.remove(0);
            proof {
                assert(term_model(before[0]) == all[i + 0]);
                assert forall|k: int| 0 <= k < rest@.len() implies #[trigger] term_model(rest@[k])
                    == all[(i + 1) + k] by {
                    assert(rest@[k] == before[k + 1]);
                }
            }
            res = res.with_arg(c);
            proof {
                if start is Node {
                    assert(start->Node_1 + all.subrange(0, i + 1) =~= (start->Node_1
                        + all.subrange(0, i)).push(all[i]));
                }
                i = i + 1;
            }
        }
        proof {
            assert(all.subrange(0, i) =~= all);
        }
        res
    }

    /// Puts `parent` before the arguments of a node, so that a chained call
    /// reads as the application of this node to `parent`; a literal is
    /// returned unchanged.
    pub fn with_parent(self, parent: Command) -> (res: Command)
        ensures
            res@ == prepend_arg(self@, parent@),
    {
        match self {
            Command::Node(k, args, opts) => {
                let mut args = args;
                let ghost before = args@;
                args.insert(0, parent);
                proof {
                    lemma_term_models(before);
                    lemma_term_models(args@);
                    assert(term_models(args@) =~= seq![term_model(args@[0])] + term_models(
                        before,
                    ));
                }
                Command::Node(k, args, opts)
            },
            Command::Literal(d) => Command::Literal(d),
        }
    }

    /// Gives a node the named options `opts`, in place of those it had; a
    /// literal is returned unchanged.
    pub fn with_opts(self, opts: Vec<(String, Command)>) -> (res: Command)
        ensures
            res@ == set_opts(self@, options_model(opts)),
    {
        match self {
            Command::Node(k, args, _) => Command::Node(k, args, opts),
            Command::Literal(d) => Command::Literal(d),
        }
    }

    /// A copy of this query.
    pub fn duplicate(&self) -> (res: Command)
        ensures
            res@ == self@,
        decreases self,
    {
        match self {
            Command::Literal(d) => Command::Literal(d.duplicate()),
            Command::Node(k, args, opts) => {
                let mut new_args: Vec<Command> = Vec::new();
                let mut i: usize = 0;
                proof {
                    lemma_term_models(args@);
                }
                while i < args.len()
                    invariant
                        i <= args.len(),
                        *self == Command::Node(*k, *args, *opts),
                        new_args@.len() == i,
                        term_models(new_args@) =~= term_models(args@).subrange(0, i as int),
                        term_models(args@).len() == args@.len(),
                        forall|j: int|
                            0 <= j < args@.len() ==> #[trigger] term_models(args@)[j]
                                == term_model(args@[j]),
                    decreases args.len() - i,
                {
                    proof {
                        assert(decreases_to!(*self => self->Node_1));
                    }
                    let c = args[i].duplicate();
                    let ghost before = new_args@;
                    new_args.push(c);
                    proof {
                        assert(new_args@.subrange(0, new_args@.len() - 1) =~= before);
                    }
                    i = i + 1;
                }
                let mut new_opts: Vec<(String, Command)> = Vec::new();
                let mut i: usize = 0;
                proof {
                    lemma_option_models(opts@);
                }
                while i < opts.len()
                    invariant
                        i <= opts.len(),
                        *self == Command::Node(*k, *args, *opts),
                        new_opts@.len() == i,
                        option_models(new_opts@) =~= option_models(opts@).subrange(0, i as int),
                        option_models(opts@).len() == opts@.len(),
                        forall|j: int|
                            0 <= j < opts@.len() ==> #[trigger] option_models(opts@)[j] == (
                                opts@[j].0@,
                                term_model(opts@[j].1),
                            ),
                    decreases opts.len() - i,
                {
                    proof {
                        assert(decreases_to!(*self => self->Node_2));
                        assert(decreases_to!(opts@[i as int] => opts@[i as int].1));
                    }
                    let c = opts[i].1.duplicate();
                    let key = owned(opts[i].0.as_str());
                    let ghost before = new_opts@;
                    new_opts.push((key, c));
                    proof {
                        assert(new_opts@.subrange(0, new_opts@.len() - 1) =~= before);
                    }
                    i = i + 1;
                }
                proof {
                    assert(term_models(args@).subrange(0, args@.len() as int) =~= term_models(
                        args@,
                    ));
                    assert(option_models(opts@).subrange(0, opts@.len() as int)
                        =~= option_models(opts@));
                }
                Command::Node(*k, new_args, new_opts)
            },
        }
    }

    /// Appends the wire text of this query (see `wire`).
    pub fn write_wire(&self, out: &mut String)
        ensures
            final(out)@ == old(out)@ + wire(self@),
        decreases self,
    {
        let ghost start = old(out)@;
        match self {
            Command::Literal(d) => d.write_wire(out),
            Command::Node(k, args, opts) => {
                let ghost am = term_models(args@);
                let ghost om = option_models(opts@);
                proof {
                    lemma_term_models(args@);
                    lemma_option_models(opts@);
                }
                out.append("[");
                write_nat(out, k.code() as u64);
                out.append(",[");
                let ghost head = out@;
                let mut i: usize = 0;
                while i < args.len()
                    invariant
                        i <= args.len(),
                        *self == Command::Node(*k, *args, *opts),
                        am == term_models(args@),
                        am.len() == args@.len(),
                        forall|j: int| 0 <= j < args@.len() ==> #[trigger] am[j] == term_model(args@[j]),
                        out@ == head + args_wire(am.subrange(0, i as int)),
                    decreases args.len() - i,
                {
                    if i > 0 {
                        out.append(",");
                    }
                    proof {
                        assert(decreases_to!(*self => self->Node_1));
                    }
                    args[i].write_wire(out);
                    proof {
                        let t = am.subrange(0, i + 1);
                        assert(t.subrange(0, t.len() - 1) =~= am.subrange(0, i as int));
                    }
                    i = i + 1;
                }
                proof {
                    assert(am.subrange(0, args@.len() as int) =~= am);
                }
                out.append("]");
                let ghost mid = out@;
                if opts.len() > 0 {
                    out.append(",{");
                    let ghost ohead = out@;
                    let mut i: usize = 0;
                    while i < opts.len()
                        invariant
                            i <= opts.len(),
                            *self == Command::Node(*k, *args, *opts),
                            om == option_models(opts@),
                            om.len() == opts@.len(),
                            forall|j: int|
                                0 <= j < opts@.len() ==> #[trigger] om[j] == (
                                    opts@[j].0@,
                                    term_model(opts@[j].1),
                                ),
                            out@ == ohead + members_wire(om.subrange(0, i as int)),
                        decreases opts.len() - i,
                    {
                        if i > 0 {
                            out.append(",");
                        }
                        let q = quote(opts[i].0.as_str());
                        out.append(q.as_str());
                        out.append(":");
                        proof {
                            assert(decreases_to!(*self => self->Node_2));
                            assert(decreases_to!(opts@[i as int] => opts@[i as int].1));
                        }
                        opts[i].1.write_wire(out);
                        proof {
                            let t = om.subrange(0, i + 1);
                            assert(t.subrange(0, t.len() - 1) =~= om.subrange(0, i as int));
                        }
                        i = i + 1;
                    }
                    proof {
                        assert(om.subrange(0, opts@.len() as int) =~= om);
                    }
                    out.append("}");
                }
                out.append("]");
                proof {
                    assert(out@ =~= start + wire(self@));
                }
            },
        }
    }

    /// A string literal.
    pub fn string(s: &str) -> (res: Command)
        ensures
            res@ == Term::Literal(Json::Str(s@)),
    {
        let t = owned(s);
        Command::Literal(Datum::Str(t))
    }

    /// A node of kind `k` whose arguments are the models of `args`.
    pub fn node_of(k: TermType, args: Vec<Command>) -> (res: Command)
        ensures
            res@ == node(k, commands_model(args)),
    {
        let res = Command::new(k).with_args(args);
        proof {
            assert(Seq::<Term>::empty() + commands_model(args) =~= commands_model(args));
        }
        res
    }

    /// A node of kind `k` with the one argument `a`.
    pub fn unary(k: TermType, a: Command) -> (res: Command)
        ensures
            res@ == node(k, seq![a@]),
    {
        let res = Command::new(k).with_arg(a);
        proof {
            assert(Seq::<Term>::empty().push(a@) =~= seq![a@]);
        }
        res
    }

    /// A node of kind `k` with the arguments `a` and `b`.
    pub fn binary(k: TermType, a: Command, b: Command) -> (res: Command)
        ensures
            res@ == node(k, seq![a@, b@]),
    {
        let res = Command::new(k).with_arg(a).with_arg(b);
        proof {
            assert(Seq::<Term>::empty().push(a@).push(b@) =~= seq![a@, b@]);
        }
        res
    }

    /// The wire text of this query.
    pub fn serialise(&self) -> (res: String)
        ensures
            res@ == wire(self@),
    {
        let mut res = String::new();
        self.write_wire(&mut res);
        proof {
            assert(res@ =~= wire(self@));
        }
        res
    }
}

/// A node of kind `k` applied to a copy of `parent`.
pub(crate) fn chain0(k: TermType, parent: &Command) -> (res: Command)
    ensures
        res@ == node(k, seq![parent@]),
{
    let res = Command::new(k).with_parent(parent.duplicate());
    proof {
        assert(seq![parent@] + Seq::<Term>::empty() =~= seq![parent@]);
    }
    res
}

/// A node of kind `k` applied to a copy of `parent` and to `a`.
pub(crate) fn chain1(k: TermType, parent: &Command, a: Command) -> (res: Command)
    ensures
        res@ == node(k, seq![parent@, a@]),
{
    let res = Command::new(k).with_arg(a).with_parent(parent.duplicate());
    proof {
        assert(seq![parent@] + Seq::<Term>::empty().push(a@) =~= seq![parent@, a@]);
    }
    res
}

/// A node of kind `k` applied to a copy of `parent`, to `a` and to `b`.
pub(crate) fn chain2(k: TermType, parent: &Command, a: Command, b: Command) -> (res: Command)
    ensures
        res@ == node(k, seq![parent@, a@, b@]),
{
    let res = Command::new(k).with_arg(a).with_arg(b).with_parent(parent.duplicate());
    proof {
        assert(seq![parent@] + Seq::<Term>::empty().push(a@).push(b@) =~= seq![
            parent@,
            a@,
            b@,
        ]);
    }
    res
}

/// A node of kind `k` applied to a copy of `parent` and then to each of `args`.
pub(crate) fn chain_n(k: TermType, parent: &Command, args: Vec<Command>) -> (res: Command)
    ensures
        res@ == node(k, seq![parent@] + commands_model(args)),
{
    let res = Command::node_of(k, args).with_parent(parent.duplicate());
    res
}

} // verus!

use vstd::prelude::*;

use crate::command::{
    chain1, lemma_option_models, node, option_models, set_opts, Command, Term,
};
use crate::datum::{Datum, Json};
use crate::options::{push_opt, str_term, ReconfigureOption};
use crate::term_type::TermType;

verus! {

/// Hands out the next variable number: the value of `*next`, which then
/// moves on by one.
pub fn var_counter(next: &mut u64) -> (id: u64)
    requires
        *old(next) < u64::MAX,
    ensures
        id == *old(next),
        *final(next) == *old(next) + 1,
{
    let id = *next;
    *next = id + 1;
    id
}

pub open spec fn number_term(n: int) -> Term {
    Term::Literal(Json::Number(n))
}

/// The numbers `ids` as literal terms.
pub open spec fn number_terms(ids: Seq<i64>) -> Seq<Term> {
    Seq::new(ids.len(), |i: int| number_term(ids[i] as int))
}

impl Command {
    /// The variable number `id` of an enclosing function: `[10,[id]]`.
    pub fn var(id: i64) -> (res: Command)
        ensures
            res@ == node(TermType::Var, seq![number_term(id as int)]),
    {
        let res = Command::new(TermType::Var).with_arg(Command::from_json(Datum::Number(id)));
        proof {
            assert(Seq::<Term>::empty().push(number_term(id as int)) =~= seq![
                number_term(id as int),
            ]);
        }
        res
    }

    /// The function of the variables `params` whose result is `body`:
    /// `[69,[[2,[params...]],body]]`.
    pub fn func(params: Vec<i64>, body: Command) -> (res: Command)
        ensures
            res@ == node(
                TermType::Func,
                seq![node(TermType::MakeArray, number_terms(params@)), body@],
            ),
    {
        let mut ids = Command::new(TermType::MakeArray);
        let mut i: usize = 0;
        proof {
            assert(number_terms(params@.subrange(0, 0)) =~= Seq::<Term>::empty());
        }
        while i < params.len()
            invariant
                i <= params.len(),
                ids@ == node(TermType::MakeArray, number_terms(params@.subrange(0, i as int))),
            decreases params.len() - i,
        {
            ids = ids.with_arg(Command::from_json(Datum::Number(params[i])));
            proof {
                assert(number_terms(params@.subrange(0, i + 1)) =~= number_terms(
                    params@.subrange(0, i as int),
                ).push(number_term(params@[i as int] as int)));
            }
            i = i + 1;
        }
        proof {
            assert(params@.subrange(0, params@.len() as int) =~= params@);
        }
        let res = Command::new(TermType::Func).with_arg(ids).with_arg(body);
        proof {
            assert(Seq::<Term>::empty().push(node(TermType::MakeArray, number_terms(params@))).push(
                body@,
            ) =~= seq![node(TermType::MakeArray, number_terms(params@)), body@]);
        }
        res
    }

    /// `do_`: calls the function `expr` on this query: `[64,[expr,this]]`.
    pub fn do_(&self, expr: Command) -> (res: Command)
        ensures
            res@ == node(TermType::Funcall, seq![expr@, self@]),
    {
        let res = Command::new(TermType::Funcall).with_arg(expr).with_arg(self.duplicate());
        proof {
            assert(Seq::<Term>::empty().push(expr@).push(self@) =~= seq![expr@, self@]);
        }
        res
    }

    /// `get_intersecting`: the documents of this table whose geometry in the
    /// geospatial index `index` intersects `geometry`.
    pub fn get_intersecting(&self, geometry: Command, index: &str) -> (res: Command)
        ensures
            res@ == set_opts(
                node(TermType::GetIntersecting, seq![self@, geometry@]),
                seq![("index"@, str_term(index@))],
            ),
    {
        let mut opts: Vec<(String, Command)> = Vec::new();
        push_opt(&mut opts, "index", Command::string(index));
        proof {
            lemma_option_models(opts@);
            assert(option_models(opts@) =~= seq![("index"@, str_term(index@))]);
        }
        chain1(TermType::GetIntersecting, self, geometry).with_opts(opts)
    }

    /// `reconfigure`: changes the shards and replicas of this table.
    pub fn reconfigure(&self, opts: ReconfigureOption) -> (res: Command)
        requires
            opts.well_formed(),
        ensures
            res@ == Term::Node(TermType::Reconfigure, seq![self@], opts.spec_opts()),
    {
        let o = opts.to_opts();
        let res = crate::command::chain0(TermType::Reconfigure, self).with_opts(o);
        res
    }
}

/// `concat_map` as a typed builder: the node alone.
pub struct ConcatMapBuilder {
    pub command: Command,
}

impl ConcatMapBuilder {
    /// Maps each element with `func` and concatenates the results.
    pub fn new(func: Command) -> (res: ConcatMapBuilder)
        ensures
            res.command@ == node(TermType::ConcatMap, seq![func@]),
    {
        ConcatMapBuilder { command: Command::unary(TermType::ConcatMap, func) }
    }
}

/// `limit` as a typed builder: the node alone.
pub struct LimitBuilder {
    pub command: Command,
}

impl LimitBuilder {
    /// Keeps the first `n` elements.
    pub fn new(n: Command) -> (res: LimitBuilder)
        ensures
            res.command@ == node(TermType::Limit, seq![n@]),
    {
        LimitBuilder { command: Command::unary(TermType::Limit, n) }
    }
}

/// `outer_join` as a typed builder: the node alone.
pub struct OuterJoinBuilder {
    pub command: Command,
}

impl OuterJoinBuilder {
    /// Joins with `other_table` on the predicate `func`, keeping unmatched rows.
    pub fn new(other_table: Command, func: Command) -> (res: OuterJoinBuilder)
        ensures
            res.command@ == node(TermType::OuterJoin, seq![other_table@, func@]),
    {
        OuterJoinBuilder { command: Command::binary(TermType::OuterJoin, other_table, func) }
    }
}

/// `polygon_sub` as a typed builder: the node alone.
pub struct PolygonSubBuilder {
    pub command: Command,
}

impl PolygonSubBuilder {
    /// Cuts the polygon `polygon` out of the one this applies to.
    pub fn new(polygon: Command) -> (res: PolygonSubBuilder)
        ensures
            res.command@ == node(TermType::PolygonSub, seq![polygon@]),
    {
        PolygonSubBuilder { command: Command::unary(TermType::PolygonSub, polygon) }
    }
}

/// `set_intersection` as a typed builder: the node alone.
pub struct SetIntersectionBuilder {
    pub command: Command,
}

impl SetIntersectionBuilder {
    /// The elements that are also in the array `values`.
    pub fn new(values: Command) -> (res: SetIntersectionBuilder)
        ensures
            res.command@ == node(TermType::SetIntersection, seq![values@]),
    {
        SetIntersectionBuilder { command: Command::unary(TermType::SetIntersection, values) }
    }
}

} // verus!

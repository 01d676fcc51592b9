use vstd::prelude::*;

use crate::command::{chain0, chain1, chain2, chain_n, commands_model, node, Command, Term};
use crate::datum::Json;
use crate::term_type::TermType;

verus! {

impl Command {
    /// `changes`: a `Changes` node applied to this query.
    pub fn changes(&self) -> (res: Command)
        ensures
            res@ == node(TermType::Changes, seq![self@]),
    {
        chain0(TermType::Changes, self)
    }

    /// `table_create`: a `TableCreate` node applied to this query and the string `name`.
    pub fn table_create(&self, name: &str) -> (res: Command)
        ensures
            res@ == node(TermType::TableCreate, seq![self@, Term::Literal(Json::Str(name@))]),
    {
        chain1(TermType::TableCreate, self, Command::string(name))
    }

    /// `table_drop`: a `TableDrop` node applied to this query and the string `name`.
    pub fn table_drop(&self, name: &str) -> (res: Command)
        ensures
            res@ == node(TermType::TableDrop, seq![self@, Term::Literal(Json::Str(name@))]),
    {
        chain1(TermType::TableDrop, self, Command::string(name))
    }

    /// `table_list`: a `TableList` node applied to this query.
    pub fn table_list(&self) -> (res: Command)
        ensures
            res@ == node(TermType::TableList, seq![self@]),
    {
        chain0(TermType::TableList, self)
    }

    /// `table`: a `Table` node applied to this query and the string `name`.
    pub fn table(&self, name: &str) -> (res: Command)
        ensures
            res@ == node(TermType::Table, seq![self@, Term::Literal(Json::Str(name@))]),
    {
        chain1(TermType::Table, self, Command::string(name))
    }

    /// `index_create`: a `IndexCreate` node applied to this query and the string `index_name`.
    pub fn index_create(&self, index_name: &str) -> (res: Command)
        ensures
            res@ == node(TermType::IndexCreate, seq![self@, Term::Literal(Json::Str(index_name@))]),
    {
        chain1(TermType::IndexCreate, self, Command::string(index_name))
    }

    /// `index_drop`: a `IndexDrop` node applied to this query and the string `index_name`.
    pub fn index_drop(&self, index_name: &str) -> (res: Command)
        ensures
            res@ == node(TermType::IndexDrop, seq![self@, Term::Literal(Json::Str(index_name@))]),
    {
        chain1(TermType::IndexDrop, self, Command::string(index_name))
    }

    /// `index_list`: a `IndexList` node applied to this query.
    pub fn index_list(&self) -> (res: Command)
        ensures
            res@ == node(TermType::IndexList, seq![self@]),
    {
        chain0(TermType::IndexList, self)
    }

    /// `index_rename`: a `IndexRename` node applied to this query, `old_name` and `new_name`.
    pub fn index_rename(&self, old_name: Command, new_name: Command) -> (res: Command)
        ensures
            res@ == node(TermType::IndexRename, seq![self@, old_name@, new_name@]),
    {
        chain2(TermType::IndexRename, self, old_name, new_name)
    }

    /// `index_status`: a `IndexStatus` node applied to this query and then each of `index_names`.
    pub fn index_status(&self, index_names: Vec<Command>) -> (res: Command)
        ensures
            res@ == node(TermType::IndexStatus, seq![self@] + commands_model(index_names)),
    {
        chain_n(TermType::IndexStatus, self, index_names)
    }

    /// `index_wait`: a `IndexWait` node applied to this query and then each of `index_names`.
    pub fn index_wait(&self, index_names: Vec<Command>) -> (res: Command)
        ensures
            res@ == node(TermType::IndexWait, seq![self@] + commands_model(index_names)),
    {
        chain_n(TermType::IndexWait, self, index_names)
    }

    /// `set_write_hook`: a `SetWriteHook` node applied to this query and `func`.
    pub fn set_write_hook(&self, func: Command) -> (res: Command)
        ensures
            res@ == node(TermType::SetWriteHook, seq![self@, func@]),
    {
        chain1(TermType::SetWriteHook, self, func)
    }

    /// `get_write_hook`: a `GetWriteHook` node applied to this query.
    pub fn get_write_hook(&self) -> (res: Command)
        ensures
            res@ == node(TermType::GetWriteHook, seq![self@]),
    {
        chain0(TermType::GetWriteHook, self)
    }

    /// `insert`: a `Insert` node applied to this query and `document`.
    pub fn insert(&self, document: Command) -> (res: Command)
        ensures
            res@ == node(TermType::Insert, seq![self@, document@]),
    {
        chain1(TermType::Insert, self, document)
    }

    /// `update`: a `Update` node applied to this query and `document`.
    pub fn update(&self, document: Command) -> (res: Command)
        ensures
            res@ == node(TermType::Update, seq![self@, document@]),
    {
        chain1(TermType::Update, self, document)
    }

    /// `replace`: a `Replace` node applied to this query and `document`.
    pub fn replace(&self, document: Command) -> (res: Command)
        ensures
            res@ == node(TermType::Replace, seq![self@, document@]),
    {
        chain1(TermType::Replace, self, document)
    }

    /// `delete`: a `Delete` node applied to this query.
    pub fn delete(&self) -> (res: Command)
        ensures
            res@ == node(TermType::Delete, seq![self@]),
    {
        chain0(TermType::Delete, self)
    }

    /// `sync`: a `Sync` node applied to this query.
    pub fn sync(&self) -> (res: Command)
        ensures
            res@ == node(TermType::Sync, seq![self@]),
    {
        chain0(TermType::Sync, self)
    }

    /// `get`: a `Get` node applied to this query and `key`.
    pub fn get(&self, key: Command) -> (res: Command)
        ensures
            res@ == node(TermType::Get, seq![self@, key@]),
    {
        chain1(TermType::Get, self, key)
    }

    /// `get_all`: a `GetAll` node applied to this query and then each of `keys`.
    pub fn get_all(&self, keys: Vec<Command>) -> (res: Command)
        ensures
            res@ == node(TermType::GetAll, seq![self@] + commands_model(keys)),
    {
        chain_n(TermType::GetAll, self, keys)
    }

    /// `between`: a `Between` node applied to this query, `lower_key` and `upper_key`.
    pub fn between(&self, lower_key: Command, upper_key: Command) -> (res: Command)
        ensures
            res@ == node(TermType::Between, seq![self@, lower_key@, upper_key@]),
    {
        chain2(TermType::Between, self, lower_key, upper_key)
    }

    /// `filter`: a `Filter` node applied to this query and `predicate`.
    pub fn filter(&self, predicate: Command) -> (res: Command)
        ensures
            res@ == node(TermType::Filter, seq![self@, predicate@]),
    {
        chain1(TermType::Filter, self, predicate)
    }

    /// `inner_join`: a `InnerJoin` node applied to this query, `other_sequence` and `func`.
    pub fn inner_join(&self, other_sequence: Command, func: Command) -> (res: Command)
        ensures
            res@ == node(TermType::InnerJoin, seq![self@, other_sequence@, func@]),
    {
        chain2(TermType::InnerJoin, self, other_sequence, func)
    }

    /// `outer_join`: a `OuterJoin` node applied to this query, `other_sequence` and `func`.
    pub fn outer_join(&self, other_sequence: Command, func: Command) -> (res: Command)
        ensures
            res@ == node(TermType::OuterJoin, seq![self@, other_sequence@, func@]),
    {
        chain2(TermType::OuterJoin, self, other_sequence, func)
    }

    /// `eq_join`: a `EqJoin` node applied to this query, `left_field` and `right_table`.
    pub fn eq_join(&self, left_field: Command, right_table: Command) -> (res: Command)
        ensures
            res@ == node(TermType::EqJoin, seq![self@, left_field@, right_table@]),
    {
        chain2(TermType::EqJoin, self, left_field, right_table)
    }

    /// `zip`: a `Zip` node applied to this query.
    pub fn zip(&self) -> (res: Command)
        ensures
            res@ == node(TermType::Zip, seq![self@]),
    {
        chain0(TermType::Zip, self)
    }

    /// `map`: a `MapEach` node applied to this query and `func`.
    pub fn map(&self, func: Command) -> (res: Command)
        ensures
            res@ == node(TermType::MapEach, seq![self@, func@]),
    {
        chain1(TermType::MapEach, self, func)
    }

    /// `with_fields`: a `WithFields` node applied to this query and then each of `fields`.
    pub fn with_fields(&self, fields: Vec<Command>) -> (res: Command)
        ensures
            res@ == node(TermType::WithFields, seq![self@] + commands_model(fields)),
    {
        chain_n(TermType::WithFields, self, fields)
    }

    /// `concat_map`: a `ConcatMap` node applied to this query and `func`.
    pub fn concat_map(&self, func: Command) -> (res: Command)
        ensures
            res@ == node(TermType::ConcatMap, seq![self@, func@]),
    {
        chain1(TermType::ConcatMap, self, func)
    }

    /// `order_by`: a `OrderBy` node applied to this query and then each of `keys`.
    pub fn order_by(&self, keys: Vec<Command>) -> (res: Command)
        ensures
            res@ == node(TermType::OrderBy, seq![self@] + commands_model(keys)),
    {
        chain_n(TermType::OrderBy, self, keys)
    }

    /// `skip`: a `Skip` node applied to this query and `n`.
    pub fn skip(&self, n: Command) -> (res: Command)
        ensures
            res@ == node(TermType::Skip, seq![self@, n@]),
    {
        chain1(TermType::Skip, self, n)
    }

    /// `limit`: a `Limit` node applied to this query and `n`.
    pub fn limit(&self, n: Command) -> (res: Command)
        ensures
            res@ == node(TermType::Limit, seq![self@, n@]),
    {
        chain1(TermType::Limit, self, n)
    }

    /// `slice`: a `Slice` node applied to this query and then each of `bounds`.
    pub fn slice(&self, bounds: Vec<Command>) -> (res: Command)
        ensures
            res@ == node(TermType::Slice, seq![self@] + commands_model(bounds)),
    {
        chain_n(TermType::Slice, self, bounds)
    }

    /// `nth`: a `Nth` node applied to this query and `index`.
    pub fn nth(&self, index: Command) -> (res: Command)
        ensures
            res@ == node(TermType::Nth, seq![self@, index@]),
    {
        chain1(TermType::Nth, self, index)
    }

    /// `offsets_of`: a `OffsetsOf` node applied to this query and `value`.
    pub fn offsets_of(&self, value: Command) -> (res: Command)
        ensures
            res@ == node(TermType::OffsetsOf, seq![self@, value@]),
    {
        chain1(TermType::OffsetsOf, self, value)
    }

    /// `is_empty`: a `IsEmpty` node applied to this query.
    pub fn is_empty(&self) -> (res: Command)
        ensures
            res@ == node(TermType::IsEmpty, seq![self@]),
    {
        chain0(TermType::IsEmpty, self)
    }

    /// `union`: a `Union` node applied to this query and then each of `sequences`.
    pub fn union(&self, sequences: Vec<Command>) -> (res: Command)
        ensures
            res@ == node(TermType::Union, seq![self@] + commands_model(sequences)),
    {
        chain_n(TermType::Union, self, sequences)
    }

    /// `sample`: a `Sample` node applied to this query and `number`.
    pub fn sample(&self, number: Command) -> (res: Command)
        ensures
            res@ == node(TermType::Sample, seq![self@, number@]),
    {
        chain1(TermType::Sample, self, number)
    }

    /// `group`: a `Group` node applied to this query and then each of `selectors`.
    pub fn group(&self, selectors: Vec<Command>) -> (res: Command)
        ensures
            res@ == node(TermType::Group, seq![self@] + commands_model(selectors)),
    {
        chain_n(TermType::Group, self, selectors)
    }

    /// `ungroup`: a `Ungroup` node applied to this query.
    pub fn ungroup(&self) -> (res: Command)
        ensures
            res@ == node(TermType::Ungroup, seq![self@]),
    {
        chain0(TermType::Ungroup, self)
    }

    /// `reduce`: a `Reduce` node applied to this query and `func`.
    pub fn reduce(&self, func: Command) -> (res: Command)
        ensures
            res@ == node(TermType::Reduce, seq![self@, func@]),
    {
        chain1(TermType::Reduce, self, func)
    }

    /// `fold`: a `Fold` node applied to this query, `base` and `func`.
    pub fn fold(&self, base: Command, func: Command) -> (res: Command)
        ensures
            res@ == node(TermType::Fold, seq![self@, base@, func@]),
    {
        chain2(TermType::Fold, self, base, func)
    }

    /// `count`: a `Count` node applied to this query and then each of `args`.
    pub fn count(&self, args: Vec<Command>) -> (res: Command)
        ensures
            res@ == node(TermType::Count, seq![self@] + commands_model(args)),
    {
        chain_n(TermType::Count, self, args)
    }

    /// `sum`: a `Sum` node applied to this query and then each of `args`.
    pub fn sum(&self, args: Vec<Command>) -> (res: Command)
        ensures
            res@ == node(TermType::Sum, seq![self@] + commands_model(args)),
    {
        chain_n(TermType::Sum, self, args)
    }

    /// `avg`: a `Avg` node applied to this query and then each of `args`.
    pub fn avg(&self, args: Vec<Command>) -> (res: Command)
        ensures
            res@ == node(TermType::Avg, seq![self@] + commands_model(args)),
    {
        chain_n(TermType::Avg, self, args)
    }

    /// `min`: a `Min` node applied to this query and then each of `args`.
    pub fn min(&self, args: Vec<Command>) -> (res: Command)
        ensures
            res@ == node(TermType::Min, seq![self@] + commands_model(args)),
    {
        chain_n(TermType::Min, self, args)
    }

    /// `max`: a `Max` node applied to this query and then each of `args`.
    pub fn max(&self, args: Vec<Command>) -> (res: Command)
        ensures
            res@ == node(TermType::Max, seq![self@] + commands_model(args)),
    {
        chain_n(TermType::Max, self, args)
    }

    /// `distinct`: a `Distinct` node applied to this query.
    pub fn distinct(&self) -> (res: Command)
        ensures
            res@ == node(TermType::Distinct, seq![self@]),
    {
        chain0(TermType::Distinct, self)
    }

    /// `contains`: a `Contains` node applied to this query and then each of `values`.
    pub fn contains(&self, values: Vec<Command>) -> (res: Command)
        ensures
            res@ == node(TermType::Contains, seq![self@] + commands_model(values)),
    {
        chain_n(TermType::Contains, self, values)
    }

    /// `pluck`: a `Pluck` node applied to this query and then each of `selectors`.
    pub fn pluck(&self, selectors: Vec<Command>) -> (res: Command)
        ensures
            res@ == node(TermType::Pluck, seq![self@] + commands_model(selectors)),
    {
        chain_n(TermType::Pluck, self, selectors)
    }

    /// `without`: a `Without` node applied to this query and then each of `selectors`.
    pub fn without(&self, selectors: Vec<Command>) -> (res: Command)
        ensures
            res@ == node(TermType::Without, seq![self@] + commands_model(selectors)),
    {
        chain_n(TermType::Without, self, selectors)
    }

    /// `merge`: a `Merge` node applied to this query and then each of `objects`.
    pub fn merge(&self, objects: Vec<Command>) -> (res: Command)
        ensures
            res@ == node(TermType::Merge, seq![self@] + commands_model(objects)),
    {
        chain_n(TermType::Merge, self, objects)
    }

    /// `append`: a `Append` node applied to this query and `value`.
    pub fn append(&self, value: Command) -> (res: Command)
        ensures
            res@ == node(TermType::Append, seq![self@, value@]),
    {
        chain1(TermType::Append, self, value)
    }

    /// `prepend`: a `Prepend` node applied to this query and `value`.
    pub fn prepend(&self, value: Command) -> (res: Command)
        ensures
            res@ == node(TermType::Prepend, seq![self@, value@]),
    {
        chain1(TermType::Prepend, self, value)
    }

    /// `difference`: a `Difference` node applied to this query and `array`.
    pub fn difference(&self, array: Command) -> (res: Command)
        ensures
            res@ == node(TermType::Difference, seq![self@, array@]),
    {
        chain1(TermType::Difference, self, array)
    }

    /// `set_insert`: a `SetInsert` node applied to this query and `value`.
    pub fn set_insert(&self, value: Command) -> (res: Command)
        ensures
            res@ == node(TermType::SetInsert, seq![self@, value@]),
    {
        chain1(TermType::SetInsert, self, value)
    }

    /// `set_union`: a `SetUnion` node applied to this query and `array`.
    pub fn set_union(&self, array: Command) -> (res: Command)
        ensures
            res@ == node(TermType::SetUnion, seq![self@, array@]),
    {
        chain1(TermType::SetUnion, self, array)
    }

    /// `set_intersection`: a `SetIntersection` node applied to this query and `array`.
    pub fn set_intersection(&self, array: Command) -> (res: Command)
        ensures
            res@ == node(TermType::SetIntersection, seq![self@, array@]),
    {
        chain1(TermType::SetIntersection, self, array)
    }

    /// `set_difference`: a `SetDifference` node applied to this query and `array`.
    pub fn set_difference(&self, array: Command) -> (res: Command)
        ensures
            res@ == node(TermType::SetDifference, seq![self@, array@]),
    {
        chain1(TermType::SetDifference, self, array)
    }

    /// `bracket`: a `Bracket` node applied to this query and `attr`.
    pub fn bracket(&self, attr: Command) -> (res: Command)
        ensures
            res@ == node(TermType::Bracket, seq![self@, attr@]),
    {
        chain1(TermType::Bracket, self, attr)
    }

    /// `get_field`: a `GetField` node applied to this query and `attr`.
    pub fn get_field(&self, attr: Command) -> (res: Command)
        ensures
            res@ == node(TermType::GetField, seq![self@, attr@]),
    {
        chain1(TermType::GetField, self, attr)
    }

    /// `g`: a `GetField` node applied to this query and `attr`.
    pub fn g(&self, attr: Command) -> (res: Command)
        ensures
            res@ == node(TermType::GetField, seq![self@, attr@]),
    {
        chain1(TermType::GetField, self, attr)
    }

    /// `has_fields`: a `HasFields` node applied to this query and `selector`.
    pub fn has_fields(&self, selector: Command) -> (res: Command)
        ensures
            res@ == node(TermType::HasFields, seq![self@, selector@]),
    {
        chain1(TermType::HasFields, self, selector)
    }

    /// `insert_at`: a `InsertAt` node applied to this query, `offset` and `value`.
    pub fn insert_at(&self, offset: Command, value: Command) -> (res: Command)
        ensures
            res@ == node(TermType::InsertAt, seq![self@, offset@, value@]),
    {
        chain2(TermType::InsertAt, self, offset, value)
    }

    /// `splice_at`: a `SpliceAt` node applied to this query, `offset` and `values`.
    pub fn splice_at(&self, offset: Command, values: Command) -> (res: Command)
        ensures
            res@ == node(TermType::SpliceAt, seq![self@, offset@, values@]),
    {
        chain2(TermType::SpliceAt, self, offset, values)
    }

    /// `delete_at`: a `DeleteAt` node applied to this query and then each of `bounds`.
    pub fn delete_at(&self, bounds: Vec<Command>) -> (res: Command)
        ensures
            res@ == node(TermType::DeleteAt, seq![self@] + commands_model(bounds)),
    {
        chain_n(TermType::DeleteAt, self, bounds)
    }

    /// `change_at`: a `ChangeAt` node applied to this query, `offset` and `value`.
    pub fn change_at(&self, offset: Command, value: Command) -> (res: Command)
        ensures
            res@ == node(TermType::ChangeAt, seq![self@, offset@, value@]),
    {
        chain2(TermType::ChangeAt, self, offset, value)
    }

    /// `keys`: a `Keys` node applied to this query.
    pub fn keys(&self) -> (res: Command)
        ensures
            res@ == node(TermType::Keys, seq![self@]),
    {
        chain0(TermType::Keys, self)
    }

    /// `values`: a `Values` node applied to this query.
    pub fn values(&self) -> (res: Command)
        ensures
            res@ == node(TermType::Values, seq![self@]),
    {
        chain0(TermType::Values, self)
    }

    /// `match_`: a `Match` node applied to this query and `regexp`.
    pub fn match_(&self, regexp: Command) -> (res: Command)
        ensures
            res@ == node(TermType::Match, seq![self@, regexp@]),
    {
        chain1(TermType::Match, self, regexp)
    }

    /// `split`: a `Split` node applied to this query and then each of `args`.
    pub fn split(&self, args: Vec<Command>) -> (res: Command)
        ensures
            res@ == node(TermType::Split, seq![self@] + commands_model(args)),
    {
        chain_n(TermType::Split, self, args)
    }

    /// `upcase`: a `Upcase` node applied to this query.
    pub fn upcase(&self) -> (res: Command)
        ensures
            res@ == node(TermType::Upcase, seq![self@]),
    {
        chain0(TermType::Upcase, self)
    }

    /// `downcase`: a `Downcase` node applied to this query.
    pub fn downcase(&self) -> (res: Command)
        ensures
            res@ == node(TermType::Downcase, seq![self@]),
    {
        chain0(TermType::Downcase, self)
    }

    /// `and`: a `And` node applied to this query and then each of `others`.
    pub fn and(&self, others: Vec<Command>) -> (res: Command)
        ensures
            res@ == node(TermType::And, seq![self@] + commands_model(others)),
    {
        chain_n(TermType::And, self, others)
    }

    /// `or`: a `Or` node applied to this query and then each of `others`.
    pub fn or(&self, others: Vec<Command>) -> (res: Command)
        ensures
            res@ == node(TermType::Or, seq![self@] + commands_model(others)),
    {
        chain_n(TermType::Or, self, others)
    }

    /// `eq`: a `Eq` node applied to this query and then each of `others`.
    pub fn eq(&self, others: Vec<Command>) -> (res: Command)
        ensures
            res@ == node(TermType::Eq, seq![self@] + commands_model(others)),
    {
        chain_n(TermType::Eq, self, others)
    }

    /// `ne`: a `Ne` node applied to this query and then each of `others`.
    pub fn ne(&self, others: Vec<Command>) -> (res: Command)
        ensures
            res@ == node(TermType::Ne, seq![self@] + commands_model(others)),
    {
        chain_n(TermType::Ne, self, others)
    }

    /// `gt`: a `Gt` node applied to this query and then each of `others`.
    pub fn gt(&self, others: Vec<Command>) -> (res: Command)
        ensures
            res@ == node(TermType::Gt, seq![self@] + commands_model(others)),
    {
        chain_n(TermType::Gt, self, others)
    }

    /// `ge`: a `Ge` node applied to this query and then each of `others`.
    pub fn ge(&self, others: Vec<Command>) -> (res: Command)
        ensures
            res@ == node(TermType::Ge, seq![self@] + commands_model(others)),
    {
        chain_n(TermType::Ge, self, others)
    }

    /// `lt`: a `Lt` node applied to this query and then each of `others`.
    pub fn lt(&self, others: Vec<Command>) -> (res: Command)
        ensures
            res@ == node(TermType::Lt, seq![self@] + commands_model(others)),
    {
        chain_n(TermType::Lt, self, others)
    }

    /// `le`: a `Le` node applied to this query and then each of `others`.
    pub fn le(&self, others: Vec<Command>) -> (res: Command)
        ensures
            res@ == node(TermType::Le, seq![self@] + commands_model(others)),
    {
        chain_n(TermType::Le, self, others)
    }

    /// `round`: a `Round` node applied to this query.
    pub fn round(&self) -> (res: Command)
        ensures
            res@ == node(TermType::Round, seq![self@]),
    {
        chain0(TermType::Round, self)
    }

    /// `ceil`: a `Ceil` node applied to this query.
    pub fn ceil(&self) -> (res: Command)
        ensures
            res@ == node(TermType::Ceil, seq![self@]),
    {
        chain0(TermType::Ceil, self)
    }

    /// `floor`: a `Floor` node applied to this query.
    pub fn floor(&self) -> (res: Command)
        ensures
            res@ == node(TermType::Floor, seq![self@]),
    {
        chain0(TermType::Floor, self)
    }

    /// `bit_and`: a `BitAnd` node applied to this query and `number`.
    pub fn bit_and(&self, number: Command) -> (res: Command)
        ensures
            res@ == node(TermType::BitAnd, seq![self@, number@]),
    {
        chain1(TermType::BitAnd, self, number)
    }

    /// `bit_or`: a `BitOr` node applied to this query and `number`.
    pub fn bit_or(&self, number: Command) -> (res: Command)
        ensures
            res@ == node(TermType::BitOr, seq![self@, number@]),
    {
        chain1(TermType::BitOr, self, number)
    }

    /// `bit_xor`: a `BitXor` node applied to this query and `number`.
    pub fn bit_xor(&self, number: Command) -> (res: Command)
        ensures
            res@ == node(TermType::BitXor, seq![self@, number@]),
    {
        chain1(TermType::BitXor, self, number)
    }

    /// `bit_not`: a `BitNot` node applied to this query.
    pub fn bit_not(&self) -> (res: Command)
        ensures
            res@ == node(TermType::BitNot, seq![self@]),
    {
        chain0(TermType::BitNot, self)
    }

    /// `bit_sal`: a `BitSal` node applied to this query and `number`.
    pub fn bit_sal(&self, number: Command) -> (res: Command)
        ensures
            res@ == node(TermType::BitSal, seq![self@, number@]),
    {
        chain1(TermType::BitSal, self, number)
    }

    /// `bit_sar`: a `BitSar` node applied to this query and `number`.
    pub fn bit_sar(&self, number: Command) -> (res: Command)
        ensures
            res@ == node(TermType::BitSar, seq![self@, number@]),
    {
        chain1(TermType::BitSar, self, number)
    }

    /// `in_timezone`: a `InTimezone` node applied to this query and `timezone`.
    pub fn in_timezone(&self, timezone: Command) -> (res: Command)
        ensures
            res@ == node(TermType::InTimezone, seq![self@, timezone@]),
    {
        chain1(TermType::InTimezone, self, timezone)
    }

    /// `timezone`: a `Timezone` node applied to this query.
    pub fn timezone(&self) -> (res: Command)
        ensures
            res@ == node(TermType::Timezone, seq![self@]),
    {
        chain0(TermType::Timezone, self)
    }

    /// `during`: a `During` node applied to this query, `start_time` and `end_time`.
    pub fn during(&self, start_time: Command, end_time: Command) -> (res: Command)
        ensures
            res@ == node(TermType::During, seq![self@, start_time@, end_time@]),
    {
        chain2(TermType::During, self, start_time, end_time)
    }

    /// `date`: a `Date` node applied to this query.
    pub fn date(&self) -> (res: Command)
        ensures
            res@ == node(TermType::Date, seq![self@]),
    {
        chain0(TermType::Date, self)
    }

    /// `time_of_day`: a `TimeOfDay` node applied to this query.
    pub fn time_of_day(&self) -> (res: Command)
        ensures
            res@ == node(TermType::TimeOfDay, seq![self@]),
    {
        chain0(TermType::TimeOfDay, self)
    }

    /// `year`: a `Year` node applied to this query.
    pub fn year(&self) -> (res: Command)
        ensures
            res@ == node(TermType::Year, seq![self@]),
    {
        chain0(TermType::Year, self)
    }

    /// `month`: a `Month` node applied to this query.
    pub fn month(&self) -> (res: Command)
        ensures
            res@ == node(TermType::Month, seq![self@]),
    {
        chain0(TermType::Month, self)
    }

    /// `day`: a `Day` node applied to this query.
    pub fn day(&self) -> (res: Command)
        ensures
            res@ == node(TermType::Day, seq![self@]),
    {
        chain0(TermType::Day, self)
    }

    /// `day_of_week`: a `DayOfWeek` node applied to this query.
    pub fn day_of_week(&self) -> (res: Command)
        ensures
            res@ == node(TermType::DayOfWeek, seq![self@]),
    {
        chain0(TermType::DayOfWeek, self)
    }

    /// `day_of_year`: a `DayOfYear` node applied to this query.
    pub fn day_of_year(&self) -> (res: Command)
        ensures
            res@ == node(TermType::DayOfYear, seq![self@]),
    {
        chain0(TermType::DayOfYear, self)
    }

    /// `hours`: a `Hours` node applied to this query.
    pub fn hours(&self) -> (res: Command)
        ensures
            res@ == node(TermType::Hours, seq![self@]),
    {
        chain0(TermType::Hours, self)
    }

    /// `minutes`: a `Minutes` node applied to this query.
    pub fn minutes(&self) -> (res: Command)
        ensures
            res@ == node(TermType::Minutes, seq![self@]),
    {
        chain0(TermType::Minutes, self)
    }

    /// `seconds`: a `Seconds` node applied to this query.
    pub fn seconds(&self) -> (res: Command)
        ensures
            res@ == node(TermType::Seconds, seq![self@]),
    {
        chain0(TermType::Seconds, self)
    }

    /// `to_iso8601`: a `ToIso8601` node applied to this query.
    pub fn to_iso8601(&self) -> (res: Command)
        ensures
            res@ == node(TermType::ToIso8601, seq![self@]),
    {
        chain0(TermType::ToIso8601, self)
    }

    /// `to_epoch_time`: a `ToEpochTime` node applied to this query.
    pub fn to_epoch_time(&self) -> (res: Command)
        ensures
            res@ == node(TermType::ToEpochTime, seq![self@]),
    {
        chain0(TermType::ToEpochTime, self)
    }

    /// `branch`: a `Branch` node applied to this query and then each of `branches`.
    pub fn branch(&self, branches: Vec<Command>) -> (res: Command)
        ensures
            res@ == node(TermType::Branch, seq![self@] + commands_model(branches)),
    {
        chain_n(TermType::Branch, self, branches)
    }

    /// `for_each`: a `ForEach` node applied to this query and `write_function`.
    pub fn for_each(&self, write_function: Command) -> (res: Command)
        ensures
            res@ == node(TermType::ForEach, seq![self@, write_function@]),
    {
        chain1(TermType::ForEach, self, write_function)
    }

    /// `default`: a `Default` node applied to this query and `default_value`.
    pub fn default(&self, default_value: Command) -> (res: Command)
        ensures
            res@ == node(TermType::Default, seq![self@, default_value@]),
    {
        chain1(TermType::Default, self, default_value)
    }

    /// `coerce_to`: a `CoerceTo` node applied to this query and `target_type`.
    pub fn coerce_to(&self, target_type: Command) -> (res: Command)
        ensures
            res@ == node(TermType::CoerceTo, seq![self@, target_type@]),
    {
        chain1(TermType::CoerceTo, self, target_type)
    }

    /// `type_of`: a `TypeOf` node applied to this query.
    pub fn type_of(&self) -> (res: Command)
        ensures
            res@ == node(TermType::TypeOf, seq![self@]),
    {
        chain0(TermType::TypeOf, self)
    }

    /// `info`: a `Info` node applied to this query.
    pub fn info(&self) -> (res: Command)
        ensures
            res@ == node(TermType::Info, seq![self@]),
    {
        chain0(TermType::Info, self)
    }

    /// `to_json`: a `ToJsonString` node applied to this query.
    pub fn to_json(&self) -> (res: Command)
        ensures
            res@ == node(TermType::ToJsonString, seq![self@]),
    {
        chain0(TermType::ToJsonString, self)
    }

    /// `distance`: a `Distance` node applied to this query and `geometry`.
    pub fn distance(&self, geometry: Command) -> (res: Command)
        ensures
            res@ == node(TermType::Distance, seq![self@, geometry@]),
    {
        chain1(TermType::Distance, self, geometry)
    }

    /// `to_geojson`: a `ToGeojson` node applied to this query.
    pub fn to_geojson(&self) -> (res: Command)
        ensures
            res@ == node(TermType::ToGeojson, seq![self@]),
    {
        chain0(TermType::ToGeojson, self)
    }

    /// `get_nearest`: a `GetNearest` node applied to this query and `point`.
    pub fn get_nearest(&self, point: Command) -> (res: Command)
        ensures
            res@ == node(TermType::GetNearest, seq![self@, point@]),
    {
        chain1(TermType::GetNearest, self, point)
    }

    /// `includes`: a `Includes` node applied to this query and `geometry`.
    pub fn includes(&self, geometry: Command) -> (res: Command)
        ensures
            res@ == node(TermType::Includes, seq![self@, geometry@]),
    {
        chain1(TermType::Includes, self, geometry)
    }

    /// `intersects`: a `Intersects` node applied to this query and `geometry`.
    pub fn intersects(&self, geometry: Command) -> (res: Command)
        ensures
            res@ == node(TermType::Intersects, seq![self@, geometry@]),
    {
        chain1(TermType::Intersects, self, geometry)
    }

    /// `grant`: a `Grant` node applied to this query, `username` and `permissions`.
    pub fn grant(&self, username: Command, permissions: Command) -> (res: Command)
        ensures
            res@ == node(TermType::Grant, seq![self@, username@, permissions@]),
    {
        chain2(TermType::Grant, self, username, permissions)
    }

    /// `config`: a `Config` node applied to this query.
    pub fn config(&self) -> (res: Command)
        ensures
            res@ == node(TermType::Config, seq![self@]),
    {
        chain0(TermType::Config, self)
    }

    /// `rebalance`: a `Rebalance` node applied to this query.
    pub fn rebalance(&self) -> (res: Command)
        ensures
            res@ == node(TermType::Rebalance, seq![self@]),
    {
        chain0(TermType::Rebalance, self)
    }

    /// `status`: a `Status` node applied to this query.
    pub fn status(&self) -> (res: Command)
        ensures
            res@ == node(TermType::Status, seq![self@]),
    {
        chain0(TermType::Status, self)
    }

    /// `wait`: a `Wait` node applied to this query.
    pub fn wait(&self) -> (res: Command)
        ensures
            res@ == node(TermType::Wait, seq![self@]),
    {
        chain0(TermType::Wait, self)
    }

}

} // verus!

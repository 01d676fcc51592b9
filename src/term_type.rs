use vstd::prelude::*;

verus! {

/// The kind of a term node, one per operation of the query language.
#[derive(Clone, Copy, Debug, PartialEq, Eq, Structural)]
pub enum TermType {
    Datum,
    MakeArray,
    MakeObj,
    Var,
    Javascript,
    Uuid,
    Http,
    Error,
    ImplicitVar,
    Db,
    Table,
    Get,
    GetAll,
    Eq,
    Ne,
    Lt,
    Le,
    Gt,
    Ge,
    Not,
    Add,
    Sub,
    Mul,
    Div,
    Mod,
    Floor,
    Ceil,
    Round,
    Append,
    Prepend,
    Difference,
    SetInsert,
    SetIntersection,
    SetUnion,
    SetDifference,
    Slice,
    Skip,
    Limit,
    OffsetsOf,
    Contains,
    GetField,
    Keys,
    Values,
    Object,
    HasFields,
    WithFields,
    Pluck,
    Without,
    Merge,
    BetweenDeprecated,
    Between,
    Reduce,
    MapEach,
    Fold,
    Filter,
    ConcatMap,
    OrderBy,
    Distinct,
    Count,
    IsEmpty,
    Union,
    Nth,
    Bracket,
    InnerJoin,
    OuterJoin,
    EqJoin,
    Zip,
    Range,
    InsertAt,
    DeleteAt,
    ChangeAt,
    SpliceAt,
    CoerceTo,
    TypeOf,
    Update,
    Delete,
    Replace,
    Insert,
    DbCreate,
    DbDrop,
    DbList,
    TableCreate,
    TableDrop,
    TableList,
    Config,
    Status,
    Wait,
    Reconfigure,
    Rebalance,
    Sync,
    Grant,
    IndexCreate,
    IndexDrop,
    IndexList,
    IndexStatus,
    IndexWait,
    IndexRename,
    SetWriteHook,
    GetWriteHook,
    Funcall,
    Branch,
    Or,
    And,
    ForEach,
    Func,
    Asc,
    Desc,
    Info,
    Match,
    Upcase,
    Downcase,
    Sample,
    Default,
    Json,
    Iso8601,
    ToIso8601,
    EpochTime,
    ToEpochTime,
    Now,
    InTimezone,
    During,
    Date,
    TimeOfDay,
    Timezone,
    Year,
    Month,
    Day,
    DayOfWeek,
    DayOfYear,
    Hours,
    Minutes,
    Seconds,
    Time,
    Monday,
    Tuesday,
    Wednesday,
    Thursday,
    Friday,
    Saturday,
    Sunday,
    January,
    February,
    March,
    April,
    May,
    June,
    July,
    August,
    September,
    October,
    November,
    December,
    Literal,
    Group,
    Sum,
    Avg,
    Min,
    Max,
    Split,
    Ungroup,
    Random,
    Changes,
    Args,
    Binary,
    Geojson,
    ToGeojson,
    Point,
    Line,
    Polygon,
    Distance,
    Intersects,
    Includes,
    Circle,
    GetIntersecting,
    Fill,
    GetNearest,
    PolygonSub,
    ToJsonString,
    Minval,
    Maxval,
    BitAnd,
    BitOr,
    BitXor,
    BitNot,
    BitSal,
    BitSar,
}

impl TermType {
    /// The number the server knows this term kind by.
    pub open spec fn spec_code(self) -> nat {
        match self {
            TermType::Datum => 1,
            TermType::MakeArray => 2,
            TermType::MakeObj => 3,
            TermType::Var => 10,
            TermType::Javascript => 11,
            TermType::Uuid => 169,
            TermType::Http => 153,
            TermType::Error => 12,
            TermType::ImplicitVar => 13,
            TermType::Db => 14,
            TermType::Table => 15,
            TermType::Get => 16,
            TermType::GetAll => 78,
            TermType::Eq => 17,
            TermType::Ne => 18,
            TermType::Lt => 19,
            TermType::Le => 20,
            TermType::Gt => 21,
            TermType::Ge => 22,
            TermType::Not => 23,
            TermType::Add => 24,
            TermType::Sub => 25,
            TermType::Mul => 26,
            TermType::Div => 27,
            TermType::Mod => 28,
            TermType::Floor => 183,
            TermType::Ceil => 184,
            TermType::Round => 185,
            TermType::Append => 29,
            TermType::Prepend => 80,
            TermType::Difference => 95,
            TermType::SetInsert => 88,
            TermType::SetIntersection => 89,
            TermType::SetUnion => 90,
            TermType::SetDifference => 91,
            TermType::Slice => 30,
            TermType::Skip => 70,
            TermType::Limit => 71,
            TermType::OffsetsOf => 87,
            TermType::Contains => 93,
            TermType::GetField => 31,
            TermType::Keys => 94,
            TermType::Values => 186,
            TermType::Object => 143,
            TermType::HasFields => 32,
            TermType::WithFields => 96,
            TermType::Pluck => 33,
            TermType::Without => 34,
            TermType::Merge => 35,
            TermType::BetweenDeprecated => 36,
            TermType::Between => 182,
            TermType::Reduce => 37,
            TermType::MapEach => 38,
            TermType::Fold => 187,
            TermType::Filter => 39,
            TermType::ConcatMap => 40,
            TermType::OrderBy => 41,
            TermType::Distinct => 42,
            TermType::Count => 43,
            TermType::IsEmpty => 86,
            TermType::Union => 44,
            TermType::Nth => 45,
            TermType::Bracket => 170,
            TermType::InnerJoin => 48,
            TermType::OuterJoin => 49,
            TermType::EqJoin => 50,
            TermType::Zip => 72,
            TermType::Range => 173,
            TermType::InsertAt => 82,
            TermType::DeleteAt => 83,
            TermType::ChangeAt => 84,
            TermType::SpliceAt => 85,
            TermType::CoerceTo => 51,
            TermType::TypeOf => 52,
            TermType::Update => 53,
            TermType::Delete => 54,
            TermType::Replace => 55,
            TermType::Insert => 56,
            TermType::DbCreate => 57,
            TermType::DbDrop => 58,
            TermType::DbList => 59,
            TermType::TableCreate => 60,
            TermType::TableDrop => 61,
            TermType::TableList => 62,
            TermType::Config => 174,
            TermType::Status => 175,
            TermType::Wait => 177,
            TermType::Reconfigure => 176,
            TermType::Rebalance => 179,
            TermType::Sync => 138,
            TermType::Grant => 188,
            TermType::IndexCreate => 75,
            TermType::IndexDrop => 76,
            TermType::IndexList => 77,
            TermType::IndexStatus => 139,
            TermType::IndexWait => 140,
            TermType::IndexRename => 156,
            TermType::SetWriteHook => 189,
            TermType::GetWriteHook => 190,
            TermType::Funcall => 64,
            TermType::Branch => 65,
            TermType::Or => 66,
            TermType::And => 67,
            TermType::ForEach => 68,
            TermType::Func => 69,
            TermType::Asc => 73,
            TermType::Desc => 74,
            TermType::Info => 79,
            TermType::Match => 97,
            TermType::Upcase => 141,
            TermType::Downcase => 142,
            TermType::Sample => 81,
            TermType::Default => 92,
            TermType::Json => 98,
            TermType::Iso8601 => 99,
            TermType::ToIso8601 => 100,
            TermType::EpochTime => 101,
            TermType::ToEpochTime => 102,
            TermType::Now => 103,
            TermType::InTimezone => 104,
            TermType::During => 105,
            TermType::Date => 106,
            TermType::TimeOfDay => 126,
            TermType::Timezone => 127,
            TermType::Year => 128,
            TermType::Month => 129,
            TermType::Day => 130,
            TermType::DayOfWeek => 131,
            TermType::DayOfYear => 132,
            TermType::Hours => 133,
            TermType::Minutes => 134,
            TermType::Seconds => 135,
            TermType::Time => 136,
            TermType::Monday => 107,
            TermType::Tuesday => 108,
            TermType::Wednesday => 109,
            TermType::Thursday => 110,
            TermType::Friday => 111,
            TermType::Saturday => 112,
            TermType::Sunday => 113,
            TermType::January => 114,
            TermType::February => 115,
            TermType::March => 116,
            TermType::April => 117,
            TermType::May => 118,
            TermType::June => 119,
            TermType::July => 120,
            TermType::August => 121,
            TermType::September => 122,
            TermType::October => 123,
            TermType::November => 124,
            TermType::December => 125,
            TermType::Literal => 137,
            TermType::Group => 144,
            TermType::Sum => 145,
            TermType::Avg => 146,
            TermType::Min => 147,
            TermType::Max => 148,
            TermType::Split => 149,
            TermType::Ungroup => 150,
            TermType::Random => 151,
            TermType::Changes => 152,
            TermType::Args => 154,
            TermType::Binary => 155,
            TermType::Geojson => 157,
            TermType::ToGeojson => 158,
            TermType::Point => 159,
            TermType::Line => 160,
            TermType::Polygon => 161,
            TermType::Distance => 162,
            TermType::Intersects => 163,
            TermType::Includes => 164,
            TermType::Circle => 165,
            TermType::GetIntersecting => 166,
            TermType::Fill => 167,
            TermType::GetNearest => 168,
            TermType::PolygonSub => 171,
            TermType::ToJsonString => 172,
            TermType::Minval => 180,
            TermType::Maxval => 181,
            TermType::BitAnd => 191,
            TermType::BitOr => 192,
            TermType::BitXor => 193,
            TermType::BitNot => 194,
            TermType::BitSal => 195,
            TermType::BitSar => 196,
        }
    }

    /// Wire number of this term kind.
    pub fn code(self) -> (c: u8)
        ensures
            c as nat == self.spec_code(),
    {
        match self {
            TermType::Datum => 1,
            TermType::MakeArray => 2,
            TermType::MakeObj => 3,
            TermType::Var => 10,
            TermType::Javascript => 11,
            TermType::Uuid => 169,
            TermType::Http => 153,
            TermType::Error => 12,
            TermType::ImplicitVar => 13,
            TermType::Db => 14,
            TermType::Table => 15,
            TermType::Get => 16,
            TermType::GetAll => 78,
            TermType::Eq => 17,
            TermType::Ne => 18,
            TermType::Lt => 19,
            TermType::Le => 20,
            TermType::Gt => 21,
            TermType::Ge => 22,
            TermType::Not => 23,
            TermType::Add => 24,
            TermType::Sub => 25,
            TermType::Mul => 26,
            TermType::Div => 27,
            TermType::Mod => 28,
            TermType::Floor => 183,
            TermType::Ceil => 184,
            TermType::Round => 185,
            TermType::Append => 29,
            TermType::Prepend => 80,
            TermType::Difference => 95,
            TermType::SetInsert => 88,
            TermType::SetIntersection => 89,
            TermType::SetUnion => 90,
            TermType::SetDifference => 91,
            TermType::Slice => 30,
            TermType::Skip => 70,
            TermType::Limit => 71,
            TermType::OffsetsOf => 87,
            TermType::Contains => 93,
            TermType::GetField => 31,
            TermType::Keys => 94,
            TermType::Values => 186,
            TermType::Object => 143,
            TermType::HasFields => 32,
            TermType::WithFields => 96,
            TermType::Pluck => 33,
            TermType::Without => 34,
            TermType::Merge => 35,
            TermType::BetweenDeprecated => 36,
            TermType::Between => 182,
            TermType::Reduce => 37,
            TermType::MapEach => 38,
            TermType::Fold => 187,
            TermType::Filter => 39,
            TermType::ConcatMap => 40,
            TermType::OrderBy => 41,
            TermType::Distinct => 42,
            TermType::Count => 43,
            TermType::IsEmpty => 86,
            TermType::Union => 44,
            TermType::Nth => 45,
            TermType::Bracket => 170,
            TermType::InnerJoin => 48,
            TermType::OuterJoin => 49,
            TermType::EqJoin => 50,
            TermType::Zip => 72,
            TermType::Range => 173,
            TermType::InsertAt => 82,
            TermType::DeleteAt => 83,
            TermType::ChangeAt => 84,
            TermType::SpliceAt => 85,
            TermType::CoerceTo => 51,
            TermType::TypeOf => 52,
            TermType::Update => 53,
            TermType::Delete => 54,
            TermType::Replace => 55,
            TermType::Insert => 56,
            TermType::DbCreate => 57,
            TermType::DbDrop => 58,
            TermType::DbList => 59,
            TermType::TableCreate => 60,
            TermType::TableDrop => 61,
            TermType::TableList => 62,
            TermType::Config => 174,
            TermType::Status => 175,
            TermType::Wait => 177,
            TermType::Reconfigure => 176,
            TermType::Rebalance => 179,
            TermType::Sync => 138,
            TermType::Grant => 188,
            TermType::IndexCreate => 75,
            TermType::IndexDrop => 76,
            TermType::IndexList => 77,
            TermType::IndexStatus => 139,
            TermType::IndexWait => 140,
            TermType::IndexRename => 156,
            TermType::SetWriteHook => 189,
            TermType::GetWriteHook => 190,
            TermType::Funcall => 64,
            TermType::Branch => 65,
            TermType::Or => 66,
            TermType::And => 67,
            TermType::ForEach => 68,
            TermType::Func => 69,
            TermType::Asc => 73,
            TermType::Desc => 74,
            TermType::Info => 79,
            TermType::Match => 97,
            TermType::Upcase => 141,
            TermType::Downcase => 142,
            TermType::Sample => 81,
            TermType::Default => 92,
            TermType::Json => 98,
            TermType::Iso8601 => 99,
            TermType::ToIso8601 => 100,
            TermType::EpochTime => 101,
            TermType::ToEpochTime => 102,
            TermType::Now => 103,
            TermType::InTimezone => 104,
            TermType::During => 105,
            TermType::Date => 106,
            TermType::TimeOfDay => 126,
            TermType::Timezone => 127,
            TermType::Year => 128,
            TermType::Month => 129,
            TermType::Day => 130,
            TermType::DayOfWeek => 131,
            TermType::DayOfYear => 132,
            TermType::Hours => 133,
            TermType::Minutes => 134,
            TermType::Seconds => 135,
            TermType::Time => 136,
            TermType::Monday => 107,
            TermType::Tuesday => 108,
            TermType::Wednesday => 109,
            TermType::Thursday => 110,
            TermType::Friday => 111,
            TermType::Saturday => 112,
            TermType::Sunday => 113,
            TermType::January => 114,
            TermType::February => 115,
            TermType::March => 116,
            TermType::April => 117,
            TermType::May => 118,
            TermType::June => 119,
            TermType::July => 120,
            TermType::August => 121,
            TermType::September => 122,
            TermType::October => 123,
            TermType::November => 124,
            TermType::December => 125,
            TermType::Literal => 137,
            TermType::Group => 144,
            TermType::Sum => 145,
            TermType::Avg => 146,
            TermType::Min => 147,
            TermType::Max => 148,
            TermType::Split => 149,
            TermType::Ungroup => 150,
            TermType::Random => 151,
            TermType::Changes => 152,
            TermType::Args => 154,
            TermType::Binary => 155,
            TermType::Geojson => 157,
            TermType::ToGeojson => 158,
            TermType::Point => 159,
            TermType::Line => 160,
            TermType::Polygon => 161,
            TermType::Distance => 162,
            TermType::Intersects => 163,
            TermType::Includes => 164,
            TermType::Circle => 165,
            TermType::GetIntersecting => 166,
            TermType::Fill => 167,
            TermType::GetNearest => 168,
            TermType::PolygonSub => 171,
            TermType::ToJsonString => 172,
            TermType::Minval => 180,
            TermType::Maxval => 181,
            TermType::BitAnd => 191,
            TermType::BitOr => 192,
            TermType::BitXor => 193,
            TermType::BitNot => 194,
            TermType::BitSal => 195,
            TermType::BitSar => 196,
        }
    }
}

} // verus!

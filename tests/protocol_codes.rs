use neor::protocol::{ErrorType, QueryType, ResponseType};
use neor::term_type::TermType;

#[test]
fn term_codes_match_protocol_crate() {
    assert_eq!(TermType::Datum.code() as i32, ql2::term::TermType::Datum as i32);
    assert_eq!(TermType::MakeArray.code() as i32, ql2::term::TermType::MakeArray as i32);
    assert_eq!(TermType::MakeObj.code() as i32, ql2::term::TermType::MakeObj as i32);
    assert_eq!(TermType::Var.code() as i32, ql2::term::TermType::Var as i32);
    assert_eq!(TermType::Javascript.code() as i32, ql2::term::TermType::Javascript as i32);
    assert_eq!(TermType::Uuid.code() as i32, ql2::term::TermType::Uuid as i32);
    assert_eq!(TermType::Http.code() as i32, ql2::term::TermType::Http as i32);
    assert_eq!(TermType::Error.code() as i32, ql2::term::TermType::Error as i32);
    assert_eq!(TermType::ImplicitVar.code() as i32, ql2::term::TermType::ImplicitVar as i32);
    assert_eq!(TermType::Db.code() as i32, ql2::term::TermType::Db as i32);
    assert_eq!(TermType::Table.code() as i32, ql2::term::TermType::Table as i32);
    assert_eq!(TermType::Get.code() as i32, ql2::term::TermType::Get as i32);
    assert_eq!(TermType::GetAll.code() as i32, ql2::term::TermType::GetAll as i32);
    assert_eq!(TermType::Eq.code() as i32, ql2::term::TermType::Eq as i32);
    assert_eq!(TermType::Ne.code() as i32, ql2::term::TermType::Ne as i32);
    assert_eq!(TermType::Lt.code() as i32, ql2::term::TermType::Lt as i32);
    assert_eq!(TermType::Le.code() as i32, ql2::term::TermType::Le as i32);
    assert_eq!(TermType::Gt.code() as i32, ql2::term::TermType::Gt as i32);
    assert_eq!(TermType::Ge.code() as i32, ql2::term::TermType::Ge as i32);
    assert_eq!(TermType::Not.code() as i32, ql2::term::TermType::Not as i32);
    assert_eq!(TermType::Add.code() as i32, ql2::term::TermType::Add as i32);
    assert_eq!(TermType::Sub.code() as i32, ql2::term::TermType::Sub as i32);
    assert_eq!(TermType::Mul.code() as i32, ql2::term::TermType::Mul as i32);
    assert_eq!(TermType::Div.code() as i32, ql2::term::TermType::Div as i32);
    assert_eq!(TermType::Mod.code() as i32, ql2::term::TermType::Mod as i32);
    assert_eq!(TermType::Floor.code() as i32, ql2::term::TermType::Floor as i32);
    assert_eq!(TermType::Ceil.code() as i32, ql2::term::TermType::Ceil as i32);
    assert_eq!(TermType::Round.code() as i32, ql2::term::TermType::Round as i32);
    assert_eq!(TermType::Append.code() as i32, ql2::term::TermType::Append as i32);
    assert_eq!(TermType::Prepend.code() as i32, ql2::term::TermType::Prepend as i32);
    assert_eq!(TermType::Difference.code() as i32, ql2::term::TermType::Difference as i32);
    assert_eq!(TermType::SetInsert.code() as i32, ql2::term::TermType::SetInsert as i32);
    assert_eq!(TermType::SetIntersection.code() as i32, ql2::term::TermType::SetIntersection as i32);
    assert_eq!(TermType::SetUnion.code() as i32, ql2::term::TermType::SetUnion as i32);
    assert_eq!(TermType::SetDifference.code() as i32, ql2::term::TermType::SetDifference as i32);
    assert_eq!(TermType::Slice.code() as i32, ql2::term::TermType::Slice as i32);
    assert_eq!(TermType::Skip.code() as i32, ql2::term::TermType::Skip as i32);
    assert_eq!(TermType::Limit.code() as i32, ql2::term::TermType::Limit as i32);
    assert_eq!(TermType::OffsetsOf.code() as i32, ql2::term::TermType::OffsetsOf as i32);
    assert_eq!(TermType::Contains.code() as i32, ql2::term::TermType::Contains as i32);
    assert_eq!(TermType::GetField.code() as i32, ql2::term::TermType::GetField as i32);
    assert_eq!(TermType::Keys.code() as i32, ql2::term::TermType::Keys as i32);
    assert_eq!(TermType::Values.code() as i32, ql2::term::TermType::Values as i32);
    assert_eq!(TermType::Object.code() as i32, ql2::term::TermType::Object as i32);
    assert_eq!(TermType::HasFields.code() as i32, ql2::term::TermType::HasFields as i32);
    assert_eq!(TermType::WithFields.code() as i32, ql2::term::TermType::WithFields as i32);
    assert_eq!(TermType::Pluck.code() as i32, ql2::term::TermType::Pluck as i32);
    assert_eq!(TermType::Without.code() as i32, ql2::term::TermType::Without as i32);
    assert_eq!(TermType::Merge.code() as i32, ql2::term::TermType::Merge as i32);
    assert_eq!(TermType::BetweenDeprecated.code() as i32, ql2::term::TermType::BetweenDeprecated as i32);
    assert_eq!(TermType::Between.code() as i32, ql2::term::TermType::Between as i32);
    assert_eq!(TermType::Reduce.code() as i32, ql2::term::TermType::Reduce as i32);
    assert_eq!(TermType::MapEach.code() as i32, ql2::term::TermType::Map as i32);
    assert_eq!(TermType::Fold.code() as i32, ql2::term::TermType::Fold as i32);
    assert_eq!(TermType::Filter.code() as i32, ql2::term::TermType::Filter as i32);
    assert_eq!(TermType::ConcatMap.code() as i32, ql2::term::TermType::ConcatMap as i32);
    assert_eq!(TermType::OrderBy.code() as i32, ql2::term::TermType::OrderBy as i32);
    assert_eq!(TermType::Distinct.code() as i32, ql2::term::TermType::Distinct as i32);
    assert_eq!(TermType::Count.code() as i32, ql2::term::TermType::Count as i32);
    assert_eq!(TermType::IsEmpty.code() as i32, ql2::term::TermType::IsEmpty as i32);
    assert_eq!(TermType::Union.code() as i32, ql2::term::TermType::Union as i32);
    assert_eq!(TermType::Nth.code() as i32, ql2::term::TermType::Nth as i32);
    assert_eq!(TermType::Bracket.code() as i32, ql2::term::TermType::Bracket as i32);
    assert_eq!(TermType::InnerJoin.code() as i32, ql2::term::TermType::InnerJoin as i32);
    assert_eq!(TermType::OuterJoin.code() as i32, ql2::term::TermType::OuterJoin as i32);
    assert_eq!(TermType::EqJoin.code() as i32, ql2::term::TermType::EqJoin as i32);
    assert_eq!(TermType::Zip.code() as i32, ql2::term::TermType::Zip as i32);
    assert_eq!(TermType::Range.code() as i32, ql2::term::TermType::Range as i32);
    assert_eq!(TermType::InsertAt.code() as i32, ql2::term::TermType::InsertAt as i32);
    assert_eq!(TermType::DeleteAt.code() as i32, ql2::term::TermType::DeleteAt as i32);
    assert_eq!(TermType::ChangeAt.code() as i32, ql2::term::TermType::ChangeAt as i32);
    assert_eq!(TermType::SpliceAt.code() as i32, ql2::term::TermType::SpliceAt as i32);
    assert_eq!(TermType::CoerceTo.code() as i32, ql2::term::TermType::CoerceTo as i32);
    assert_eq!(TermType::TypeOf.code() as i32, ql2::term::TermType::TypeOf as i32);
    assert_eq!(TermType::Update.code() as i32, ql2::term::TermType::Update as i32);
    assert_eq!(TermType::Delete.code() as i32, ql2::term::TermType::Delete as i32);
    assert_eq!(TermType::Replace.code() as i32, ql2::term::TermType::Replace as i32);
    assert_eq!(TermType::Insert.code() as i32, ql2::term::TermType::Insert as i32);
    assert_eq!(TermType::DbCreate.code() as i32, ql2::term::TermType::DbCreate as i32);
    assert_eq!(TermType::DbDrop.code() as i32, ql2::term::TermType::DbDrop as i32);
    assert_eq!(TermType::DbList.code() as i32, ql2::term::TermType::DbList as i32);
    assert_eq!(TermType::TableCreate.code() as i32, ql2::term::TermType::TableCreate as i32);
    assert_eq!(TermType::TableDrop.code() as i32, ql2::term::TermType::TableDrop as i32);
    assert_eq!(TermType::TableList.code() as i32, ql2::term::TermType::TableList as i32);
    assert_eq!(TermType::Config.code() as i32, ql2::term::TermType::Config as i32);
    assert_eq!(TermType::Status.code() as i32, ql2::term::TermType::Status as i32);
    assert_eq!(TermType::Wait.code() as i32, ql2::term::TermType::Wait as i32);
    assert_eq!(TermType::Reconfigure.code() as i32, ql2::term::TermType::Reconfigure as i32);
    assert_eq!(TermType::Rebalance.code() as i32, ql2::term::TermType::Rebalance as i32);
    assert_eq!(TermType::Sync.code() as i32, ql2::term::TermType::Sync as i32);
    assert_eq!(TermType::Grant.code() as i32, ql2::term::TermType::Grant as i32);
    assert_eq!(TermType::IndexCreate.code() as i32, ql2::term::TermType::IndexCreate as i32);
    assert_eq!(TermType::IndexDrop.code() as i32, ql2::term::TermType::IndexDrop as i32);
    assert_eq!(TermType::IndexList.code() as i32, ql2::term::TermType::IndexList as i32);
    assert_eq!(TermType::IndexStatus.code() as i32, ql2::term::TermType::IndexStatus as i32);
    assert_eq!(TermType::IndexWait.code() as i32, ql2::term::TermType::IndexWait as i32);
    assert_eq!(TermType::IndexRename.code() as i32, ql2::term::TermType::IndexRename as i32);
    assert_eq!(TermType::SetWriteHook.code() as i32, ql2::term::TermType::SetWriteHook as i32);
    assert_eq!(TermType::GetWriteHook.code() as i32, ql2::term::TermType::GetWriteHook as i32);
    assert_eq!(TermType::Funcall.code() as i32, ql2::term::TermType::Funcall as i32);
    assert_eq!(TermType::Branch.code() as i32, ql2::term::TermType::Branch as i32);
    assert_eq!(TermType::Or.code() as i32, ql2::term::TermType::Or as i32);
    assert_eq!(TermType::And.code() as i32, ql2::term::TermType::And as i32);
    assert_eq!(TermType::ForEach.code() as i32, ql2::term::TermType::ForEach as i32);
    assert_eq!(TermType::Func.code() as i32, ql2::term::TermType::Func as i32);
    assert_eq!(TermType::Asc.code() as i32, ql2::term::TermType::Asc as i32);
    assert_eq!(TermType::Desc.code() as i32, ql2::term::TermType::Desc as i32);
    assert_eq!(TermType::Info.code() as i32, ql2::term::TermType::Info as i32);
    assert_eq!(TermType::Match.code() as i32, ql2::term::TermType::Match as i32);
    assert_eq!(TermType::Upcase.code() as i32, ql2::term::TermType::Upcase as i32);
    assert_eq!(TermType::Downcase.code() as i32, ql2::term::TermType::Downcase as i32);
    assert_eq!(TermType::Sample.code() as i32, ql2::term::TermType::Sample as i32);
    assert_eq!(TermType::Default.code() as i32, ql2::term::TermType::Default as i32);
    assert_eq!(TermType::Json.code() as i32, ql2::term::TermType::Json as i32);
    assert_eq!(TermType::Iso8601.code() as i32, ql2::term::TermType::Iso8601 as i32);
    assert_eq!(TermType::ToIso8601.code() as i32, ql2::term::TermType::ToIso8601 as i32);
    assert_eq!(TermType::EpochTime.code() as i32, ql2::term::TermType::EpochTime as i32);
    assert_eq!(TermType::ToEpochTime.code() as i32, ql2::term::TermType::ToEpochTime as i32);
    assert_eq!(TermType::Now.code() as i32, ql2::term::TermType::Now as i32);
    assert_eq!(TermType::InTimezone.code() as i32, ql2::term::TermType::InTimezone as i32);
    assert_eq!(TermType::During.code() as i32, ql2::term::TermType::During as i32);
    assert_eq!(TermType::Date.code() as i32, ql2::term::TermType::Date as i32);
    assert_eq!(TermType::TimeOfDay.code() as i32, ql2::term::TermType::TimeOfDay as i32);
    assert_eq!(TermType::Timezone.code() as i32, ql2::term::TermType::Timezone as i32);
    assert_eq!(TermType::Year.code() as i32, ql2::term::TermType::Year as i32);
    assert_eq!(TermType::Month.code() as i32, ql2::term::TermType::Month as i32);
    assert_eq!(TermType::Day.code() as i32, ql2::term::TermType::Day as i32);
    assert_eq!(TermType::DayOfWeek.code() as i32, ql2::term::TermType::DayOfWeek as i32);
    assert_eq!(TermType::DayOfYear.code() as i32, ql2::term::TermType::DayOfYear as i32);
    assert_eq!(TermType::Hours.code() as i32, ql2::term::TermType::Hours as i32);
    assert_eq!(TermType::Minutes.code() as i32, ql2::term::TermType::Minutes as i32);
    assert_eq!(TermType::Seconds.code() as i32, ql2::term::TermType::Seconds as i32);
    assert_eq!(TermType::Time.code() as i32, ql2::term::TermType::Time as i32);
    assert_eq!(TermType::Monday.code() as i32, ql2::term::TermType::Monday as i32);
    assert_eq!(TermType::Tuesday.code() as i32, ql2::term::TermType::Tuesday as i32);
    assert_eq!(TermType::Wednesday.code() as i32, ql2::term::TermType::Wednesday as i32);
    assert_eq!(TermType::Thursday.code() as i32, ql2::term::TermType::Thursday as i32);
    assert_eq!(TermType::Friday.code() as i32, ql2::term::TermType::Friday as i32);
    assert_eq!(TermType::Saturday.code() as i32, ql2::term::TermType::Saturday as i32);
    assert_eq!(TermType::Sunday.code() as i32, ql2::term::TermType::Sunday as i32);
    assert_eq!(TermType::January.code() as i32, ql2::term::TermType::January as i32);
    assert_eq!(TermType::February.code() as i32, ql2::term::TermType::February as i32);
    assert_eq!(TermType::March.code() as i32, ql2::term::TermType::March as i32);
    assert_eq!(TermType::April.code() as i32, ql2::term::TermType::April as i32);
    assert_eq!(TermType::May.code() as i32, ql2::term::TermType::May as i32);
    assert_eq!(TermType::June.code() as i32, ql2::term::TermType::June as i32);
    assert_eq!(TermType::July.code() as i32, ql2::term::TermType::July as i32);
    assert_eq!(TermType::August.code() as i32, ql2::term::TermType::August as i32);
    assert_eq!(TermType::September.code() as i32, ql2::term::TermType::September as i32);
    assert_eq!(TermType::October.code() as i32, ql2::term::TermType::October as i32);
    assert_eq!(TermType::November.code() as i32, ql2::term::TermType::November as i32);
    assert_eq!(TermType::December.code() as i32, ql2::term::TermType::December as i32);
    assert_eq!(TermType::Literal.code() as i32, ql2::term::TermType::Literal as i32);
    assert_eq!(TermType::Group.code() as i32, ql2::term::TermType::Group as i32);
    assert_eq!(TermType::Sum.code() as i32, ql2::term::TermType::Sum as i32);
    assert_eq!(TermType::Avg.code() as i32, ql2::term::TermType::Avg as i32);
    assert_eq!(TermType::Min.code() as i32, ql2::term::TermType::Min as i32);
    assert_eq!(TermType::Max.code() as i32, ql2::term::TermType::Max as i32);
    assert_eq!(TermType::Split.code() as i32, ql2::term::TermType::Split as i32);
    assert_eq!(TermType::Ungroup.code() as i32, ql2::term::TermType::Ungroup as i32);
    assert_eq!(TermType::Random.code() as i32, ql2::term::TermType::Random as i32);
    assert_eq!(TermType::Changes.code() as i32, ql2::term::TermType::Changes as i32);
    assert_eq!(TermType::Args.code() as i32, ql2::term::TermType::Args as i32);
    assert_eq!(TermType::Binary.code() as i32, ql2::term::TermType::Binary as i32);
    assert_eq!(TermType::Geojson.code() as i32, ql2::term::TermType::Geojson as i32);
    assert_eq!(TermType::ToGeojson.code() as i32, ql2::term::TermType::ToGeojson as i32);
    assert_eq!(TermType::Point.code() as i32, ql2::term::TermType::Point as i32);
    assert_eq!(TermType::Line.code() as i32, ql2::term::TermType::Line as i32);
    assert_eq!(TermType::Polygon.code() as i32, ql2::term::TermType::Polygon as i32);
    assert_eq!(TermType::Distance.code() as i32, ql2::term::TermType::Distance as i32);
    assert_eq!(TermType::Intersects.code() as i32, ql2::term::TermType::Intersects as i32);
    assert_eq!(TermType::Includes.code() as i32, ql2::term::TermType::Includes as i32);
    assert_eq!(TermType::Circle.code() as i32, ql2::term::TermType::Circle as i32);
    assert_eq!(TermType::GetIntersecting.code() as i32, ql2::term::TermType::GetIntersecting as i32);
    assert_eq!(TermType::Fill.code() as i32, ql2::term::TermType::Fill as i32);
    assert_eq!(TermType::GetNearest.code() as i32, ql2::term::TermType::GetNearest as i32);
    assert_eq!(TermType::PolygonSub.code() as i32, ql2::term::TermType::PolygonSub as i32);
    assert_eq!(TermType::ToJsonString.code() as i32, ql2::term::TermType::ToJsonString as i32);
    assert_eq!(TermType::Minval.code() as i32, ql2::term::TermType::Minval as i32);
    assert_eq!(TermType::Maxval.code() as i32, ql2::term::TermType::Maxval as i32);
    assert_eq!(TermType::BitAnd.code() as i32, ql2::term::TermType::BitAnd as i32);
    assert_eq!(TermType::BitOr.code() as i32, ql2::term::TermType::BitOr as i32);
    assert_eq!(TermType::BitXor.code() as i32, ql2::term::TermType::BitXor as i32);
    assert_eq!(TermType::BitNot.code() as i32, ql2::term::TermType::BitNot as i32);
    assert_eq!(TermType::BitSal.code() as i32, ql2::term::TermType::BitSal as i32);
    assert_eq!(TermType::BitSar.code() as i32, ql2::term::TermType::BitSar as i32);
}

#[test]
fn query_codes_match_protocol_crate() {
    assert_eq!(QueryType::Start.code() as i32, ql2::query::QueryType::Start as i32);
    assert_eq!(QueryType::Continue.code() as i32, ql2::query::QueryType::Continue as i32);
    assert_eq!(QueryType::Stop.code() as i32, ql2::query::QueryType::Stop as i32);
    assert_eq!(QueryType::NoreplyWait.code() as i32, ql2::query::QueryType::NoreplyWait as i32);
    assert_eq!(QueryType::ServerInfo.code() as i32, ql2::query::QueryType::ServerInfo as i32);
}

#[test]
fn response_codes_match_protocol_crate() {
    assert_eq!(ResponseType::from_code(ql2::response::ResponseType::SuccessAtom as i64), Some(ResponseType::SuccessAtom));
    assert_eq!(ResponseType::from_code(ql2::response::ResponseType::SuccessSequence as i64), Some(ResponseType::SuccessSequence));
    assert_eq!(ResponseType::from_code(ql2::response::ResponseType::SuccessPartial as i64), Some(ResponseType::SuccessPartial));
    assert_eq!(ResponseType::from_code(ql2::response::ResponseType::WaitComplete as i64), Some(ResponseType::WaitComplete));
    assert_eq!(ResponseType::from_code(ql2::response::ResponseType::ServerInfo as i64), Some(ResponseType::ServerInfo));
    assert_eq!(ResponseType::from_code(ql2::response::ResponseType::ClientError as i64), Some(ResponseType::ClientError));
    assert_eq!(ResponseType::from_code(ql2::response::ResponseType::CompileError as i64), Some(ResponseType::CompileError));
    assert_eq!(ResponseType::from_code(ql2::response::ResponseType::RuntimeError as i64), Some(ResponseType::RuntimeError));
    assert_eq!(ResponseType::from_code(6), None);
}

#[test]
fn error_codes_match_protocol_crate() {
    assert_eq!(ErrorType::from_code(ql2::response::ErrorType::Internal as i64), Some(ErrorType::Internal));
    assert_eq!(ErrorType::from_code(ql2::response::ErrorType::ResourceLimit as i64), Some(ErrorType::ResourceLimit));
    assert_eq!(ErrorType::from_code(ql2::response::ErrorType::QueryLogic as i64), Some(ErrorType::QueryLogic));
    assert_eq!(ErrorType::from_code(ql2::response::ErrorType::NonExistence as i64), Some(ErrorType::NonExistence));
    assert_eq!(ErrorType::from_code(ql2::response::ErrorType::OpFailed as i64), Some(ErrorType::OpFailed));
    assert_eq!(ErrorType::from_code(ql2::response::ErrorType::OpIndeterminate as i64), Some(ErrorType::OpIndeterminate));
    assert_eq!(ErrorType::from_code(ql2::response::ErrorType::User as i64), Some(ErrorType::User));
    assert_eq!(ErrorType::from_code(ql2::response::ErrorType::PermissionError as i64), Some(ErrorType::PermissionError));
    assert_eq!(ErrorType::from_code(7), None);
}

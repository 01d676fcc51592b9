use vstd::prelude::*;

verus! {

/// What a query frame asks of the server.
#[derive(Clone, Copy, Debug, PartialEq, Eq, Structural)]
pub enum QueryType {
    /// Run a new query.
    Start,
    /// Send the next batch of a partial result.
    Continue,
    /// Cancel a query.
    Stop,
    /// Answer once every earlier no-reply write is applied.
    NoreplyWait,
    /// Describe the server.
    ServerInfo,
}

impl QueryType {
    pub open spec fn spec_code(self) -> nat {
        match self {
            QueryType::Start => 1,
            QueryType::Continue => 2,
            QueryType::Stop => 3,
            QueryType::NoreplyWait => 4,
            QueryType::ServerInfo => 5,
        }
    }

    /// Wire number of this query type.
    pub fn code(self) -> (c: u8)
        ensures
            c as nat == self.spec_code(),
    {
        match self {
            QueryType::Start => 1,
            QueryType::Continue => 2,
            QueryType::Stop => 3,
            QueryType::NoreplyWait => 4,
            QueryType::ServerInfo => 5,
        }
    }
}

/// The kind of a response frame.
#[derive(Clone, Copy, Debug, PartialEq, Eq, Structural)]
pub enum ResponseType {
    /// One value.
    SuccessAtom,
    /// The whole (rest of a) sequence.
    SuccessSequence,
    /// One batch of a sequence; more follow on `Continue`.
    SuccessPartial,
    /// A `NoreplyWait` is done.
    WaitComplete,
    /// The answer to `ServerInfo`.
    ServerInfo,
    /// The driver sent something the server cannot read.
    ClientError,
    /// The query could not be compiled.
    CompileError,
    /// The query failed while it ran.
    RuntimeError,
}

impl ResponseType {
    pub open spec fn spec_code(self) -> int {
        match self {
            ResponseType::SuccessAtom => 1,
            ResponseType::SuccessSequence => 2,
            ResponseType::SuccessPartial => 3,
            ResponseType::WaitComplete => 4,
            ResponseType::ServerInfo => 5,
            ResponseType::ClientError => 16,
            ResponseType::CompileError => 17,
            ResponseType::RuntimeError => 18,
        }
    }

    /// Whether the response reports a failure of the query.
    pub open spec fn is_error(self) -> bool {
        self is ClientError || self is CompileError || self is RuntimeError
    }

    /// The response type with wire number `c`, if there is one.
    pub fn from_code(c: i64) -> (res: Option<ResponseType>)
        ensures
            match res {
                Some(t) => t.spec_code() == c,
                None => forall|t: ResponseType| t.spec_code() != c,
            },
    {
        if c == 1 {
            Some(ResponseType::SuccessAtom)
        } else if c == 2 {
            Some(ResponseType::SuccessSequence)
        } else if c == 3 {
            Some(ResponseType::SuccessPartial)
        } else if c == 4 {
            Some(ResponseType::WaitComplete)
        } else if c == 5 {
            Some(ResponseType::ServerInfo)
        } else if c == 16 {
            Some(ResponseType::ClientError)
        } else if c == 17 {
            Some(ResponseType::CompileError)
        } else if c == 18 {
            Some(ResponseType::RuntimeError)
        } else {
            None
        }
    }
}

/// The class of a runtime error.
#[derive(Clone, Copy, Debug, PartialEq, Eq, Structural)]
pub enum ErrorType {
    Internal,
    ResourceLimit,
    QueryLogic,
    NonExistence,
    OpFailed,
    OpIndeterminate,
    User,
    PermissionError,
}

impl ErrorType {
    pub open spec fn spec_code(self) -> int {
        match self {
            ErrorType::Internal => 1000000,
            ErrorType::ResourceLimit => 2000000,
            ErrorType::QueryLogic => 3000000,
            ErrorType::NonExistence => 3100000,
            ErrorType::OpFailed => 4100000,
            ErrorType::OpIndeterminate => 4200000,
            ErrorType::User => 5000000,
            ErrorType::PermissionError => 6000000,
        }
    }

    /// The error class with wire number `c`, if there is one.
    pub fn from_code(c: i64) -> (res: Option<ErrorType>)
        ensures
            match res {
                Some(t) => t.spec_code() == c,
                None => forall|t: ErrorType| t.spec_code() != c,
            },
    {
        if c == 1000000 {
            Some(ErrorType::Internal)
        } else if c == 2000000 {
            Some(ErrorType::ResourceLimit)
        } else if c == 3000000 {
            Some(ErrorType::QueryLogic)
        } else if c == 3100000 {
            Some(ErrorType::NonExistence)
        } else if c == 4100000 {
            Some(ErrorType::OpFailed)
        } else if c == 4200000 {
            Some(ErrorType::OpIndeterminate)
        } else if c == 5000000 {
            Some(ErrorType::User)
        } else if c == 6000000 {
            Some(ErrorType::PermissionError)
        } else {
            None
        }
    }
}

} // verus!

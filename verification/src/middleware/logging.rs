use vstd::prelude::*;

verus! {

/// The request log as it is installed.
#[derive(Clone, Copy, Debug, PartialEq, Eq)]
pub struct LoggingMiddleware;

/// The request log in front of one downstream service.
pub struct LoggingMiddlewareService<S> {
    pub service: S,
}

/// How loud a line of the request log is.
#[derive(Clone, Copy, Debug, PartialEq, Eq)]
pub enum LogLevel {
    Info,
    Error,
}

/// The level at which the completion of a request is logged: an error for a
/// status from 400 up to 599, information for every other status.
pub open spec fn level_of(status: u16) -> LogLevel {
    if 400 <= status <= 599 {
        LogLevel::Error
    } else {
        LogLevel::Info
    }
}

/// The value of a header that may be missing or unreadable: nothing then.
pub open spec fn header_or_empty(value: Option<&str>) -> Seq<char> {
    match value {
        Some(text) => text@,
        None => Seq::empty(),
    }
}

/// The line that is logged when a request comes in.
pub open spec fn started_line(
    method: Seq<char>,
    path: Seq<char>,
    referer: Seq<char>,
    user_agent: Seq<char>,
) -> Seq<char> {
    "Request started: "@ + method + " "@ + path + " - Referer: "@ + referer + ", User-Agent: "@
        + user_agent
}

impl LoggingMiddleware {
    /// Puts the request log in front of `service`.
    pub fn new_transform<S>(&self, service: S) -> (log: LoggingMiddlewareService<S>)
        ensures
            log.service == service,
    {
        LoggingMiddlewareService { service }
    }
}

impl<S> LoggingMiddlewareService<S> {
    /// The line that is logged when a request comes in. A header that is
    /// missing or is no text is logged as empty.
    pub fn started(
        method: &str,
        path: &str,
        referer: Option<&str>,
        user_agent: Option<&str>,
    ) -> (line: String)
        ensures
            line@ == started_line(
                method@,
                path@,
                header_or_empty(referer),
                header_or_empty(user_agent),
            ),
    {
        let referer = match referer {
            Some(text) => text,
            None => "",
        };
        let user_agent = match user_agent {
            Some(text) => text,
            None => "",
        };
        proof {
            reveal_strlit("");
            assert(""@ =~= Seq::<char>::empty());
        }
        String::from_str("Request started: ").concat(method).concat(" ").concat(path).concat(
            " - Referer: ",
        ).concat(referer).concat(", User-Agent: ").concat(user_agent)
    }

    /// The level at which the completion of a request with the given status
    /// is logged.
    pub fn completed_level(status: u16) -> (level: LogLevel)
        ensures
            level == level_of(status),
    {
        if 400 <= status && status <= 599 {
            LogLevel::Error
        } else {
            LogLevel::Info
        }
    }
}

} // verus!

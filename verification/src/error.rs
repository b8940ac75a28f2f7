//! Error type of the job, queue and pool components.
use vstd::prelude::*;
use vstd::string::*;

verus! {

/// Error of the thread system components.
#[derive(Debug)]
pub enum Error {
    /// Thread operations failed.
    ThreadError(String),
    /// Job execution failed.
    JobError(String),
    /// Job was cancelled during execution.
    JobCancelled,
    /// Job queue operations failed.
    QueueError(String),
    /// Thread pool operations failed.
    ThreadPoolError(String),
    /// A synchronization lock failed.
    LockError(String),
    /// Logger operations failed.
    LoggerError(String),
    /// I/O operations failed.
    IoError(std::io::Error),
    /// Channel operations failed.
    ChannelError(String),
    /// Generic error.
    Other(String),
}

/// Result type used by the components.
pub type Result<T> = std::result::Result<T, Error>;

/// The message of an error; an I/O error is described by `io_text`.
pub open spec fn error_text(e: Error, io_text: Seq<char>) -> Seq<char> {
    match e {
        Error::ThreadError(m) => "Thread error: "@ + m@,
        Error::JobError(m) => "Job execution failed: "@ + m@,
        Error::JobCancelled => "Job was cancelled"@,
        Error::QueueError(m) => "Job queue error: "@ + m@,
        Error::ThreadPoolError(m) => "Thread pool error: "@ + m@,
        Error::LockError(m) => "Lock error: "@ + m@,
        Error::LoggerError(m) => "Logger error: "@ + m@,
        Error::IoError(_) => "I/O error: "@ + io_text,
        Error::ChannelError(m) => "Channel error: "@ + m@,
        Error::Other(m) => m@,
    }
}

impl Error {
    /// Create a thread error.
    pub fn thread_error(msg: &str) -> (e: Self)
        ensures
            e matches Error::ThreadError(m) && m@ == msg@,
    {
        Error::ThreadError(String::from_str(msg))
    }

    /// Create a job error.
    pub fn job_error(msg: &str) -> (e: Self)
        ensures
            e matches Error::JobError(m) && m@ == msg@,
    {
        Error::JobError(String::from_str(msg))
    }

    /// Create a queue error.
    pub fn queue_error(msg: &str) -> (e: Self)
        ensures
            e matches Error::QueueError(m) && m@ == msg@,
    {
        Error::QueueError(String::from_str(msg))
    }

    /// Create a thread pool error.
    pub fn thread_pool_error(msg: &str) -> (e: Self)
        ensures
            e matches Error::ThreadPoolError(m) && m@ == msg@,
    {
        Error::ThreadPoolError(String::from_str(msg))
    }

    /// Create a lock error.
    pub fn lock_error(msg: &str) -> (e: Self)
        ensures
            e matches Error::LockError(m) && m@ == msg@,
    {
        Error::LockError(String::from_str(msg))
    }

    /// Create a logger error.
    pub fn logger_error(msg: &str) -> (e: Self)
        ensures
            e matches Error::LoggerError(m) && m@ == msg@,
    {
        Error::LoggerError(String::from_str(msg))
    }

    /// Create a channel error.
    pub fn channel_error(msg: &str) -> (e: Self)
        ensures
            e matches Error::ChannelError(m) && m@ == msg@,
    {
        Error::ChannelError(String::from_str(msg))
    }

    /// Create a generic error.
    pub fn other(msg: &str) -> (e: Self)
        ensures
            e matches Error::Other(m) && m@ == msg@,
    {
        Error::Other(String::from_str(msg))
    }

    /// The message of this error; `io_text` is the description of the
    /// I/O error, used only for `IoError`.
    pub fn message_with(&self, io_text: &str) -> (s: String)
        ensures
            s@ == error_text(*self, io_text@),
    {
        let mut s = String::new();
        match self {
            Error::ThreadError(m) => { s.append("Thread error: "); s.append(m.as_str()); },
            Error::JobError(m) => { s.append("Job execution failed: "); s.append(m.as_str()); },
            Error::JobCancelled => { s.append("Job was cancelled"); },
            Error::QueueError(m) => { s.append("Job queue error: "); s.append(m.as_str()); },
            Error::ThreadPoolError(m) => { s.append("Thread pool error: "); s.append(m.as_str()); },
            Error::LockError(m) => { s.append("Lock error: "); s.append(m.as_str()); },
            Error::LoggerError(m) => { s.append("Logger error: "); s.append(m.as_str()); },
            Error::IoError(_) => { s.append("I/O error: "); s.append(io_text); },
            Error::ChannelError(m) => { s.append("Channel error: "); s.append(m.as_str()); },
            Error::Other(m) => { s.append(m.as_str()); },
        }
        s
    }
}

/// Renders an I/O error through `std::io::Error::to_string` (its `Display`
/// text, which comes from the operating system); nothing is claimed of it.
#[verifier::external_body]
pub(crate) fn io_error_text(e: &std::io::Error) -> String {
    e.to_string()
}

impl Error {
    /// The message of this error.
    pub fn to_string(&self) -> (s: String)
        ensures
            !(self is IoError) ==> s@ == error_text(*self, Seq::empty()),
            self is IoError ==> exists|t: Seq<char>| s@ == error_text(*self, t),
    {
        match self {
            Error::IoError(e) => {
                let t = io_error_text(e);
                self.message_with(t.as_str())
            },
            _ => self.message_with(""),
        }
    }
}

impl From<String> for Error {
    fn from(s: String) -> (e: Self) {
        Error::Other(s)
    }
}

impl vstd::std_specs::convert::FromSpecImpl<String> for Error {
    open spec fn obeys_from_spec() -> bool {
        true
    }

    open spec fn from_spec(v: String) -> Error {
        Error::Other(v)
    }
}

impl From<&str> for Error {
    fn from(s: &str) -> (e: Self)
        ensures
            e matches Error::Other(m) && m@ == s@,
    {
        Error::Other(String::from_str(s))
    }
}

impl vstd::std_specs::convert::FromSpecImpl<&str> for Error {
    open spec fn obeys_from_spec() -> bool {
        false
    }

    /// Not used: the conversion is described by the `ensures` of `from`.
    open spec fn from_spec(v: &str) -> Error {
        vstd::pervasive::arbitrary()
    }
}

impl From<std::io::Error> for Error {
    fn from(e: std::io::Error) -> (r: Self) {
        Error::IoError(e)
    }
}

impl vstd::std_specs::convert::FromSpecImpl<std::io::Error> for Error {
    open spec fn obeys_from_spec() -> bool {
        true
    }

    open spec fn from_spec(v: std::io::Error) -> Error {
        Error::IoError(v)
    }
}

/// Conversion of an optional error message into a result.
pub trait OptionalStringExt {
    /// `Ok(())` for `None`, an `Other` error with the message for `Some`.
    fn to_result<T>(self, default_msg: T) -> Result<()>;
}

impl OptionalStringExt for Option<String> {
    fn to_result<T>(self, default_msg: T) -> (r: Result<()>)
        ensures
            self.is_none() ==> r.is_ok(),
            self matches Some(m) ==> (r matches Err(Error::Other(e)) && e == m),
    {
        match self {
            Some(err) => Err(Error::Other(err)),
            None => Ok(()),
        }
    }
}

} // verus!

//! The uniform error value used by every failing operation: a message and an
//! optional underlying cause.

use vstd::prelude::*;
use vstd::string::StringExecFns;

verus! {

/// A failure report carrying a human-readable message and, where one exists,
/// the error that caused it.
#[derive(Debug)]
pub struct ClgeomError {
    /// Error message
    pub message: String,

    /// Error which caused this one
    pub cause: Option<Box<ClgeomError>>,
}

/// The text an error renders to: its message, then each cause in turn behind
/// a "caused by" line; an error without a cause ends with a newline.
pub open spec fn error_display(e: ClgeomError) -> Seq<char>
    decreases e,
{
    match e.cause {
        Some(c) => e.message@ + "\ncaused by\n"@ + error_display(*c),
        None => e.message@ + "\n"@,
    }
}

impl ClgeomError {
    /// Create a new `ClgeomError` with the given message and no cause.
    pub fn new(message: &str) -> (e: Self)
        ensures
            e.message@ == message@,
            e.cause is None,
    {
        Self { message: message.to_owned(), cause: None }
    }

    /// Render the error as text, in place of `Display`: the message, then the
    /// chain of causes.
    pub fn display_string(&self) -> (s: String)
        ensures
            s@ == error_display(*self),
        decreases *self,
    {
        match &self.cause {
            Some(c) => {
                let mut s = self.message.clone();
                s.append("\ncaused by\n");
                let tail = c.display_string();
                s.append(tail.as_str());
                s
            },
            None => {
                let mut s = self.message.clone();
                s.append("\n");
                s
            },
        }
    }
}

/// Conversion of a device-API error into the uniform error, labelled with the
/// operation that failed. Implemented by callers for the native error types.
pub trait ToClgeomError {
    fn to_clgeom_error(&self, op: &str) -> ClgeomError;
}

/// Pass an `Ok` result through unchanged; convert an `Err` into the uniform
/// error, labelled with the operation `op`.
pub fn rewrap_ocl_result<T, E: ToClgeomError>(r: Result<T, E>, op: &str) -> (res: Result<
    T,
    ClgeomError,
>)
    ensures
        r is Ok ==> res is Ok && res->Ok_0 == r->Ok_0,
        r is Err ==> res is Err,
{
    match r {
        Ok(v) => Ok(v),
        Err(e) => Err(e.to_clgeom_error(op)),
    }
}

/// The view of an optional borrowed string.
pub open spec fn opt_str_view(o: Option<&str>) -> Option<Seq<char>> {
    match o {
        Some(s) => Some(s@),
        None => None,
    }
}

/// The message reported for a native device-API failure: the operation that
/// was under way, the native status code (or a marker where the native API
/// gave none), the message of the native error's own cause where one exists,
/// and the native error's full text, never summarized or truncated.
pub open spec fn ocl_error_message_spec(
    op: Seq<char>,
    status: Option<Seq<char>>,
    cause: Option<Seq<char>>,
    error_text: Seq<char>,
) -> Seq<char> {
    "OpenCL error while "@ + op + ".\nOpenCL status: "@ + (match status {
        Some(s) => s,
        None => "[NONE]"@,
    }) + "\nError message: "@ + (match cause {
        Some(c) => "Caused by:\n"@ + c,
        None => Seq::<char>::empty(),
    }) + "\nCaused by: "@ + error_text + "\n"@
}

/// Compose the message for a native device-API failure. `op` names the
/// operation under way, `status` the native status code where the API gave
/// one, `cause` the message of the native error's cause where one exists,
/// and `error_text` the native error's own rendering.
pub fn ocl_error_message(
    op: &str,
    status: Option<&str>,
    cause: Option<&str>,
    error_text: &str,
) -> (m: String)
    ensures
        m@ == ocl_error_message_spec(op@, opt_str_view(status), opt_str_view(cause), error_text@),
{
    let mut m = String::from_str("OpenCL error while ");
    m.append(op);
    m.append(".\nOpenCL status: ");
    match status {
        Some(s) => m.append(s),
        None => m.append("[NONE]"),
    }
    m.append("\nError message: ");
    match cause {
        Some(c) => {
            m.append("Caused by:\n");
            m.append(c);
        },
        None => {},
    }
    m.append("\nCaused by: ");
    m.append(error_text);
    m.append("\n");
    proof {
        assert(m@ =~= ocl_error_message_spec(
            op@,
            opt_str_view(status),
            opt_str_view(cause),
            error_text@,
        ));
    }
    m
}

/// Wrap an underlying error in a `ClgeomError` naming the operation `op`.
pub fn convert_std_error<T>(e: ClgeomError, op: &str) -> (res: Result<T, ClgeomError>)
    ensures
        res is Err,
        res->Err_0.message@ == "Error while "@ + op@ + "."@,
        res->Err_0.cause matches Some(c) && c == e,
{
    let mut message = String::from_str("Error while ");
    message.append(op);
    message.append(".");
    Err(ClgeomError { message, cause: Some(Box::new(e)) })
}

} // verus!

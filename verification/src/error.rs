//! How failed requests are answered, and how panics are reported.

use vstd::prelude::*;

verus! {

/// The error code for a request that was cancelled.
pub const REQUEST_CANCELLED: i32 = -32800;

/// The error code for an error of the server.
pub const INTERNAL_ERROR: i32 = -32603;

/// The answer to a failed request.
pub enum ErrorResponse {
    /// The answer that the request failed with.
    Own(async_lsp::ResponseError),
    /// A code and a message, without further data.
    New { code: i32, message: String },
}

/// An answer as a value.
pub enum ResponseView {
    Own(async_lsp::ResponseError),
    New { code: i32, message: Seq<char> },
}

impl View for ErrorResponse {
    type V = ResponseView;

    open spec fn view(&self) -> ResponseView {
        match self {
            ErrorResponse::Own(response) => ResponseView::Own(*response),
            ErrorResponse::New { code, message } => ResponseView::New {
                code: *code,
                message: message@,
            },
        }
    }
}

impl ResponseView {
    /// The answer to a request that was cancelled, or failed with an answer of its own or with
    /// another error, of which the text is given.
    pub open spec fn of(
        cancelled: bool,
        failure: Result<async_lsp::ResponseError, Seq<char>>,
    ) -> ResponseView {
        if cancelled {
            ResponseView::New { code: REQUEST_CANCELLED, message: "Client cancelled"@ }
        } else {
            match failure {
                Ok(response) => ResponseView::Own(response),
                Err(text) => ResponseView::New { code: INTERNAL_ERROR, message: text },
            }
        }
    }
}

/// The answer to a request that was cancelled, or failed with an answer of its own or with
/// another error, of which the text is given.
pub fn failure_to_response(
    cancelled: bool,
    failure: Result<async_lsp::ResponseError, String>,
) -> (response: ErrorResponse)
    ensures
        response@ == ResponseView::of(
            cancelled,
            match failure {
                Ok(own) => Ok(own),
                Err(text) => Err(text@),
            },
        ),
{
    if cancelled {
        return ErrorResponse::New {
            code: REQUEST_CANCELLED,
            message: "Client cancelled".to_owned(),
        };
    }
    match failure {
        Ok(response) => ErrorResponse::Own(response),
        Err(text) => ErrorResponse::New { code: INTERNAL_ERROR, message: text },
    }
}

/// What may come of looking for an answer in `error`: the answer, or else the text of `error`.
pub open spec fn may_fail_with(
    error: anyhow::Error,
    failure: Result<async_lsp::ResponseError, Seq<char>>,
) -> bool {
    match failure {
        Ok(response) => call_ensures(
            anyhow::Error::downcast::<async_lsp::ResponseError>,
            (error,),
            Ok(response),
        ),
        Err(text) => {
            &&& call_ensures(
                anyhow::Error::downcast::<async_lsp::ResponseError>,
                (error,),
                Err(error),
            )
            &&& exists|shown: String| #[trigger]
                vstd::string::to_string_from_display_ensures(&error, shown) && shown@ == text
        },
    }
}

/// The answer to a request that failed with `error`. `Cancelled` is the type of the error of a
/// cancelled request.
pub fn error_to_response<Cancelled>(error: anyhow::Error) -> (response: ErrorResponse) where
    Cancelled: std::fmt::Display + std::fmt::Debug + Send + Sync + 'static,

    ensures
        exists|cancelled: bool, failure: Result<async_lsp::ResponseError, Seq<char>>|
            {
                &&& #[trigger] call_ensures(anyhow::Error::is::<Cancelled>, (&error,), cancelled)
                &&& cancelled || may_fail_with(error, failure)
                &&& response@ == #[trigger] ResponseView::of(cancelled, failure)
            },
{
    if error.is::<Cancelled>() {
        return failure_to_response(true, Err(String::new()));
    }
    match error.downcast::<async_lsp::ResponseError>() {
        Ok(response) => failure_to_response(false, Ok(response)),
        Err(error) => {
            let text = error.to_string();
            assert(may_fail_with(error, Err(text@)));
            failure_to_response(false, Err(text))
        },
    }
}

/// The reason that a panic gave: its payload, where that is a text.
pub fn panic_reason(string: Option<String>, literal: Option<&str>) -> (reason: String)
    ensures
        reason@ == match (string, literal) {
            (Some(string), _) => string@,
            (None, Some(literal)) => literal@,
            (None, None) => "unknown"@,
        },
{
    match string {
        Some(string) => string,
        None => match literal {
            Some(literal) => literal.to_owned(),
            None => "unknown".to_owned(),
        },
    }
}

/// Where a panic happened: its place in the source, if that is known, and the backtrace.
pub fn panic_location(place: Option<String>, backtrace: &String) -> (location: String)
    ensures
        location@ == "Location: "@ + (match place {
            Some(place) => place@,
            None => Seq::empty(),
        }) + "\nBacktrace: "@ + backtrace@,
{
    let place = match place {
        Some(place) => place,
        None => String::new(),
    };
    "Location: ".to_owned().concat(place.as_str()).concat("\nBacktrace: ").concat(
        backtrace.as_str(),
    )
}

/// The error text for a panic while `context` was worked on. `location` is empty where no
/// location was recorded.
pub fn panic_report(context: &str, reason: &String, location: String) -> (report: String)
    ensures
        report@ == "Panicked in "@ + context@ + ": "@ + reason@ + "\n"@ + (if location@.len() == 0 {
            "Location: unknown"@
        } else {
            location@
        }),
{
    let location = if location.as_str().is_empty() {
        "Location: unknown".to_owned()
    } else {
        location
    };
    "Panicked in ".to_owned().concat(context).concat(": ").concat(reason.as_str()).concat(
        "\n",
    ).concat(location.as_str())
}

/// A cancelled request is answered as such, whatever it failed with. Another request that failed
/// with an answer gets that answer as it is, and one that failed otherwise gets the text of its
/// error, all of it, as an error of the server.
pub proof fn law_failures_are_answered(
    cancelled: bool,
    failure: Result<async_lsp::ResponseError, String>,
    response: ErrorResponse,
)
    requires
        call_ensures(failure_to_response, (cancelled, failure), response),
    ensures
        cancelled ==> (response matches ErrorResponse::New { code, message } && code == -32800
            && message@ == "Client cancelled"@),
        !cancelled ==> match failure {
            Ok(own) => response == ErrorResponse::Own(own),
            Err(text) => response matches ErrorResponse::New { code, message } && code == -32603
                && message@ == text@,
        },
{
}

/// The answer to an error is the one for a cancelled request where the error is found to be a
/// cancellation; otherwise the answer found in it, or else its text as an error of the server.
pub proof fn law_errors_are_answered<Cancelled>(
    error: anyhow::Error,
    response: ErrorResponse,
) where Cancelled: std::fmt::Display + std::fmt::Debug + Send + Sync + 'static
    requires
        call_ensures(error_to_response::<Cancelled>, (error,), response),
    ensures
        match response {
            ErrorResponse::Own(own) => {
                &&& call_ensures(anyhow::Error::is::<Cancelled>, (&error,), false)
                &&& call_ensures(
                    anyhow::Error::downcast::<async_lsp::ResponseError>,
                    (error,),
                    Ok(own),
                )
            },
            ErrorResponse::New { code, message } => {
                ||| {
                    &&& call_ensures(anyhow::Error::is::<Cancelled>, (&error,), true)
                    &&& code == -32800
                    &&& message@ == "Client cancelled"@
                }
                ||| {
                    &&& call_ensures(anyhow::Error::is::<Cancelled>, (&error,), false)
                    &&& call_ensures(
                        anyhow::Error::downcast::<async_lsp::ResponseError>,
                        (error,),
                        Err(error),
                    )
                    &&& code == -32603
                    &&& exists|shown: String| #[trigger]
                        vstd::string::to_string_from_display_ensures(&error, shown) && shown@
                            == message@
                }
            },
        },
{
}

/// The reason of a panic is its payload, where that is a text.
pub proof fn law_panic_gives_its_reason(
    string: Option<String>,
    literal: Option<&str>,
    reason: String,
)
    requires
        call_ensures(panic_reason, (string, literal), reason),
    ensures
        string is Some ==> reason@ == string->0@,
        string is None && literal is Some ==> reason@ == literal->0@,
        string is None && literal is None ==> reason@ == "unknown"@,
{
}

/// The location of a panic has its place, as far as that is known, and the whole backtrace.
pub proof fn law_panic_location_is_whole(
    place: Option<String>,
    backtrace: String,
    location: String,
)
    requires
        call_ensures(panic_location, (place, &backtrace), location),
    ensures
        place is Some ==> location@ == "Location: "@ + place->0@ + "\nBacktrace: "@ + backtrace@,
        place is None ==> location@ == "Location: "@ + "\nBacktrace: "@ + backtrace@,
{
    if place is None {
        assert("Location: "@ + Seq::<char>::empty() =~= "Location: "@);
    }
}

/// The report of a panic has what was worked on, the whole reason, and the location, or that it is
/// not known.
pub proof fn law_panic_report_is_whole(
    context: &str,
    reason: String,
    location: String,
    report: String,
)
    requires
        call_ensures(panic_report, (context, &reason, location), report),
    ensures
        location@.len() > 0 ==> report@ == "Panicked in "@ + context@ + ": "@ + reason@ + "\n"@
            + location@,
        location@.len() == 0 ==> report@ == "Panicked in "@ + context@ + ": "@ + reason@ + "\n"@
            + "Location: unknown"@,
{
}

} // verus!

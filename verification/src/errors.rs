//! The closed set of reasons a new ticket can be refused, and the exact
//! human-readable message each reason carries.

use vstd::prelude::*;

verus! {

/// A status text that did not name one of the known ticket statuses.
#[derive(Debug)]
pub struct ParseStatusError {
    invalid_status: String,
}

impl ParseStatusError {
    /// The text that failed to parse, as a character sequence.
    pub closed spec fn spec_invalid_status(&self) -> Seq<char> {
        self.invalid_status@
    }

    /// Records the text that failed to parse as a status.
    pub fn new(invalid_status: String) -> (r: ParseStatusError)
        ensures
            r.spec_invalid_status() == invalid_status@,
    {
        ParseStatusError { invalid_status }
    }

    /// The text that failed to parse.
    pub fn invalid_status(&self) -> (r: &str)
        ensures
            r@ == self.spec_invalid_status(),
    {
        self.invalid_status.as_str()
    }

    /// The message owed for this error: the offending text in backticks,
    /// followed by the list of accepted statuses.
    pub open spec fn spec_message(&self) -> Seq<char> {
        "`"@ + self.spec_invalid_status()
            + "` is not a valid status. Use one of: ToDo, InProgress, Done"@
    }

    /// Renders the human-readable message.
    pub fn message(&self) -> (r: String)
        ensures
            r@ == self.spec_message(),
    {
        let mut m = String::from_str("`");
        m.append(self.invalid_status.as_str());
        m.append("` is not a valid status. Use one of: ToDo, InProgress, Done");
        m
    }
}

/// Why a new ticket could not be built from its raw parts.
#[derive(Debug)]
pub enum TicketNewError {
    /// The title's byte length was zero.
    TitleCannotBeEmpty,
    /// The title's byte length exceeded the title limit.
    TitleTooLong,
    /// The description's byte length was zero.
    DescriptionCannotBeEmpty,
    /// The description's byte length exceeded the description limit.
    DescriptionTooLong,
    /// A status text failed to parse; carries the underlying error.
    StatusParseFailed(ParseStatusError),
}

impl TicketNewError {
    /// The message owed for each failure reason; a failed status parse is
    /// reported transparently with the underlying error's own message.
    pub open spec fn spec_message(&self) -> Seq<char> {
        match self {
            TicketNewError::TitleCannotBeEmpty => "The title cannot be empty"@,
            TicketNewError::TitleTooLong => "The title cannot be longer than 50 bytes"@,
            TicketNewError::DescriptionCannotBeEmpty => "The description cannot be empty"@,
            TicketNewError::DescriptionTooLong => (
                "The description cannot be longer than 500 bytes"@
            ),
            TicketNewError::StatusParseFailed(e) => e.spec_message(),
        }
    }

    /// Renders the human-readable message.
    pub fn message(&self) -> (r: String)
        ensures
            r@ == self.spec_message(),
    {
        match self {
            TicketNewError::TitleCannotBeEmpty => String::from_str("The title cannot be empty"),
            TicketNewError::TitleTooLong => {
                String::from_str("The title cannot be longer than 50 bytes")
            },
            TicketNewError::DescriptionCannotBeEmpty => {
                String::from_str("The description cannot be empty")
            },
            TicketNewError::DescriptionTooLong => {
                String::from_str("The description cannot be longer than 500 bytes")
            },
            TicketNewError::StatusParseFailed(e) => e.message(),
        }
    }
}

impl From<ParseStatusError> for TicketNewError {
    /// A failed status parse converts transparently into a ticket error.
    fn from(e: ParseStatusError) -> (r: TicketNewError) {
        TicketNewError::StatusParseFailed(e)
    }
}

impl vstd::std_specs::convert::FromSpecImpl<ParseStatusError> for TicketNewError {
    open spec fn obeys_from_spec() -> bool {
        true
    }

    open spec fn from_spec(e: ParseStatusError) -> TicketNewError {
        TicketNewError::StatusParseFailed(e)
    }
}

} // verus!

//! The validated ticket title and its fallible constructors.
//!
//! A title is acceptable exactly when the UTF-8 encoding of its text is
//! non-empty and at most [`MAX_TITLE_BYTES`] bytes long. The length is
//! measured in bytes, not in characters: a text of fifty characters whose
//! encoding is longer than fifty bytes is refused.

use vstd::prelude::*;
use vstd::utf8::encode_utf8;

use crate::errors::TicketNewError;

verus! {

/// The largest byte length a ticket title may have.
pub const MAX_TITLE_BYTES: usize = 50;

/// The length in bytes of the UTF-8 encoding of the character sequence `s`.
pub open spec fn spec_byte_len(s: Seq<char>) -> nat {
    encode_utf8(s).len()
}

/// Whether the text `s` satisfies both title constraints.
pub open spec fn spec_title_valid(s: Seq<char>) -> bool {
    1 <= spec_byte_len(s) <= MAX_TITLE_BYTES
}

/// The outcome validation owes for the text `s`. The constraints are checked
/// in order — empty first, then too long — and an acceptable text is taken
/// unchanged.
pub open spec fn spec_validate(s: Seq<char>) -> Result<Seq<char>, TicketNewError> {
    if spec_byte_len(s) == 0 {
        Err(TicketNewError::TitleCannotBeEmpty)
    } else if spec_byte_len(s) > MAX_TITLE_BYTES {
        Err(TicketNewError::TitleTooLong)
    } else {
        Ok(s)
    }
}

/// A ticket title whose text is known to be non-empty and at most
/// [`MAX_TITLE_BYTES`] bytes long. Values exist only through the validating
/// constructors, and nothing can change the text afterwards, so every value
/// satisfies both constraints throughout its life.
#[derive(Debug)]
pub struct TicketTitle {
    text: String,
}

impl View for TicketTitle {
    type V = Seq<char>;

    closed spec fn view(&self) -> Seq<char> {
        self.text@
    }
}

impl TicketTitle {
    #[verifier::type_invariant]
    spec fn constraints_hold(self) -> bool {
        spec_title_valid(self.text@)
    }

    /// The byte length of `value`, measured on its UTF-8 encoding.
    fn byte_len(value: &str) -> (n: usize)
        ensures
            n == spec_byte_len(value@),
    {
        value.as_bytes().len()
    }

    /// Checks the two title constraints in order and returns the error the
    /// first violated one owes, or `None` when the text is acceptable.
    fn title_error(value: &str) -> (r: Option<TicketNewError>)
        ensures
            match r {
                None => spec_title_valid(value@),
                Some(e) => spec_validate(value@) == Err::<Seq<char>, TicketNewError>(e),
            },
    {
        let n = Self::byte_len(value);
        if n == 0 {
            Some(TicketNewError::TitleCannotBeEmpty)
        } else if n > MAX_TITLE_BYTES {
            Some(TicketNewError::TitleTooLong)
        } else {
            None
        }
    }

    /// Validates an owned string, taking ownership of its text on success.
    pub fn try_from_string(value: String) -> (r: Result<TicketTitle, TicketNewError>)
        ensures
            r is Ok <==> spec_title_valid(value@),
            r matches Ok(t) ==> t@ == value@,
            r matches Err(e) ==> spec_validate(value@) == Err::<Seq<char>, TicketNewError>(e),
    {
        match Self::title_error(value.as_str()) {
            Some(e) => Err(e),
            None => Ok(TicketTitle { text: value }),
        }
    }

    /// Validates a borrowed string view, copying its text on success.
    pub fn try_from_str(value: &str) -> (r: Result<TicketTitle, TicketNewError>)
        ensures
            r is Ok <==> spec_title_valid(value@),
            r matches Ok(t) ==> t@ == value@,
            r matches Err(e) ==> spec_validate(value@) == Err::<Seq<char>, TicketNewError>(e),
    {
        match Self::title_error(value) {
            Some(e) => Err(e),
            None => Ok(TicketTitle { text: value.to_owned() }),
        }
    }

    /// The validated text. It is known to satisfy the title constraints, so
    /// validating it again must succeed.
    pub fn text(&self) -> (r: &str)
        ensures
            r@ == self@,
            spec_title_valid(self@),
    {
        proof {
            use_type_invariant(self);
        }
        self.text.as_str()
    }
}

impl Clone for TicketTitle {
    /// Cloning keeps the text exactly.
    fn clone(&self) -> (r: TicketTitle)
        ensures
            r@ == self@,
    {
        proof {
            use_type_invariant(self);
        }
        TicketTitle { text: self.text.clone() }
    }
}

impl PartialEq for TicketTitle {
    fn eq(&self, other: &TicketTitle) -> (r: bool) {
        self.text == other.text
    }
}

impl vstd::std_specs::cmp::PartialEqSpecImpl for TicketTitle {
    open spec fn obeys_eq_spec() -> bool {
        true
    }

    /// Two titles are equal exactly when their texts are equal.
    open spec fn eq_spec(&self, other: &TicketTitle) -> bool {
        self@ == other@
    }
}

/// Law: validation succeeds exactly on the texts whose UTF-8 byte length is
/// between one and [`MAX_TITLE_BYTES`], and an accepted text is returned
/// unchanged — no trimming, normalization or case change.
pub proof fn lemma_validate_exact(s: Seq<char>)
    ensures
        spec_validate(s) is Ok <==> spec_title_valid(s),
        spec_validate(s) matches Ok(t) ==> t == s,
{
}

/// Law: the text taken back out of a validated title passes validation again,
/// unchanged — so revalidating it reproduces an equal title.
pub proof fn lemma_revalidate_title(t: &TicketTitle)
    requires
        spec_title_valid(t@),
    ensures
        spec_validate(t@) == Ok::<Seq<char>, TicketNewError>(t@),
{
}

} // verus!

//! The normaliser's errors.

use crate::json::{Value, ValueView};
use crate::text::str_eq;
use crate::wire::Wire;
use vstd::prelude::*;

verus! {

/// Why a block that the node wrote in one of its known shapes was not
/// normalised: the shape is one that the normaliser does not translate.
#[derive(Debug, PartialEq, Eq, Clone, Copy, Structural)]
pub enum SolProbeError {
    /// A transaction is not written out as an object.
    UnsupportedEncoding,
    /// A transaction's message is not a raw message.
    UnsupportedMessageType,
}

impl DeepView for SolProbeError {
    type V = SolProbeError;

    open spec fn deep_view(&self) -> SolProbeError {
        *self
    }
}

impl SolProbeError {
    /// The name under which the case is written to the wire.
    pub open spec fn spec_tag(self) -> Seq<char> {
        match self {
            SolProbeError::UnsupportedEncoding => "unsupportedEncoding"@,
            SolProbeError::UnsupportedMessageType => "unsupportedMessageType"@,
        }
    }

    /// The case that is written as `tag`.
    pub open spec fn spec_from_tag(tag: Seq<char>) -> Option<SolProbeError> {
        if tag == "unsupportedEncoding"@ {
            Some(SolProbeError::UnsupportedEncoding)
        } else if tag == "unsupportedMessageType"@ {
            Some(SolProbeError::UnsupportedMessageType)
        } else {
            None
        }
    }

    /// The name under which the case is written to the wire.
    pub fn tag(&self) -> (name: &'static str)
        ensures
            name@ == self.spec_tag(),
    {
        match self {
            SolProbeError::UnsupportedEncoding => "unsupportedEncoding",
            SolProbeError::UnsupportedMessageType => "unsupportedMessageType",
        }
    }

    /// The case that is written as `tag`.
    pub fn from_tag(tag: &str) -> (found: Option<SolProbeError>)
        ensures
            found == SolProbeError::spec_from_tag(tag@),
    {
        if str_eq(tag, "unsupportedEncoding") {
            Some(SolProbeError::UnsupportedEncoding)
        } else if str_eq(tag, "unsupportedMessageType") {
            Some(SolProbeError::UnsupportedMessageType)
        } else {
            None
        }
    }
}

/// The names of the errors differ from one another.
pub proof fn lemma_error_tags(a: SolProbeError, b: SolProbeError)
    requires
        a.spec_tag() == b.spec_tag(),
    ensures
        a == b,
{
    reveal_strlit("unsupportedEncoding");
    reveal_strlit("unsupportedMessageType");
    assert("unsupportedEncoding"@.len() == 19);
    assert("unsupportedMessageType"@.len() == 22);
}

impl Wire for SolProbeError {
    open spec fn encoded(v: SolProbeError) -> ValueView {
        ValueView::String(v.spec_tag())
    }

    open spec fn decoded(w: ValueView) -> Option<SolProbeError> {
        match w {
            ValueView::String(tag) => SolProbeError::spec_from_tag(tag),
            _ => None,
        }
    }

    proof fn lemma_round_trip(v: SolProbeError) {
        let found = SolProbeError::spec_from_tag(v.spec_tag());
        assert(found is Some);
        lemma_error_tags(found->Some_0, v);
    }

    fn to_value(&self) -> (w: Value) {
        Value::String(self.tag().to_owned())
    }

    fn from_value(w: &Value) -> (r: Option<SolProbeError>) {
        match w {
            Value::String(tag) => SolProbeError::from_tag(tag.as_str()),
            _ => None,
        }
    }
}

/// A value, or why the normaliser has none.
pub type SolProbeResult<T> = Result<T, SolProbeError>;

} // verus!

//! Small supporting value types: a plain message error and the
//! ownership / authorization attribute types of the subscription model.
//! Serialization derives for these live in the application layer on
//! mirror types; here they are bare values the contracts can speak of.

use vstd::prelude::*;

verus! {

/// An error that carries nothing but a message.
pub struct MessageError(pub String);

impl MessageError {
    pub fn new(msg: String) -> (e: MessageError)
        ensures
            e.0 == msg,
    {
        MessageError(msg)
    }
}

/// Indicator of the application owning an event type.
pub struct OwningApplication(pub String);

impl OwningApplication {
    pub fn new(v: String) -> (r: OwningApplication)
        ensures
            r.0 == v,
    {
        OwningApplication(v)
    }
}

/// Data type of an `AuthorizationAttribute`.
pub struct AuthAttDataType(pub String);

/// Value of an `AuthorizationAttribute`.
pub struct AuthAttValue(pub String);

/// An attribute for authorization: a data type together with a value.
/// A wildcard in both fields means every authenticated user may perform
/// an operation.
pub struct AuthorizationAttribute {
    /// The type of attribute (e.g. a team or a permission).
    pub data_type: AuthAttDataType,
    /// The value of the attribute.
    pub value: AuthAttValue,
}

/// An empty textual field is read as absent; any other content is kept
/// as given. The application layer's deserializers lean on this rule.
pub fn empty_string_is_none(s: String) -> (r: Option<String>)
    ensures
        s@.len() == 0 ==> r is None,
        s@.len() != 0 ==> r == Some(s),
{
    if s.as_str().unicode_len() == 0 {
        None
    } else {
        Some(s)
    }
}

} // verus!

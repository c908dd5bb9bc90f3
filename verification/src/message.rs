//! Composition of an event's message text from its fields.
//!
//! Each field of an event contributes the literal pattern
//! `<name> = <rendered value>;` to the message, in emission order, with no
//! other separators. Rendering a value into human-readable text is the
//! caller's affair; this module only concatenates.

use vstd::prelude::*;
use vstd::string::StringExecFns;

verus! {

/// The textual entry a single field contributes to a message:
/// the field's name, ` = `, the rendered value, and a closing `;`.
pub open spec fn field_entry(name: Seq<char>, value: Seq<char>) -> Seq<char> {
    name + " = "@ + value + ";"@
}

/// The message composed from a sequence of (name, rendered value) pairs:
/// the concatenation of their entries, in order.
pub open spec fn message_of(fields: Seq<(String, String)>) -> Seq<char>
    decreases fields.len(),
{
    if fields.len() == 0 {
        Seq::empty()
    } else {
        message_of(fields.drop_last()) + field_entry(fields.last().0@, fields.last().1@)
    }
}

/// Accumulates an event's message text, one field at a time.
///
/// Every visitor starts from an empty buffer of its own, so messages built
/// by different visitors never share state.
pub struct EtwEventFieldVisitor {
    msg: String,
}

impl View for EtwEventFieldVisitor {
    type V = Seq<char>;

    closed spec fn view(&self) -> Seq<char> {
        self.msg@
    }
}

impl EtwEventFieldVisitor {
    /// Creates a visitor with an empty message buffer.
    pub fn new() -> (r: Self)
        ensures
            r@ == Seq::<char>::empty(),
    {
        Self { msg: String::new() }
    }

    /// Appends one field's entry, `name = value;`, to the message. The
    /// value arrives already rendered as display text.
    pub fn record_debug(&mut self, name: &str, value: &str)
        ensures
            final(self)@ == old(self)@ + field_entry(name@, value@),
    {
        self.msg.append(name);
        self.msg.append(" = ");
        self.msg.append(value);
        self.msg.append(";");
        proof {
            assert(self.msg@ =~= old(self)@ + field_entry(name@, value@));
        }
    }

    /// Hands out the composed message.
    pub fn message(self) -> (r: String)
        ensures
            r@ == self@,
    {
        self.msg
    }
}

} // verus!

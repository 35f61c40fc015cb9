//! What is known about a panic, in owned form.
use crate::text::{append_decimal, append_quoted, decimal, quoted};
use vstd::prelude::*;

verus! {

/// The place in the source code where a panic began.
#[derive(Debug)]
pub struct PanicLocation {
    pub file: String,
    pub line: u32,
    pub column: u32,
}

/// A panic as the language runtime reports it: it may lack a message, and it may lack a location.
#[derive(Debug)]
pub struct PanicReport {
    pub message: Option<String>,
    pub location: Option<PanicLocation>,
}

/// Information about a panic, with owned strings.
///
/// `A` is the type of the panic payload, which is carried along and never looked into.
#[derive(Debug)]
pub struct PanicInfoOwned<A> {
    pub payload: Option<A>,
    pub msg: String,
    pub file: String,
    pub line: u32,
    pub column: u32,
}

impl PanicReport {
    /// The message, which is empty where there is none.
    pub open spec fn message_text(self) -> Seq<char> {
        match self.message {
            Some(message) => message@,
            None => Seq::empty(),
        }
    }

    /// The file of the location, which is empty where there is none.
    pub open spec fn file_text(self) -> Seq<char> {
        match self.location {
            Some(location) => location.file@,
            None => Seq::empty(),
        }
    }

    /// The line of the location, which is zero where there is none.
    pub open spec fn line_number(self) -> u32 {
        match self.location {
            Some(location) => location.line,
            None => 0,
        }
    }

    /// The column of the location, which is zero where there is none.
    pub open spec fn column_number(self) -> u32 {
        match self.location {
            Some(location) => location.column,
            None => 0,
        }
    }
}

impl<A> PanicInfoOwned<A> {
    /// There is no message and no location.
    pub open spec fn lacks_message_and_location(self) -> bool {
        &&& self.msg@ == Seq::<char>::empty()
        &&& self.file@ == Seq::<char>::empty()
        &&& self.line == 0
        &&& self.column == 0
    }

    /// The text `file:line:column -- "message"`.
    pub open spec fn text(self) -> Seq<char> {
        self.file@ + ":"@ + decimal(self.line as nat) + ":"@ + decimal(
            self.column as nat,
        ) + " -- "@ + quoted(self.msg@)
    }

    /// Copies the message and the location out of a panic report.
    pub fn from(info: &PanicReport) -> (owned: Self)
        ensures
            owned.payload is None,
            owned.msg@ == info.message_text(),
            owned.file@ == info.file_text(),
            owned.line == info.line_number(),
            owned.column == info.column_number(),
    {
        let msg = match &info.message {
            Some(message) => message.clone(),
            None => String::new(),
        };
        let (file, line, column) = match &info.location {
            Some(location) => (location.file.clone(), location.line, location.column),
            None => (String::new(), 0u32, 0u32),
        };
        PanicInfoOwned { payload: None, msg, file, line, column }
    }

    /// Constructs information that holds only the given `payload`,
    /// without any location or message.
    ///
    /// Useful for forwarding panic payloads through a catch and resume unwinding sequence.
    pub fn from_payload(payload: A) -> (owned: Self)
        ensures
            owned.payload == Some(payload),
            owned.lacks_message_and_location(),
    {
        let mut owned: PanicInfoOwned<A> = Default::default();
        owned.payload = Some(payload);
        owned
    }

    /// Returns the text `file:line:column -- "message"`.
    pub fn to_string(&self) -> (out: String)
        ensures
            out@ == self.text(),
    {
        let mut out = self.file.clone();
        out.append(":");
        append_decimal(&mut out, self.line as u64);
        out.append(":");
        append_decimal(&mut out, self.column as u64);
        out.append(" -- ");
        append_quoted(&mut out, self.msg.as_str());
        out
    }
}

impl<A> Default for PanicInfoOwned<A> {
    fn default() -> (owned: Self)
        ensures
            owned.payload is None,
            owned.lacks_message_and_location(),
    {
        PanicInfoOwned {
            payload: None,
            msg: String::new(),
            file: String::new(),
            line: 0,
            column: 0,
        }
    }
}

} // verus!

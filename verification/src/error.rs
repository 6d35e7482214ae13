//! The errors medic reports.
use vstd::prelude::*;

verus! {

/// An error of another crate or of std, as medic shows it: its message
/// (its `Display`) and its `Debug` form.
#[derive(Debug)]
pub struct OutsideError {
    pub text: String,
    pub debug: String,
}

impl OutsideError {
    /// An error with message `text` and `Debug` form `debug`.
    pub fn new(text: String, debug: String) -> (r: Self)
        ensures
            r.text == text,
            r.debug == debug,
    {
        OutsideError { text, debug }
    }

    /// A copy of the error.
    pub fn copy(&self) -> (r: Self)
        ensures
            r.text@ == self.text@,
            r.debug@ == self.debug@,
    {
        OutsideError { text: self.text.clone(), debug: self.debug.clone() }
    }
}

/// An error. The variants tell where it came from.
#[derive(Debug)]
pub enum MedicError {
    Io(OutsideError),
    Arboard(OutsideError),
    Envsubst(OutsideError),
    /// The Debug form of a string that is not valid Unicode.
    OsString(String),
    Message(String),
    Other(OutsideError),
}

/// The message shown for an error.
pub open spec fn error_text(e: MedicError) -> Seq<char> {
    match e {
        MedicError::Io(e) => e.text@,
        MedicError::Arboard(e) => e.text@,
        MedicError::Envsubst(e) => e.text@,
        MedicError::OsString(os) => "Invalid OsString: "@ + os@,
        MedicError::Message(m) => m@,
        MedicError::Other(e) => e.text@,
    }
}

impl MedicError {
    /// A message error.
    pub fn from_message(msg: &str) -> (r: Self)
        ensures
            r matches MedicError::Message(m) && m@ == msg@,
    {
        MedicError::Message(msg.to_owned())
    }

    /// The message shown for the error.
    pub fn to_string(&self) -> (r: String)
        ensures
            r@ == error_text(*self),
    {
        match self {
            MedicError::Io(e) => e.text.clone(),
            MedicError::Arboard(e) => e.text.clone(),
            MedicError::Envsubst(e) => e.text.clone(),
            MedicError::OsString(os) => {
                let mut r = "Invalid OsString: ".to_owned();
                r.append(os.as_str());
                r
            },
            MedicError::Message(m) => m.clone(),
            MedicError::Other(e) => e.text.clone(),
        }
    }
}

} // verus!

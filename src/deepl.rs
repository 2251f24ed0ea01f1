use vstd::prelude::*;

verus! {

/// The message that the translation service gave when it refused a request.
#[derive(Debug, Clone)]
pub struct DeepLError {
    pub message: String,
}

impl DeepLError {
    pub fn new(message: &str) -> (r: Self)
        ensures
            r.message@ == message@,
    {
        DeepLError { message: String::from_str(message) }
    }

    /// The service's own words.
    pub fn message(&self) -> (r: &str)
        ensures
            r@ == self.message@,
    {
        self.message.as_str()
    }
}

/// Everything that can stop a run or a translation.
#[derive(Debug, Clone)]
pub enum TraduError {
    /// The configuration file was found but could not be read.
    ConfigRead(String),
    /// The configuration file does not hold a configuration.
    ConfigParse(String),
    /// The configuration holds an empty auth key.
    MissingCredential,
    /// The service could not be reached.
    Transport(String),
    /// The service answered with an error of its own.
    Api(DeepLError),
    /// The service's answer has neither an error nor a translation.
    Protocol,
}

pub open spec fn is_fatal_spec(e: TraduError) -> bool {
    match e {
        TraduError::ConfigRead(_) | TraduError::ConfigParse(_) | TraduError::MissingCredential => true,
        _ => false,
    }
}

impl TraduError {
    /// Configuration errors end the process; translation errors are only reported.
    pub fn is_fatal(&self) -> (r: bool)
        ensures
            r == is_fatal_spec(*self),
    {
        match self {
            TraduError::ConfigRead(_) | TraduError::ConfigParse(_) | TraduError::MissingCredential => true,
            _ => false,
        }
    }

    /// The process's exit status when a run ends with this error.
    pub fn exit_status(&self) -> (r: i32)
        ensures
            is_fatal_spec(*self) ==> r == 1,
            !is_fatal_spec(*self) ==> r == 0,
    {
        if self.is_fatal() {
            1
        } else {
            0
        }
    }
}

} // verus!

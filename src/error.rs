use vstd::prelude::*;

verus! {

/// A domain error: something failed that is not a protocol fault.
#[derive(Debug)]
pub enum AppError {
    Config(String),
    Tool(String),
}

impl AppError {
    /// The description that the error carries.
    pub fn detail(&self) -> (r: &String)
        ensures
            match self {
                AppError::Config(s) => r == s,
                AppError::Tool(s) => r == s,
            },
    {
        match self {
            AppError::Config(s) => s,
            AppError::Tool(s) => s,
        }
    }

    /// The error as a sentence, naming the area that failed.
    pub fn message(&self) -> (r: String)
        ensures
            match self {
                AppError::Config(s) => r@ == "Configuration error: "@ + s@,
                AppError::Tool(s) => r@ == "Tool error: "@ + s@,
            },
    {
        match self {
            AppError::Config(s) => String::from_str("Configuration error: ").concat(s.as_str()),
            AppError::Tool(s) => String::from_str("Tool error: ").concat(s.as_str()),
        }
    }
}

} // verus!

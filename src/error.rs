use vstd::prelude::*;

verus! {

/// What can go wrong, by origin. Local file and transport failures carry the
/// text of the underlying error.
#[derive(Debug, Clone, PartialEq, Eq)]
pub enum AppError {
    Io(String),
    Network(String),
    Config(String),
    Api(String),
    Input(String),
}

pub open spec fn error_text(e: AppError) -> Seq<char> {
    match e {
        AppError::Io(m) => "I/O error: "@ + m@,
        AppError::Network(m) => "Network error: "@ + m@,
        AppError::Config(m) => "Configuration error: "@ + m@,
        AppError::Api(m) => "API error: "@ + m@,
        AppError::Input(m) => "Input error: "@ + m@,
    }
}

impl AppError {
    /// The error as a sentence for the user, such as `Input error: ...`.
    pub fn to_display_string(&self) -> (r: String)
        ensures
            r@ == error_text(*self),
    {
        match self {
            AppError::Io(m) => String::from_str("I/O error: ").concat(m.as_str()),
            AppError::Network(m) => String::from_str("Network error: ").concat(m.as_str()),
            AppError::Config(m) => String::from_str("Configuration error: ").concat(m.as_str()),
            AppError::Api(m) => String::from_str("API error: ").concat(m.as_str()),
            AppError::Input(m) => String::from_str("Input error: ").concat(m.as_str()),
        }
    }
}

} // verus!

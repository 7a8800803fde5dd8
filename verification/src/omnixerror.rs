//! What can go wrong while a project is set up.
use crate::decimal::{decimal, to_decimal};
use vstd::prelude::*;
use vstd::string::StringExecFns;

verus! {

/// A failure to set up a project. Where another failure caused it, `source` is that
/// failure's text.
#[derive(Debug)]
pub enum InitError {
    /// The project's directory, or one below it, could not be made.
    ProjectDirCreationError(String),
    /// The program was started with this many arguments, which is too few.
    ArgumentCountError(usize),
    /// The file could not be made.
    FileCreationError { file_name: String, source: String },
    /// The file's text could not be written.
    ContentGenerationError { file_name: String, source: String },
    /// Anything else.
    UnknownError(String),
}

impl InitError {
    /// The message of this failure.
    pub open spec fn rendered(&self) -> Seq<char> {
        match self {
            InitError::ProjectDirCreationError(message) => "Failed to create the project directory: "@
                + message@,
            InitError::ArgumentCountError(count) =>
                "Invalid number of arguments provided: expected at least 2, got "@ + decimal(
                *count as nat,
            ),
            InitError::FileCreationError { file_name, source } => "Error while creating file '"@
                + file_name@ + "': "@ + source@,
            InitError::ContentGenerationError { file_name, source } =>
                "Error while generating content for '"@ + file_name@ + "': "@ + source@,
            InitError::UnknownError(message) => "Unknown error occurred: "@ + message@,
        }
    }

    /// The line that tells the user of this failure.
    pub open spec fn reported(&self) -> Seq<char> {
        match self {
            InitError::ProjectDirCreationError(message) => "Error: "@ + message@,
            InitError::ArgumentCountError(count) =>
                "Error: Incorrect number of arguments provided. Expected at least 2, but got "@
                + decimal(*count as nat) + "."@,
            InitError::FileCreationError { file_name, source } => "Error: Failed to create file '"@
                + file_name@ + "': "@ + source@,
            InitError::ContentGenerationError { file_name, source } =>
                "Error: Failed to generate content for file '"@ + file_name@ + "': "@ + source@,
            InitError::UnknownError(message) => "Error: "@ + message@,
        }
    }

    /// The message of this failure.
    pub fn render(&self) -> (text: String)
        ensures
            text@ == self.rendered(),
    {
        match self {
            InitError::ProjectDirCreationError(message) => {
                let mut text = String::from_str("Failed to create the project directory: ");
                text.append(message.as_str());
                text
            },
            InitError::ArgumentCountError(count) => {
                let mut text = String::from_str(
                    "Invalid number of arguments provided: expected at least 2, got ",
                );
                text.append(to_decimal(*count).as_str());
                text
            },
            InitError::FileCreationError { file_name, source } => {
                let mut text = String::from_str("Error while creating file '");
                text.append(file_name.as_str());
                text.append("': ");
                text.append(source.as_str());
                text
            },
            InitError::ContentGenerationError { file_name, source } => {
                let mut text = String::from_str("Error while generating content for '");
                text.append(file_name.as_str());
                text.append("': ");
                text.append(source.as_str());
                text
            },
            InitError::UnknownError(message) => {
                let mut text = String::from_str("Unknown error occurred: ");
                text.append(message.as_str());
                text
            },
        }
    }

    /// The line that tells the user of this failure.
    pub fn report(&self) -> (text: String)
        ensures
            text@ == self.reported(),
    {
        match self {
            InitError::ProjectDirCreationError(message) => {
                let mut text = String::from_str("Error: ");
                text.append(message.as_str());
                text
            },
            InitError::ArgumentCountError(count) => {
                let mut text = String::from_str(
                    "Error: Incorrect number of arguments provided. Expected at least 2, but got ",
                );
                text.append(to_decimal(*count).as_str());
                text.append(".");
                text
            },
            InitError::FileCreationError { file_name, source } => {
                let mut text = String::from_str("Error: Failed to create file '");
                text.append(file_name.as_str());
                text.append("': ");
                text.append(source.as_str());
                text
            },
            InitError::ContentGenerationError { file_name, source } => {
                let mut text = String::from_str("Error: Failed to generate content for file '");
                text.append(file_name.as_str());
                text.append("': ");
                text.append(source.as_str());
                text
            },
            InitError::UnknownError(message) => {
                let mut text = String::from_str("Error: ");
                text.append(message.as_str());
                text
            },
        }
    }
}

} // verus!

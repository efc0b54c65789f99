//! The error kinds of the relay server, the recorder and the replayer; each
//! carries a detail message.

use vstd::prelude::*;

verus! {

#[derive(Debug)]
pub enum ServerError {
    ConfigError(String),
    NetworkError(String),
    StorageError(String),
    RequestError(String),
}

impl ServerError {
    pub open spec fn message_spec(&self) -> Seq<char> {
        match self {
            ServerError::ConfigError(m) => "Configuration error: "@ + m@,
            ServerError::NetworkError(m) => "Network error: "@ + m@,
            ServerError::StorageError(m) => "Storage error: "@ + m@,
            ServerError::RequestError(m) => "Request error: "@ + m@,
        }
    }

    /// The error as text for logs and answers.
    pub fn message(&self) -> (r: String)
        ensures
            r@ == self.message_spec(),
    {
        let (prefix, detail) = match self {
            ServerError::ConfigError(m) => ("Configuration error: ", m),
            ServerError::NetworkError(m) => ("Network error: ", m),
            ServerError::StorageError(m) => ("Storage error: ", m),
            ServerError::RequestError(m) => ("Request error: ", m),
        };
        let mut text = prefix.to_owned();
        text.append(detail.as_str());
        text
    }
}

#[derive(Debug)]
pub enum RecorderError {
    ConfigError(String),
    NetworkError(String),
    StorageError(String),
    RequestError(String),
}

impl RecorderError {
    pub open spec fn message_spec(&self) -> Seq<char> {
        match self {
            RecorderError::ConfigError(m) => "Configuration error: "@ + m@,
            RecorderError::NetworkError(m) => "Network error: "@ + m@,
            RecorderError::StorageError(m) => "Storage error: "@ + m@,
            RecorderError::RequestError(m) => "Request error: "@ + m@,
        }
    }

    /// The error as text for logs and answers.
    pub fn message(&self) -> (r: String)
        ensures
            r@ == self.message_spec(),
    {
        let (prefix, detail) = match self {
            RecorderError::ConfigError(m) => ("Configuration error: ", m),
            RecorderError::NetworkError(m) => ("Network error: ", m),
            RecorderError::StorageError(m) => ("Storage error: ", m),
            RecorderError::RequestError(m) => ("Request error: ", m),
        };
        let mut text = prefix.to_owned();
        text.append(detail.as_str());
        text
    }
}

#[derive(Debug)]
pub enum ReplayerError {
    ConfigError(String),
    NetworkError(String),
    StorageError(String),
    RequestError(String),
}

impl ReplayerError {
    pub open spec fn message_spec(&self) -> Seq<char> {
        match self {
            ReplayerError::ConfigError(m) => "Configuration error: "@ + m@,
            ReplayerError::NetworkError(m) => "Network error: "@ + m@,
            ReplayerError::StorageError(m) => "Storage error: "@ + m@,
            ReplayerError::RequestError(m) => "Request error: "@ + m@,
        }
    }

    /// The error as text for logs and answers.
    pub fn message(&self) -> (r: String)
        ensures
            r@ == self.message_spec(),
    {
        let (prefix, detail) = match self {
            ReplayerError::ConfigError(m) => ("Configuration error: ", m),
            ReplayerError::NetworkError(m) => ("Network error: ", m),
            ReplayerError::StorageError(m) => ("Storage error: ", m),
            ReplayerError::RequestError(m) => ("Request error: ", m),
        };
        let mut text = prefix.to_owned();
        text.append(detail.as_str());
        text
    }
}

} // verus!

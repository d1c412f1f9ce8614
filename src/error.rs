//! Errors of launching the companion server.
use vstd::prelude::*;

verus! {

/// Why a launch could not go ahead. Each variant holds the detail: the
/// underlying failure, or for `AssetNotFound` the asset name that was sought.
pub enum LaunchError {
    Configuration(String),
    ReleaseResolution(String),
    AssetNotFound(String),
    Install(String),
    Download(String),
    Permission(String),
}

/// Mathematical view of `LaunchError`.
pub ghost enum ErrorModel {
    Configuration(Seq<char>),
    ReleaseResolution(Seq<char>),
    AssetNotFound(Seq<char>),
    Install(Seq<char>),
    Download(Seq<char>),
    Permission(Seq<char>),
}

impl View for LaunchError {
    type V = ErrorModel;

    open spec fn view(&self) -> ErrorModel {
        match self {
            LaunchError::Configuration(d) => ErrorModel::Configuration(d@),
            LaunchError::ReleaseResolution(d) => ErrorModel::ReleaseResolution(d@),
            LaunchError::AssetNotFound(d) => ErrorModel::AssetNotFound(d@),
            LaunchError::Install(d) => ErrorModel::Install(d@),
            LaunchError::Download(d) => ErrorModel::Download(d@),
            LaunchError::Permission(d) => ErrorModel::Permission(d@),
        }
    }
}

/// The message shown to the user for an error.
pub open spec fn message_spec(e: ErrorModel) -> Seq<char> {
    match e {
        ErrorModel::Configuration(d) => "invalid server settings: "@ + d,
        ErrorModel::ReleaseResolution(d) => "failed to resolve the latest release: "@ + d,
        ErrorModel::AssetNotFound(d) => "no asset found matching \""@ + d + "\""@,
        ErrorModel::Install(d) => "failed to create version directory: "@ + d,
        ErrorModel::Download(d) => "failed to download file: "@ + d,
        ErrorModel::Permission(d) => "failed to make the file executable: "@ + d,
    }
}

impl LaunchError {
    /// A one-line description of the error.
    pub fn message(&self) -> (r: String)
        ensures
            r@ == message_spec(self@),
    {
        match self {
            LaunchError::Configuration(d) => {
                let mut m = String::from_str("invalid server settings: ");
                m.append(d.as_str());
                m
            },
            LaunchError::ReleaseResolution(d) => {
                let mut m = String::from_str("failed to resolve the latest release: ");
                m.append(d.as_str());
                m
            },
            LaunchError::AssetNotFound(d) => {
                let mut m = String::from_str("no asset found matching \"");
                m.append(d.as_str());
                m.append("\"");
                m
            },
            LaunchError::Install(d) => {
                let mut m = String::from_str("failed to create version directory: ");
                m.append(d.as_str());
                m
            },
            LaunchError::Download(d) => {
                let mut m = String::from_str("failed to download file: ");
                m.append(d.as_str());
                m
            },
            LaunchError::Permission(d) => {
                let mut m = String::from_str("failed to make the file executable: ");
                m.append(d.as_str());
                m
            },
        }
    }
}

} // verus!

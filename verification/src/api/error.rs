//! The single error channel of the library.
use crate::api::text::{decimal, decimal_string};
use vstd::prelude::*;
use vstd::string::*;

verus! {

/// A form of the model that a caller may ask for and the server may lack.
#[derive(Debug, Clone, Copy, PartialEq, Eq)]
pub enum ModelVariant {
    Onnx,
    Quantized,
}

#[derive(Debug, Clone, PartialEq, Eq)]
pub enum Error {
    /// The identifying fields mix a uid with a name, repository or version,
    /// or give none of them.
    InvalidReference,
    /// The named registry is not one the server keeps.
    InvalidRegistry { registry: String },
    /// The address of a request is not an absolute URL.
    InvalidUrl { url: String },
    /// A request could not be sent, or its reply could not be received.
    RequestFailed { detail: String },
    /// The server answered a metadata or catalog request with a failure status.
    ServerRejected { status: u16, body: String },
    /// The listing of a remote path failed or could not be read.
    ListingError,
    /// The server refused to authorize the transfer of one file.
    AuthorizationDenied { status: u16, body: String },
    /// A reply with a success status held a body that could not be read.
    MalformedResponse,
    /// The metadata lacks the form of the model that was asked for.
    MissingVariant(ModelVariant),
    /// A listed remote file does not lie under the remote root.
    PathOutsideRoot { path: String },
    /// A local file or directory could not be created or written.
    LocalIOError { detail: String },
    /// The byte stream of a transfer broke off.
    TransferFailed { detail: String },
    /// Every permitted attempt to transfer a file failed.
    ExhaustedFailure { max_attempts: u32 },
}

impl Error {
    /// The text that `message` returns.
    pub open spec fn spec_message(&self) -> Seq<char> {
        match self {
            Error::InvalidReference => "Please provide either a uid or a name, repository, and version"@,
            Error::InvalidRegistry { registry } => "Invalid registry: "@ + registry@
                + ". Valid registries are: data, model, run, pipeline, audit, project"@,
            Error::InvalidUrl { url } => "Failed to parse url: "@ + url@,
            Error::RequestFailed { detail } => "Failed to send request: "@ + detail@,
            Error::ServerRejected { status, body } => "Request failed with status "@ + decimal(
                *status as nat,
            ) + ": "@ + body@,
            Error::ListingError => "Failed to list files"@,
            Error::AuthorizationDenied { status, body } => "Failed to download model with status "@
                + decimal(*status as nat) + ": "@ + body@,
            Error::MalformedResponse => "Failed to parse response"@,
            Error::MissingVariant(ModelVariant::Onnx) => "No onnx model uri found but onnx flag set to true"@,
            Error::MissingVariant(ModelVariant::Quantized) => "No quantize model uri found but quantize flag set to true"@,
            Error::PathOutsideRoot { path } => "Failed to create file path for "@ + path@,
            Error::LocalIOError { detail } => "Failed to write local file: "@ + detail@,
            Error::TransferFailed { detail } => "Failed to download file: "@ + detail@,
            Error::ExhaustedFailure { max_attempts } => "Failed to download file after "@ + decimal(
                *max_attempts as nat,
            ) + " attempts"@,
        }
    }

    /// The human-readable text of the error, without colour or decoration.
    pub fn message(&self) -> (text: String)
        ensures
            text@ == self.spec_message(),
    {
        match self {
            Error::InvalidReference => String::from_str(
                "Please provide either a uid or a name, repository, and version",
            ),
            Error::InvalidRegistry { registry } => {
                let mut text = String::from_str("Invalid registry: ");
                text.append(registry.as_str());
                text.append(". Valid registries are: data, model, run, pipeline, audit, project");
                text
            },
            Error::InvalidUrl { url } => {
                let mut text = String::from_str("Failed to parse url: ");
                text.append(url.as_str());
                text
            },
            Error::RequestFailed { detail } => {
                let mut text = String::from_str("Failed to send request: ");
                text.append(detail.as_str());
                text
            },
            Error::ServerRejected { status, body } => {
                let mut text = String::from_str("Request failed with status ");
                text.append(decimal_string(*status as u64).as_str());
                text.append(": ");
                text.append(body.as_str());
                text
            },
            Error::ListingError => String::from_str("Failed to list files"),
            Error::AuthorizationDenied { status, body } => {
                let mut text = String::from_str("Failed to download model with status ");
                text.append(decimal_string(*status as u64).as_str());
                text.append(": ");
                text.append(body.as_str());
                text
            },
            Error::MalformedResponse => String::from_str("Failed to parse response"),
            Error::MissingVariant(ModelVariant::Onnx) => String::from_str(
                "No onnx model uri found but onnx flag set to true",
            ),
            Error::MissingVariant(ModelVariant::Quantized) => String::from_str(
                "No quantize model uri found but quantize flag set to true",
            ),
            Error::PathOutsideRoot { path } => {
                let mut text = String::from_str("Failed to create file path for ");
                text.append(path.as_str());
                text
            },
            Error::LocalIOError { detail } => {
                let mut text = String::from_str("Failed to write local file: ");
                text.append(detail.as_str());
                text
            },
            Error::TransferFailed { detail } => {
                let mut text = String::from_str("Failed to download file: ");
                text.append(detail.as_str());
                text
            },
            Error::ExhaustedFailure { max_attempts } => {
                let mut text = String::from_str("Failed to download file after ");
                text.append(decimal_string(*max_attempts as u64).as_str());
                text.append(" attempts");
                text
            },
        }
    }
}

} // verus!

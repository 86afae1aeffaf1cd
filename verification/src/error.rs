//! The errors of a pull.
//!
//! `E` is the type of the errors that outside work ends with; the caller
//! picks it, and an error of that type is carried along unchanged. The
//! messages are fixed to the letter.

use vstd::prelude::*;

verus! {

/// Why a single layer could not be handled.
#[derive(Debug, PartialEq, Eq)]
pub enum LayerError<E> {
    /// The thread that asks for the decryption key did not come back.
    DecryptThread(E),
    /// No decryption key could be had.
    DecryptKey(E),
    /// The layer data could not be decrypted.
    Plaintext(E),
    /// No decoder handles the media type of the layer data.
    Decoder(E),
    /// The layer data could not be decompressed and unpacked.
    Unpack(E),
    /// The unpacked data is not the data that the image configuration names.
    UnequalDigest { uncompressed_digest: String, diff_id: String },
}

/// Why a pull failed.
#[derive(Debug, PartialEq, Eq)]
pub enum PullError<E> {
    /// The registry client could not be set up.
    Client(E),
    /// The manifest and the configuration of the image could not be pulled.
    Manifest(E),
    /// The registry did not start to send a layer.
    BlobStream(E),
    /// A layer could not be handled.
    HandleLayer(E),
    /// The pull of a bootstrap layer ended without a layer.
    NoBootstrapLayer,
}

/// What the `{:?}` formatting of a string writes.
pub uninterp spec fn debug_text(text: Seq<char>) -> Seq<char>;

/// Formats a string with `{:?}` by `std::format!`. Trusted: the text that
/// comes out depends on the string alone, and is called `debug_text` of it.
#[verifier::external_body]
fn debug_string(text: &str) -> (formatted: String)
    ensures
        formatted@ == debug_text(text@),
{
    format!("{:?}", text)
}

impl<E> LayerError<E> {
    /// The message of a layer error, where `detail` is the text of the error
    /// that outside work ended with.
    pub open spec fn text(self, detail: Seq<char>) -> Seq<char> {
        match self {
            LayerError::DecryptThread(_) => "decryptor thread failed to execute"@,
            LayerError::DecryptKey(_) => "failed to get decrypt key11111111111"@,
            LayerError::Plaintext(_) => "failed to async_get_plaintext_layer: "@ + detail,
            LayerError::Decoder(_) => detail,
            LayerError::Unpack(_) => detail,
            LayerError::UnequalDigest { uncompressed_digest, diff_id } => {
                "unequal uncompressed digest "@ + debug_text(uncompressed_digest@)
                    + " config diff_id "@ + debug_text(diff_id@)
            },
        }
    }

    /// The message of this error. `detail` is the text of the error inside:
    /// for `Plaintext` its `{:?}` text, for `Decoder` and `Unpack` its own
    /// message. The others do not quote it.
    pub fn message(&self, detail: &str) -> (message: String)
        ensures
            message@ == self.text(detail@),
    {
        match self {
            LayerError::DecryptThread(_) => "decryptor thread failed to execute".to_owned(),
            LayerError::DecryptKey(_) => "failed to get decrypt key11111111111".to_owned(),
            LayerError::Plaintext(_) => {
                let mut message = "failed to async_get_plaintext_layer: ".to_owned();
                message.append(detail);
                message
            },
            LayerError::Decoder(_) => detail.to_owned(),
            LayerError::Unpack(_) => detail.to_owned(),
            LayerError::UnequalDigest { uncompressed_digest, diff_id } => {
                let mut message = "unequal uncompressed digest ".to_owned();
                message.append(debug_string(uncompressed_digest.as_str()).as_str());
                message.append(" config diff_id ");
                message.append(debug_string(diff_id.as_str()).as_str());
                message
            },
        }
    }
}

impl<E> PullError<E> {
    /// The message of a pull error, where `detail` is the text of the error
    /// inside.
    pub open spec fn text(self, detail: Seq<char>) -> Seq<char> {
        match self {
            PullError::Client(_) => detail,
            PullError::Manifest(_) => "failed to pull manifest "@ + detail,
            PullError::BlobStream(_) => "failed to async pull blob stream "@ + detail,
            PullError::HandleLayer(_) => "failed to handle layer: "@ + detail,
            PullError::NoBootstrapLayer => "Failed to  download this bootstrap layer"@,
        }
    }

    /// The message of this error. `detail` is the text of the error inside:
    /// for `HandleLayer` its `{:?}` text, else its own message.
    pub fn message(&self, detail: &str) -> (message: String)
        ensures
            message@ == self.text(detail@),
    {
        match self {
            PullError::Client(_) => detail.to_owned(),
            PullError::Manifest(_) => {
                let mut message = "failed to pull manifest ".to_owned();
                message.append(detail);
                message
            },
            PullError::BlobStream(_) => {
                let mut message = "failed to async pull blob stream ".to_owned();
                message.append(detail);
                message
            },
            PullError::HandleLayer(_) => {
                let mut message = "failed to handle layer: ".to_owned();
                message.append(detail);
                message
            },
            PullError::NoBootstrapLayer => "Failed to  download this bootstrap layer".to_owned(),
        }
    }
}

} // verus!

//! YamlSigil v1alpha1 signed-artifact library: artifact decomposition,
//! payload invariants, the protobuf outer envelope and inner signature
//! message, signature-document handling, transcription, signing, and
//! verification.

pub mod algorithm;
pub mod bytes;
pub mod text;
pub mod resource;
pub mod payload;
pub mod decomposition;
pub mod varint;
pub mod conformance;
pub mod pb_error;
pub mod pb_wire;
pub mod pb;
pub mod proto_outer;
pub mod transcription;
pub mod external;
pub mod error;
pub mod signature_doc;
pub mod wire;
pub mod crypto;
pub mod verify;
pub mod verify_input;
pub mod sign;
pub mod transcode;
pub mod round_trip;
pub mod provider;
pub mod provider_signing;
pub mod provider_input;
pub mod release_gate;
pub mod release_identity;
pub mod release_pull;
pub mod release_checks;
pub mod release_classify;
pub mod release_qualify;
pub mod release_finalize;

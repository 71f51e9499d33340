//! Opt-in complete-artifact resource policy.
//!
//! YamlSigil `v1alpha1` does not define a maximum complete artifact size.
//! These limits are implementation-local and apply only where a caller
//! selects them explicitly.

use vstd::prelude::*;
use crate::text::{append_decimal, decimal_chars};

verus! {

/// The default artifact ceiling: exactly 4 MiB.
pub const DEFAULT_MAX_ARTIFACT_BYTES: usize = 4_194_304;

/// Encoded artifact form used by resource-policy diagnostics.
#[derive(Debug, Clone, Copy, PartialEq, Eq, Hash, Structural)]
pub enum ArtifactResourceForm {
    /// Signed YAML stream bytes.
    Yaml,
    /// Protobuf `SignedYamlArtifact` wire bytes.
    Protobuf,
}

/// Stable category for an artifact resource-policy failure.
#[derive(Debug, Clone, Copy, PartialEq, Eq, Hash, Structural)]
pub enum ArtifactResourceErrorKind {
    /// A complete encoded input exceeds the configured ceiling.
    InputArtifactTooLarge,
    /// A complete encoded output exceeds the configured ceiling.
    OutputArtifactTooLarge,
    /// The complete output size cannot be represented safely.
    SizeComputationOverflow,
}

pub open spec fn form_description(f: ArtifactResourceForm) -> Seq<char> {
    match f {
        ArtifactResourceForm::Yaml => "YAML"@,
        ArtifactResourceForm::Protobuf => "protobuf"@,
    }
}

pub open spec fn kind_description(k: ArtifactResourceErrorKind) -> Seq<char> {
    match k {
        ArtifactResourceErrorKind::InputArtifactTooLarge =>
            "input artifact exceeds the configured byte ceiling"@,
        ArtifactResourceErrorKind::OutputArtifactTooLarge =>
            "output artifact exceeds the configured byte ceiling"@,
        ArtifactResourceErrorKind::SizeComputationOverflow =>
            "artifact size computation overflowed"@,
    }
}

impl ArtifactResourceForm {
    /// Human-readable name of the form.
    pub fn description(self) -> (r: &'static str)
        ensures
            r@ == form_description(self),
    {
        match self {
            ArtifactResourceForm::Yaml => "YAML",
            ArtifactResourceForm::Protobuf => "protobuf",
        }
    }
}

impl ArtifactResourceErrorKind {
    /// Human-readable description of the category.
    pub fn description(self) -> (r: &'static str)
        ensures
            r@ == kind_description(self),
    {
        match self {
            ArtifactResourceErrorKind::InputArtifactTooLarge =>
                "input artifact exceeds the configured byte ceiling",
            ArtifactResourceErrorKind::OutputArtifactTooLarge =>
                "output artifact exceeds the configured byte ceiling",
            ArtifactResourceErrorKind::SizeComputationOverflow =>
                "artifact size computation overflowed",
        }
    }
}

/// The observable content of a resource-policy failure.
#[derive(Debug, Clone, Copy, PartialEq, Eq, Structural)]
pub struct ResourceErrorFacts {
    pub kind: ArtifactResourceErrorKind,
    pub artifact_form: Option<ArtifactResourceForm>,
    pub configured_max_artifact_bytes: Option<usize>,
    pub observed_or_projected_artifact_bytes: Option<usize>,
}

/// Opaque, content-free resource-policy failure.
///
/// The error retains only categories and byte counts.
#[derive(Debug, Clone, PartialEq, Eq, Structural)]
pub struct ArtifactResourceError {
    kind: ArtifactResourceErrorKind,
    artifact_form: Option<ArtifactResourceForm>,
    configured_max_artifact_bytes: Option<usize>,
    observed_or_projected_artifact_bytes: Option<usize>,
}

impl View for ArtifactResourceError {
    type V = ResourceErrorFacts;

    closed spec fn view(&self) -> ResourceErrorFacts {
        ResourceErrorFacts {
            kind: self.kind,
            artifact_form: self.artifact_form,
            configured_max_artifact_bytes: self.configured_max_artifact_bytes,
            observed_or_projected_artifact_bytes: self.observed_or_projected_artifact_bytes,
        }
    }
}

/// The facts of an error of `kind` for `form`.
pub open spec fn error_facts(
    kind: ArtifactResourceErrorKind,
    form: ArtifactResourceForm,
    configured: Option<usize>,
    observed: Option<usize>,
) -> ResourceErrorFacts {
    ResourceErrorFacts {
        kind,
        artifact_form: Some(form),
        configured_max_artifact_bytes: configured,
        observed_or_projected_artifact_bytes: observed,
    }
}

/// The display text of a resource error with the given facts.
pub open spec fn error_message(f: ResourceErrorFacts) -> Seq<char> {
    let head = match f.artifact_form {
        Some(form) => form_description(form),
        None => "artifact"@,
    } + " "@ + kind_description(f.kind) + " resource check failed"@;
    match f.configured_max_artifact_bytes {
        Some(m) => head + " (configured maximum: "@ + decimal_chars(m as nat) + " bytes"@
            + match f.observed_or_projected_artifact_bytes {
            Some(o) => ", observed or projected: "@ + decimal_chars(o as nat) + " bytes"@,
            None => Seq::<char>::empty(),
        } + ")"@,
        None => head,
    }
}

impl ArtifactResourceError {
    fn new(
        kind: ArtifactResourceErrorKind,
        artifact_form: ArtifactResourceForm,
        configured_max_artifact_bytes: Option<usize>,
        observed_or_projected_artifact_bytes: Option<usize>,
    ) -> (r: Self)
        ensures
            r@ == error_facts(
                kind,
                artifact_form,
                configured_max_artifact_bytes,
                observed_or_projected_artifact_bytes,
            ),
    {
        ArtifactResourceError {
            kind,
            artifact_form: Some(artifact_form),
            configured_max_artifact_bytes,
            observed_or_projected_artifact_bytes,
        }
    }

    /// Return the stable resource failure category.
    pub fn kind(&self) -> (r: ArtifactResourceErrorKind)
        ensures
            r == self@.kind,
    {
        self.kind
    }

    /// Return the encoded artifact form associated with this failure.
    pub fn artifact_form(&self) -> (r: Option<ArtifactResourceForm>)
        ensures
            r == self@.artifact_form,
    {
        self.artifact_form
    }

    /// Return the configured complete-artifact byte ceiling, when finite.
    pub fn configured_max_artifact_bytes(&self) -> (r: Option<usize>)
        ensures
            r == self@.configured_max_artifact_bytes,
    {
        self.configured_max_artifact_bytes
    }

    /// Return an exact observed or projected artifact size, when known.
    pub fn observed_or_projected_artifact_bytes(&self) -> (r: Option<usize>)
        ensures
            r == self@.observed_or_projected_artifact_bytes,
    {
        self.observed_or_projected_artifact_bytes
    }

    /// Human-readable, content-free description of the failure.
    pub fn message(&self) -> (r: String)
        ensures
            r@ == error_message(self@),
    {
        let mut out = match self.artifact_form {
            Some(form) => String::from_str(form.description()),
            None => String::from_str("artifact"),
        };
        out.append(" ");
        out.append(self.kind.description());
        out.append(" resource check failed");
        let ghost head = out@;
        match self.configured_max_artifact_bytes {
            Some(maximum) => {
                out.append(" (configured maximum: ");
                append_decimal(&mut out, maximum);
                out.append(" bytes");
                let ghost mid = out@;
                match self.observed_or_projected_artifact_bytes {
                    Some(observed) => {
                        out.append(", observed or projected: ");
                        append_decimal(&mut out, observed);
                        out.append(" bytes");
                    },
                    None => {},
                }
                out.append(")");
            },
            None => {},
        }
        assert(out@ =~= error_message(self@));
        out
    }
}

/// Opaque, forward-compatible artifact resource policy.
///
/// The one policy dimension is a maximum complete encoded artifact size;
/// a configured maximum is never zero.
#[derive(Debug, Clone, PartialEq, Eq, Hash, Structural)]
pub struct ArtifactResourceLimits {
    max_artifact_bytes: Option<usize>,
}

impl View for ArtifactResourceLimits {
    type V = Option<usize>;

    closed spec fn view(&self) -> Option<usize> {
        self.max_artifact_bytes
    }
}

/// The verdict of comparing a size with a ceiling.
pub open spec fn exceeds(limit: Option<usize>, size: int) -> bool {
    match limit {
        Some(m) => size > m,
        None => false,
    }
}

impl ArtifactResourceLimits {
    /// Disable every optional resource dimension.
    pub fn unbounded() -> (r: Self)
        ensures
            r@ == None::<usize>,
    {
        ArtifactResourceLimits { max_artifact_bytes: None }
    }

    /// Return the configured complete-artifact byte ceiling.
    pub fn max_artifact_bytes(&self) -> (r: Option<usize>)
        ensures
            r == self@,
    {
        self.max_artifact_bytes
    }

    /// Replace the complete-artifact byte ceiling.
    pub fn with_max_artifact_bytes(self, maximum: usize) -> (r: Self)
        requires
            maximum > 0,
        ensures
            r@ == Some(maximum),
    {
        ArtifactResourceLimits { max_artifact_bytes: Some(maximum) }
    }

    /// Disable only the complete-artifact byte ceiling.
    pub fn without_max_artifact_byte_limit(self) -> (r: Self)
        ensures
            r@ == None::<usize>,
    {
        ArtifactResourceLimits { max_artifact_bytes: None }
    }

    /// Check the exact byte length of a complete encoded input.
    ///
    /// On success this returns the original slice.
    pub fn check_input_size<'a>(&self, form: ArtifactResourceForm, artifact: &'a [u8]) -> (r:
        Result<&'a [u8], ArtifactResourceError>)
        ensures
            exceeds(self@, artifact.len() as int) ==> (r matches Err(e) && e@ == error_facts(
                ArtifactResourceErrorKind::InputArtifactTooLarge,
                form,
                self@,
                Some(artifact.len()),
            )),
            !exceeds(self@, artifact.len() as int) ==> r == Ok::<&[u8], ArtifactResourceError>(
                artifact,
            ),
    {
        match self.max_artifact_bytes {
            Some(maximum) => {
                if artifact.len() > maximum {
                    return Err(
                        ArtifactResourceError::new(
                            ArtifactResourceErrorKind::InputArtifactTooLarge,
                            form,
                            Some(maximum),
                            Some(artifact.len()),
                        ),
                    );
                }
                Ok(artifact)
            },
            None => Ok(artifact),
        }
    }

    /// Check the exact byte length of a complete encoded output.
    pub fn check_output_size(&self, form: ArtifactResourceForm, encoded_size: usize) -> (r: Result<
        usize,
        ArtifactResourceError,
    >)
        ensures
            exceeds(self@, encoded_size as int) ==> (r matches Err(e) && e@ == error_facts(
                ArtifactResourceErrorKind::OutputArtifactTooLarge,
                form,
                self@,
                Some(encoded_size),
            )),
            !exceeds(self@, encoded_size as int) ==> r == Ok::<usize, ArtifactResourceError>(
                encoded_size,
            ),
    {
        match self.max_artifact_bytes {
            Some(maximum) => {
                if encoded_size > maximum {
                    return Err(
                        ArtifactResourceError::new(
                            ArtifactResourceErrorKind::OutputArtifactTooLarge,
                            form,
                            Some(maximum),
                            Some(encoded_size),
                        ),
                    );
                }
                Ok(encoded_size)
            },
            None => Ok(encoded_size),
        }
    }

    /// Check a conclusive lower bound for a complete encoded output.
    ///
    /// A rejection here claims no exact output size.
    pub fn check_output_size_lower_bound(
        &self,
        form: ArtifactResourceForm,
        minimum_encoded_size: usize,
    ) -> (r: Result<usize, ArtifactResourceError>)
        ensures
            exceeds(self@, minimum_encoded_size as int) ==> (r matches Err(e) && e@ == error_facts(
                ArtifactResourceErrorKind::OutputArtifactTooLarge,
                form,
                self@,
                None,
            )),
            !exceeds(self@, minimum_encoded_size as int) ==> r == Ok::<
                usize,
                ArtifactResourceError,
            >(minimum_encoded_size),
    {
        match self.max_artifact_bytes {
            Some(maximum) => {
                if minimum_encoded_size > maximum {
                    return Err(
                        ArtifactResourceError::new(
                            ArtifactResourceErrorKind::OutputArtifactTooLarge,
                            form,
                            Some(maximum),
                            None,
                        ),
                    );
                }
                Ok(minimum_encoded_size)
            },
            None => Ok(minimum_encoded_size),
        }
    }

    /// Construct a resource error for an unrepresentable artifact size.
    pub fn size_computation_overflow(&self, form: ArtifactResourceForm) -> (r:
        ArtifactResourceError)
        ensures
            r@ == error_facts(
                ArtifactResourceErrorKind::SizeComputationOverflow,
                form,
                self@,
                None,
            ),
    {
        ArtifactResourceError::new(
            ArtifactResourceErrorKind::SizeComputationOverflow,
            form,
            self.max_artifact_bytes,
            None,
        )
    }
}

impl Default for ArtifactResourceLimits {
    /// The default policy: a ceiling of exactly [`DEFAULT_MAX_ARTIFACT_BYTES`].
    fn default() -> (r: Self)
        ensures
            r@ == Some(DEFAULT_MAX_ARTIFACT_BYTES),
    {
        ArtifactResourceLimits { max_artifact_bytes: Some(DEFAULT_MAX_ARTIFACT_BYTES) }
    }
}

} // verus!

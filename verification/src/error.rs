//! Errors of the metadata library.

use crate::text;
use vstd::prelude::*;
use vstd::string::*;

verus! {

/// What went wrong, with a message for people.
#[derive(Debug)]
pub enum MetadataError {
    NotFound(String),
    AlreadyExists(String),
    InvalidArgument(String),
    StaleState(String),
    FullReportRequired(String),
    ActiveWorkerConflict(String),
    ServiceUnavailable(String),
    LeaderChanged(String),
    NotSupported(String),
    CrossMountRename(String),
    IsDir(String),
    MountEpochMismatch { expected: u64, got: u64, mount_id: u64 },
    Internal(String),
}

pub type MetadataResult<T> = Result<T, MetadataError>;

/// The variants of `MetadataError` without what they carry.
#[derive(Clone, Copy, Debug, PartialEq, Eq, Structural)]
pub enum ErrorKind {
    NotFound,
    AlreadyExists,
    InvalidArgument,
    StaleState,
    FullReportRequired,
    ActiveWorkerConflict,
    ServiceUnavailable,
    LeaderChanged,
    NotSupported,
    CrossMountRename,
    IsDir,
    MountEpochMismatch,
    Internal,
}

impl MetadataError {
    /// The variant.
    pub open spec fn spec_kind(&self) -> ErrorKind {
        match self {
            MetadataError::NotFound(_) => ErrorKind::NotFound,
            MetadataError::AlreadyExists(_) => ErrorKind::AlreadyExists,
            MetadataError::InvalidArgument(_) => ErrorKind::InvalidArgument,
            MetadataError::StaleState(_) => ErrorKind::StaleState,
            MetadataError::FullReportRequired(_) => ErrorKind::FullReportRequired,
            MetadataError::ActiveWorkerConflict(_) => ErrorKind::ActiveWorkerConflict,
            MetadataError::ServiceUnavailable(_) => ErrorKind::ServiceUnavailable,
            MetadataError::LeaderChanged(_) => ErrorKind::LeaderChanged,
            MetadataError::NotSupported(_) => ErrorKind::NotSupported,
            MetadataError::CrossMountRename(_) => ErrorKind::CrossMountRename,
            MetadataError::IsDir(_) => ErrorKind::IsDir,
            MetadataError::MountEpochMismatch { .. } => ErrorKind::MountEpochMismatch,
            MetadataError::Internal(_) => ErrorKind::Internal,
        }
    }

    /// The message that the error carries.
    pub open spec fn spec_text(&self) -> Seq<char> {
        match self {
            MetadataError::NotFound(m) => m@,
            MetadataError::AlreadyExists(m) => m@,
            MetadataError::InvalidArgument(m) => m@,
            MetadataError::StaleState(m) => m@,
            MetadataError::FullReportRequired(m) => m@,
            MetadataError::ActiveWorkerConflict(m) => m@,
            MetadataError::ServiceUnavailable(m) => m@,
            MetadataError::LeaderChanged(m) => m@,
            MetadataError::NotSupported(m) => m@,
            MetadataError::CrossMountRename(m) => m@,
            MetadataError::IsDir(m) => m@,
            MetadataError::MountEpochMismatch { expected, got, mount_id } => mismatch_text(
                *expected,
                *got,
                *mount_id,
            ),
            MetadataError::Internal(m) => m@,
        }
    }

    /// Whether the error is of this variant and carries this message.
    pub open spec fn says(&self, kind: ErrorKind, text: Seq<char>) -> bool {
        self.spec_kind() == kind && self.spec_text() == text
    }

    /// The variant.
    pub fn kind(&self) -> (kind: ErrorKind)
        ensures
            kind == self.spec_kind(),
    {
        match self {
            MetadataError::NotFound(_) => ErrorKind::NotFound,
            MetadataError::AlreadyExists(_) => ErrorKind::AlreadyExists,
            MetadataError::InvalidArgument(_) => ErrorKind::InvalidArgument,
            MetadataError::StaleState(_) => ErrorKind::StaleState,
            MetadataError::FullReportRequired(_) => ErrorKind::FullReportRequired,
            MetadataError::ActiveWorkerConflict(_) => ErrorKind::ActiveWorkerConflict,
            MetadataError::ServiceUnavailable(_) => ErrorKind::ServiceUnavailable,
            MetadataError::LeaderChanged(_) => ErrorKind::LeaderChanged,
            MetadataError::NotSupported(_) => ErrorKind::NotSupported,
            MetadataError::CrossMountRename(_) => ErrorKind::CrossMountRename,
            MetadataError::IsDir(_) => ErrorKind::IsDir,
            MetadataError::MountEpochMismatch { .. } => ErrorKind::MountEpochMismatch,
            MetadataError::Internal(_) => ErrorKind::Internal,
        }
    }

    /// The message that the error carries.
    pub fn message(&self) -> (text: String)
        ensures
            text@ == self.spec_text(),
    {
        match self {
            MetadataError::NotFound(m) => m.clone(),
            MetadataError::AlreadyExists(m) => m.clone(),
            MetadataError::InvalidArgument(m) => m.clone(),
            MetadataError::StaleState(m) => m.clone(),
            MetadataError::FullReportRequired(m) => m.clone(),
            MetadataError::ActiveWorkerConflict(m) => m.clone(),
            MetadataError::ServiceUnavailable(m) => m.clone(),
            MetadataError::LeaderChanged(m) => m.clone(),
            MetadataError::NotSupported(m) => m.clone(),
            MetadataError::CrossMountRename(m) => m.clone(),
            MetadataError::IsDir(m) => m.clone(),
            MetadataError::MountEpochMismatch { expected, got, mount_id } => {
                let mut said = text::with_number("mount epoch mismatch: expected ", *expected, ", got ");
                text::push_decimal(&mut said, *got);
                said.append(", mount_id ");
                text::push_decimal(&mut said, *mount_id);
                said
            },
            MetadataError::Internal(m) => m.clone(),
        }
    }
}

/// The message of a mount epoch mismatch.
pub open spec fn mismatch_text(expected: u64, got: u64, mount_id: u64) -> Seq<char> {
    "mount epoch mismatch: expected "@ + text::decimal(expected as nat) + ", got "@ + text::decimal(got as nat)
        + ", mount_id "@ + text::decimal(mount_id as nat)
}

/// An error says the message that it was made with, whatever its variant.
pub proof fn law_errors_say_what_they_were_made_with(message: String)
    ensures
        MetadataError::NotFound(message).says(ErrorKind::NotFound, message@),
        MetadataError::AlreadyExists(message).says(ErrorKind::AlreadyExists, message@),
        MetadataError::InvalidArgument(message).says(ErrorKind::InvalidArgument, message@),
        MetadataError::StaleState(message).says(ErrorKind::StaleState, message@),
        MetadataError::FullReportRequired(message).says(ErrorKind::FullReportRequired, message@),
        MetadataError::ActiveWorkerConflict(message).says(ErrorKind::ActiveWorkerConflict, message@),
        MetadataError::ServiceUnavailable(message).says(ErrorKind::ServiceUnavailable, message@),
        MetadataError::LeaderChanged(message).says(ErrorKind::LeaderChanged, message@),
        MetadataError::NotSupported(message).says(ErrorKind::NotSupported, message@),
        MetadataError::CrossMountRename(message).says(ErrorKind::CrossMountRename, message@),
        MetadataError::IsDir(message).says(ErrorKind::IsDir, message@),
        MetadataError::Internal(message).says(ErrorKind::Internal, message@),
{
}

/// An error says one thing, and only a mismatch of mount epochs says that it is one.
pub proof fn law_errors_say_one_thing(error: MetadataError, kind: ErrorKind, other: ErrorKind, a: Seq<char>, b: Seq<char>)
    requires
        error.says(kind, a),
        error.says(other, b),
    ensures
        kind == other,
        a == b,
        error is MountEpochMismatch <==> kind == ErrorKind::MountEpochMismatch,
{
}

} // verus!

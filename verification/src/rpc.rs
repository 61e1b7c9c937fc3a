//! Errors as they are told to peers: what went wrong, and what the peer can do about it.

use crate::error::{ErrorKind, MetadataError};
use crate::ids::GroupName;
use crate::text;
use vstd::prelude::*;

verus! {

/// What a peer can make of an error.
#[derive(Clone, Copy, Debug, PartialEq, Eq, Structural)]
pub enum ErrorClass {
    Success,
    NeedRefresh,
    Retryable,
    Fatal,
}

#[derive(Clone, Copy, Debug, PartialEq, Eq, Structural)]
pub enum RpcErrorCode {
    InvalidArgument,
    InvalidHeader,
    NoSuchMethod,
    NodeUnavailable,
    NotLeader,
    RouteEpochMismatch,
    WorkerNotRegistered,
    WorkerRunMismatch,
    WorkerDescriptorMismatch,
    FullReportRequired,
}

/// What a peer has to refresh.
#[derive(Clone, Copy, Debug, PartialEq, Eq, Structural)]
pub enum RefreshReason {
    GroupMismatch,
    NeedRegister,
    NotLeader,
    RouteEpochMismatch,
    WorkerRunMismatch,
    FullReportRequired,
}

/// The status of an answer.
#[derive(Clone, Copy, Debug, PartialEq, Eq, Structural)]
pub enum RpcStatus {
    Success,
    Error,
    Fatal,
}

pub open spec fn status_for(class: ErrorClass) -> RpcStatus {
    match class {
        ErrorClass::Success => RpcStatus::Success,
        ErrorClass::NeedRefresh | ErrorClass::Retryable => RpcStatus::Error,
        ErrorClass::Fatal => RpcStatus::Fatal,
    }
}

/// The status of an answer with an error of this class.
pub fn status_of(class: ErrorClass) -> (status: RpcStatus)
    ensures
        status == status_for(class),
{
    match class {
        ErrorClass::Success => RpcStatus::Success,
        ErrorClass::NeedRefresh | ErrorClass::Retryable => RpcStatus::Error,
        ErrorClass::Fatal => RpcStatus::Fatal,
    }
}

/// An error as a peer sees it.
#[derive(Debug)]
pub struct CanonicalError {
    pub class: ErrorClass,
    pub code: RpcErrorCode,
    pub reason: Option<RefreshReason>,
    pub retry_after_ms: Option<u64>,
    pub message: String,
}

/// An error as a peer sees it.
pub ghost struct CanonicalModel {
    pub class: ErrorClass,
    pub code: RpcErrorCode,
    pub reason: Option<RefreshReason>,
    pub retry_after_ms: Option<u64>,
    pub text: Seq<char>,
}

impl View for CanonicalError {
    type V = CanonicalModel;

    open spec fn view(&self) -> CanonicalModel {
        CanonicalModel {
            class: self.class,
            code: self.code,
            reason: self.reason,
            retry_after_ms: self.retry_after_ms,
            text: self.message@,
        }
    }
}

impl CanonicalModel {
    pub open spec fn need_refresh(code: RpcErrorCode, reason: RefreshReason, text: Seq<char>) -> CanonicalModel {
        CanonicalModel { class: ErrorClass::NeedRefresh, code, reason: Some(reason), retry_after_ms: None, text }
    }

    pub open spec fn retryable(code: RpcErrorCode, after_ms: Option<u64>, text: Seq<char>) -> CanonicalModel {
        CanonicalModel { class: ErrorClass::Retryable, code, reason: None, retry_after_ms: after_ms, text }
    }

    pub open spec fn fatal(code: RpcErrorCode, reason: Option<RefreshReason>, text: Seq<char>) -> CanonicalModel {
        CanonicalModel { class: ErrorClass::Fatal, code, reason, retry_after_ms: None, text }
    }
}

impl CanonicalError {
    /// The peer has to refresh something and try again.
    pub fn need_refresh(code: RpcErrorCode, reason: RefreshReason, message: String) -> (error: Self)
        ensures
            error@ == CanonicalModel::need_refresh(code, reason, message@),
    {
        CanonicalError { class: ErrorClass::NeedRefresh, code, reason: Some(reason), retry_after_ms: None, message }
    }

    /// The peer can try again after a while.
    pub fn retryable(code: RpcErrorCode, after_ms: Option<u64>, message: String) -> (error: Self)
        ensures
            error@ == CanonicalModel::retryable(code, after_ms, message@),
    {
        CanonicalError { class: ErrorClass::Retryable, code, reason: None, retry_after_ms: after_ms, message }
    }

    /// Trying again does not help.
    pub fn fatal(code: RpcErrorCode, reason: Option<RefreshReason>, message: String) -> (error: Self)
        ensures
            error@ == CanonicalModel::fatal(code, reason, message@),
    {
        CanonicalError { class: ErrorClass::Fatal, code, reason, retry_after_ms: None, message }
    }
}

/// An error that is told to a peer: one that is settled, or one of this library's own.
#[derive(Debug)]
pub enum ErrorReply {
    Canonical(CanonicalError),
    Error(MetadataError),
}

pub ghost enum ReplyModel {
    Canonical(CanonicalModel),
    Error(ErrorKind, Seq<char>),
}

impl View for ErrorReply {
    type V = ReplyModel;

    open spec fn view(&self) -> ReplyModel {
        match self {
            ErrorReply::Canonical(error) => ReplyModel::Canonical(error@),
            ErrorReply::Error(error) => ReplyModel::Error(error.spec_kind(), error.spec_text()),
        }
    }
}

/// What kind of failure a request ended in.
#[derive(Clone, Copy, Debug, PartialEq, Eq, Structural)]
pub enum FailureKind {
    NodeUnavailable,
    NotLeader,
    OwnerGroupMismatch,
    InvalidHeader,
    /// The file system does not support the operation.
    NotSupported,
}

/// What a peer needs to know to refresh.
#[derive(Debug)]
pub struct RefreshHint {
    pub leader_endpoint: Option<String>,
    pub group_name: Option<GroupName>,
}

/// What a peer can do about a failure.
#[derive(Debug)]
pub enum RecoveryAction {
    Fail,
    Retry { after_ms: Option<u64> },
    RefreshMetadata(RefreshHint),
}

/// A failure with what can be done about it.
#[derive(Debug)]
pub struct RpcErrorDetail {
    pub kind: FailureKind,
    pub recovery: RecoveryAction,
    pub message: String,
}

pub ghost enum RecoveryModel {
    Fail,
    Retry(Option<u64>),
    RefreshMetadata { leader_endpoint: Option<Seq<char>>, group_name: Option<Seq<char>> },
}

pub ghost struct DetailModel {
    pub kind: FailureKind,
    pub recovery: RecoveryModel,
    pub text: Seq<char>,
}

/// An optional group by its name.
pub open spec fn named(group: Option<GroupName>) -> Option<Seq<char>> {
    match group {
        Some(g) => Some(g@),
        None => None,
    }
}

impl View for RecoveryAction {
    type V = RecoveryModel;

    open spec fn view(&self) -> RecoveryModel {
        match self {
            RecoveryAction::Fail => RecoveryModel::Fail,
            RecoveryAction::Retry { after_ms } => RecoveryModel::Retry(*after_ms),
            RecoveryAction::RefreshMetadata(hint) => RecoveryModel::RefreshMetadata {
                leader_endpoint: text::shown(hint.leader_endpoint),
                group_name: named(hint.group_name),
            },
        }
    }
}

impl View for RpcErrorDetail {
    type V = DetailModel;

    open spec fn view(&self) -> DetailModel {
        DetailModel { kind: self.kind, recovery: self.recovery@, text: self.message@ }
    }
}

impl DetailModel {
    pub open spec fn fail(kind: FailureKind, text: Seq<char>) -> DetailModel {
        DetailModel { kind, recovery: RecoveryModel::Fail, text }
    }

    pub open spec fn retry(kind: FailureKind, after_ms: Option<u64>, text: Seq<char>) -> DetailModel {
        DetailModel { kind, recovery: RecoveryModel::Retry(after_ms), text }
    }

    pub open spec fn refresh(
        kind: FailureKind,
        leader_endpoint: Option<Seq<char>>,
        group_name: Option<Seq<char>>,
        text: Seq<char>,
    ) -> DetailModel {
        DetailModel { kind, recovery: RecoveryModel::RefreshMetadata { leader_endpoint, group_name }, text }
    }
}

impl RpcErrorDetail {
    pub fn fail(kind: FailureKind, message: String) -> (detail: Self)
        ensures
            detail@ == DetailModel::fail(kind, message@),
    {
        RpcErrorDetail { kind, recovery: RecoveryAction::Fail, message }
    }

    pub fn retry(kind: FailureKind, after_ms: Option<u64>, message: String) -> (detail: Self)
        ensures
            detail@ == DetailModel::retry(kind, after_ms, message@),
    {
        RpcErrorDetail { kind, recovery: RecoveryAction::Retry { after_ms }, message }
    }

    pub fn refresh_metadata(kind: FailureKind, hint: RefreshHint, message: String) -> (detail: Self)
        ensures
            detail@ == DetailModel::refresh(
                kind,
                text::shown(hint.leader_endpoint),
                named(hint.group_name),
                message@,
            ),
    {
        RpcErrorDetail { kind, recovery: RecoveryAction::RefreshMetadata(hint), message }
    }
}

/// A copy of an optional group name.
pub fn copy_group(group: &Option<GroupName>) -> (copy: Option<GroupName>)
    ensures
        copy == *group,
{
    match group {
        Some(g) => Some(g.clone()),
        None => None,
    }
}

} // verus!

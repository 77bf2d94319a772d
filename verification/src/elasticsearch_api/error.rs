//! The error body of the Elasticsearch-compatible API.

use std::collections::BTreeMap;

use hyper::StatusCode;
use serde_json::Value;
use vstd::prelude::*;

verus! {

/// The HTTP status code of the `hyper` crate. Nothing is claimed of it: the library carries the
/// code of a failure into the error that reports the failure.
#[verifier::external_type_specification]
#[verifier::external_body]
pub struct ExStatusCode(StatusCode);

/// The JSON value of the `serde_json` crate. Nothing is claimed of it: it is what an error cause
/// holds under the names that have no field of their own.
#[verifier::external_type_specification]
#[verifier::external_body]
pub struct ExValue(Value);

/// What went wrong, in the terms of the Elasticsearch API.
#[derive(Debug)]
pub struct ErrorCause {
    /// The deeper cause.
    pub caused_by: Option<Box<ErrorCause>>,
    /// The explanation for the user.
    pub reason: Option<String>,
    /// The causes at the root of the failure.
    pub root_cause: Vec<ErrorCause>,
    /// The stack trace of the exception.
    pub stack_trace: Option<String>,
    /// The causes that were suppressed.
    pub suppressed: Vec<ErrorCause>,
    /// The type of the cause.
    pub ty: Option<String>,
    /// The details that have no field of their own.
    pub additional_details: BTreeMap<String, Value>,
}

/// The contents of an [`ErrorCause`].
pub struct ErrorCauseView {
    pub caused_by: Option<Box<ErrorCauseView>>,
    pub reason: Option<Seq<char>>,
    pub root_cause: Seq<ErrorCauseView>,
    pub stack_trace: Option<Seq<char>>,
    pub suppressed: Seq<ErrorCauseView>,
    pub ty: Option<Seq<char>>,
    pub additional_details: Map<String, Value>,
}

impl ErrorCauseView {
    /// The cause that holds a reason and nothing else.
    pub open spec fn from_reason(reason: Seq<char>) -> Self {
        ErrorCauseView {
            caused_by: None,
            reason: Some(reason),
            root_cause: seq![],
            stack_trace: None,
            suppressed: seq![],
            ty: None,
            additional_details: map![],
        }
    }
}

impl ErrorCause {
    /// The contents of the cause and of the causes below it.
    pub open spec fn contents(self) -> ErrorCauseView
        decreases self,
    {
        ErrorCauseView {
            caused_by: match self.caused_by {
                Some(cause) => Some(Box::new(cause.contents())),
                None => None,
            },
            reason: self.reason.deep_view(),
            root_cause: Seq::new(
                self.root_cause@.len(),
                |i: int|
                    if 0 <= i < self.root_cause@.len() {
                        self.root_cause@[i].contents()
                    } else {
                        arbitrary()
                    },
            ),
            stack_trace: self.stack_trace.deep_view(),
            suppressed: Seq::new(
                self.suppressed@.len(),
                |i: int|
                    if 0 <= i < self.suppressed@.len() {
                        self.suppressed@[i].contents()
                    } else {
                        arbitrary()
                    },
            ),
            ty: self.ty.deep_view(),
            additional_details: self.additional_details@,
        }
    }

    /// Returns the cause that holds `reason` and nothing else.
    fn from_reason(reason: String) -> (cause: Self)
        ensures
            cause@ == ErrorCauseView::from_reason(reason@),
    {
        let cause = ErrorCause {
            caused_by: None,
            reason: Some(reason),
            root_cause: Vec::new(),
            stack_trace: None,
            suppressed: Vec::new(),
            ty: None,
            additional_details: BTreeMap::default(),
        };
        assert(cause@.root_cause =~= ErrorCauseView::from_reason(reason@).root_cause);
        assert(cause@.suppressed =~= ErrorCauseView::from_reason(reason@).suppressed);
        cause
    }
}

impl View for ErrorCause {
    type V = ErrorCauseView;

    open spec fn view(&self) -> ErrorCauseView {
        self.contents()
    }
}

impl Clone for ErrorCause {
    fn clone(&self) -> (cause: Self)
        ensures
            cause@ == self@,
        decreases self,
    {
        let caused_by = match &self.caused_by {
            Some(cause) => Some(Box::new((&**cause).clone())),
            None => None,
        };
        let mut root_cause: Vec<ErrorCause> = Vec::new();
        for i in 0..self.root_cause.len()
            invariant
                root_cause@.len() == i,
                forall|j: int| 0 <= j < i ==> (#[trigger] root_cause@[j]).contents() == self.root_cause@[j].contents(),
        {
            root_cause.push(self.root_cause[i].clone());
        }
        let mut suppressed: Vec<ErrorCause> = Vec::new();
        for i in 0..self.suppressed.len()
            invariant
                suppressed@.len() == i,
                forall|j: int| 0 <= j < i ==> (#[trigger] suppressed@[j]).contents() == self.suppressed@[j].contents(),
        {
            suppressed.push(self.suppressed[i].clone());
        }
        let cause = ErrorCause {
            caused_by,
            reason: self.reason.clone(),
            root_cause,
            stack_trace: self.stack_trace.clone(),
            suppressed,
            ty: self.ty.clone(),
            additional_details: self.additional_details.clone(),
        };
        assert(cause@.root_cause =~= self@.root_cause);
        assert(cause@.suppressed =~= self@.suppressed);
        cause
    }
}

/// An error as the Elasticsearch-compatible API reports it.
#[derive(Debug)]
pub struct ElasticsearchError {
    /// The status code of the response.
    pub status: StatusCode,
    /// What went wrong.
    pub error: ErrorCause,
}

/// The contents of an [`ElasticsearchError`].
pub struct ElasticsearchErrorView {
    pub status: StatusCode,
    pub error: ErrorCauseView,
}

impl ElasticsearchErrorView {
    /// The error that reports a status code and a reason, and nothing else.
    pub open spec fn from_reason(status: StatusCode, reason: Seq<char>) -> Self {
        ElasticsearchErrorView { status, error: ErrorCauseView::from_reason(reason) }
    }
}

impl View for ElasticsearchError {
    type V = ElasticsearchErrorView;

    open spec fn view(&self) -> ElasticsearchErrorView {
        ElasticsearchErrorView { status: self.status, error: self.error@ }
    }
}

impl Clone for ElasticsearchError {
    fn clone(&self) -> (error: Self)
        ensures
            error@ == self@,
    {
        ElasticsearchError { status: self.status, error: self.error.clone() }
    }
}

impl ElasticsearchError {
    /// Returns the error with this status code and this reason. Only the reason is filled in.
    pub fn new(status: StatusCode, reason_string: String) -> (error: Self)
        ensures
            error@ == ElasticsearchErrorView::from_reason(status, reason_string@),
    {
        ElasticsearchError { status, error: ErrorCause::from_reason(reason_string) }
    }
}

/// A failure of the search service, as it is reported to the user.
#[derive(Debug)]
pub struct SearchError {
    /// The HTTP status code that goes with the error code of the failure.
    pub status: StatusCode,
    /// The failure in words.
    pub message: String,
}

/// The error is told by its contents, in the contract of `from`.
impl vstd::std_specs::convert::FromSpecImpl<SearchError> for ElasticsearchError {
    open spec fn obeys_from_spec() -> bool {
        false
    }

    open spec fn from_spec(search_error: SearchError) -> Self {
        arbitrary()
    }
}

impl From<SearchError> for ElasticsearchError {
    /// Returns the error that reports the status code and the words of the failure.
    fn from(search_error: SearchError) -> (error: Self)
        ensures
            error@ == ElasticsearchErrorView::from_reason(search_error.status, search_error.message@),
    {
        ElasticsearchError::new(search_error.status, search_error.message)
    }
}

/// A failure of the ingest service, as it is reported to the user.
#[derive(Debug)]
pub struct IngestServiceError {
    /// The HTTP status code that goes with the error code of the failure.
    pub status: StatusCode,
    /// The failure in words.
    pub message: String,
}

/// The error is told by its contents, in the contract of `from`.
impl vstd::std_specs::convert::FromSpecImpl<IngestServiceError> for ElasticsearchError {
    open spec fn obeys_from_spec() -> bool {
        false
    }

    open spec fn from_spec(ingest_service_error: IngestServiceError) -> Self {
        arbitrary()
    }
}

impl From<IngestServiceError> for ElasticsearchError {
    /// Returns the error that reports the status code and the words of the failure.
    fn from(ingest_service_error: IngestServiceError) -> (error: Self)
        ensures
            error@ == ElasticsearchErrorView::from_reason(ingest_service_error.status, ingest_service_error.message@),
    {
        ElasticsearchError::new(ingest_service_error.status, ingest_service_error.message)
    }
}

/// A failure of the second version of the ingest service, as it is reported to the user.
#[derive(Debug)]
pub struct IngestV2Error {
    /// The HTTP status code that goes with the error code of the failure.
    pub status: StatusCode,
    /// The failure in words.
    pub message: String,
}

/// The error is told by its contents, in the contract of `from`.
impl vstd::std_specs::convert::FromSpecImpl<IngestV2Error> for ElasticsearchError {
    open spec fn obeys_from_spec() -> bool {
        false
    }

    open spec fn from_spec(ingest_error: IngestV2Error) -> Self {
        arbitrary()
    }
}

impl From<IngestV2Error> for ElasticsearchError {
    /// Returns the error that reports the status code and the words of the failure.
    fn from(ingest_error: IngestV2Error) -> (error: Self)
        ensures
            error@ == ElasticsearchErrorView::from_reason(ingest_error.status, ingest_error.message@),
    {
        ElasticsearchError::new(ingest_error.status, ingest_error.message)
    }
}

/// A failure of the index service, as it is reported to the user.
#[derive(Debug)]
pub struct IndexServiceError {
    /// The HTTP status code that goes with the error code of the failure.
    pub status: StatusCode,
    /// The failure in words.
    pub message: String,
}

/// The error is told by its contents, in the contract of `from`.
impl vstd::std_specs::convert::FromSpecImpl<IndexServiceError> for ElasticsearchError {
    open spec fn obeys_from_spec() -> bool {
        false
    }

    open spec fn from_spec(index_service_error: IndexServiceError) -> Self {
        arbitrary()
    }
}

impl From<IndexServiceError> for ElasticsearchError {
    /// Returns the error that reports the status code and the words of the failure.
    fn from(index_service_error: IndexServiceError) -> (error: Self)
        ensures
            error@ == ElasticsearchErrorView::from_reason(index_service_error.status, index_service_error.message@),
    {
        ElasticsearchError::new(index_service_error.status, index_service_error.message)
    }
}

/// An error made from a status code and a reason tells both: from another status code or another
/// reason comes another error.
pub proof fn law_error_tells_status_and_reason(
    status: StatusCode,
    reason: Seq<char>,
    other_status: StatusCode,
    other_reason: Seq<char>,
)
    ensures
        ElasticsearchErrorView::from_reason(status, reason) == ElasticsearchErrorView::from_reason(
            other_status,
            other_reason,
        ) <==> status == other_status && reason == other_reason,
{
    let error = ElasticsearchErrorView::from_reason(status, reason);
    let other = ElasticsearchErrorView::from_reason(other_status, other_reason);
    assert(error == other ==> error.error.reason == other.error.reason);
}

/// An error is made of the status code and the reason as they are given, and of nothing else.
pub proof fn law_new_error_holds_status_and_reason(
    status: StatusCode,
    reason_string: String,
    error: ElasticsearchError,
)
    requires
        call_ensures(ElasticsearchError::new, (status, reason_string), error),
    ensures
        error.status == status,
        error.error.reason is Some,
        error.error.reason->0@ == reason_string@,
        error.error.caused_by is None,
        error.error.root_cause@.len() == 0,
        error.error.stack_trace is None,
        error.error.suppressed@.len() == 0,
        error.error.ty is None,
        error.error.additional_details@ == Map::<String, Value>::empty(),
{
    lemma_parts(error, status, reason_string@);
}

/// What an error with the contents of a status code and a reason is made of.
proof fn lemma_parts(error: ElasticsearchError, status: StatusCode, reason: Seq<char>)
    requires
        error@ == ElasticsearchErrorView::from_reason(status, reason),
    ensures
        error.status == status,
        error.error.reason is Some,
        error.error.reason->0@ == reason,
        error.error.caused_by is None,
        error.error.root_cause@.len() == 0,
        error.error.stack_trace is None,
        error.error.suppressed@.len() == 0,
        error.error.ty is None,
        error.error.additional_details@ == Map::<String, Value>::empty(),
{
    law_cause_is_told_by_its_parts(error.error);
}

/// The error that reports a failure of the search service has its status code and its words, and nothing else.
pub proof fn law_search_error_is_reported_as_it_is(search_error: SearchError, error: ElasticsearchError)
    requires
        call_ensures(<ElasticsearchError as From<SearchError>>::from, (search_error,), error),
    ensures
        error.status == search_error.status,
        error.error.reason is Some,
        error.error.reason->0@ == search_error.message@,
        error.error.caused_by is None,
        error.error.root_cause@.len() == 0,
        error.error.stack_trace is None,
        error.error.suppressed@.len() == 0,
        error.error.ty is None,
        error.error.additional_details@ == Map::<String, Value>::empty(),
{
    lemma_parts(error, search_error.status, search_error.message@);
}

/// The error that reports a failure of the ingest service has its status code and its words, and nothing else.
pub proof fn law_ingest_service_error_is_reported_as_it_is(ingest_service_error: IngestServiceError, error: ElasticsearchError)
    requires
        call_ensures(<ElasticsearchError as From<IngestServiceError>>::from, (ingest_service_error,), error),
    ensures
        error.status == ingest_service_error.status,
        error.error.reason is Some,
        error.error.reason->0@ == ingest_service_error.message@,
        error.error.caused_by is None,
        error.error.root_cause@.len() == 0,
        error.error.stack_trace is None,
        error.error.suppressed@.len() == 0,
        error.error.ty is None,
        error.error.additional_details@ == Map::<String, Value>::empty(),
{
    lemma_parts(error, ingest_service_error.status, ingest_service_error.message@);
}

/// The error that reports a failure of the second version of the ingest service has its status code and its words, and nothing else.
pub proof fn law_ingest_v2_error_is_reported_as_it_is(ingest_error: IngestV2Error, error: ElasticsearchError)
    requires
        call_ensures(<ElasticsearchError as From<IngestV2Error>>::from, (ingest_error,), error),
    ensures
        error.status == ingest_error.status,
        error.error.reason is Some,
        error.error.reason->0@ == ingest_error.message@,
        error.error.caused_by is None,
        error.error.root_cause@.len() == 0,
        error.error.stack_trace is None,
        error.error.suppressed@.len() == 0,
        error.error.ty is None,
        error.error.additional_details@ == Map::<String, Value>::empty(),
{
    lemma_parts(error, ingest_error.status, ingest_error.message@);
}

/// The error that reports a failure of the index service has its status code and its words, and nothing else.
pub proof fn law_index_service_error_is_reported_as_it_is(index_service_error: IndexServiceError, error: ElasticsearchError)
    requires
        call_ensures(<ElasticsearchError as From<IndexServiceError>>::from, (index_service_error,), error),
    ensures
        error.status == index_service_error.status,
        error.error.reason is Some,
        error.error.reason->0@ == index_service_error.message@,
        error.error.caused_by is None,
        error.error.root_cause@.len() == 0,
        error.error.stack_trace is None,
        error.error.suppressed@.len() == 0,
        error.error.ty is None,
        error.error.additional_details@ == Map::<String, Value>::empty(),
{
    lemma_parts(error, index_service_error.status, index_service_error.message@);
}

/// The contents of a cause are its parts.
pub proof fn law_cause_is_told_by_its_parts(cause: ErrorCause)
    ensures
        cause@.caused_by is Some <==> cause.caused_by is Some,
        cause.caused_by is Some ==> *cause@.caused_by->0 == cause.caused_by->0@,
        cause@.reason is Some <==> cause.reason is Some,
        cause.reason is Some ==> cause@.reason->0 == cause.reason->0@,
        cause@.root_cause.len() == cause.root_cause@.len(),
        forall|i: int|
            0 <= i < cause.root_cause@.len() ==> #[trigger] cause@.root_cause[i]
                == cause.root_cause@[i]@,
        cause@.stack_trace is Some <==> cause.stack_trace is Some,
        cause.stack_trace is Some ==> cause@.stack_trace->0 == cause.stack_trace->0@,
        cause@.suppressed.len() == cause.suppressed@.len(),
        forall|i: int|
            0 <= i < cause.suppressed@.len() ==> #[trigger] cause@.suppressed[i]
                == cause.suppressed@[i]@,
        cause@.ty is Some <==> cause.ty is Some,
        cause.ty is Some ==> cause@.ty->0 == cause.ty->0@,
        cause@.additional_details == cause.additional_details@,
{
}

/// A cloned cause has the parts of the cause that it is cloned from.
pub proof fn law_cloned_cause_has_the_same_parts(cause: &ErrorCause, clone: ErrorCause)
    requires
        call_ensures(<ErrorCause as Clone>::clone, (cause,), clone),
    ensures
        clone@ == cause@,
        clone.caused_by is Some <==> cause.caused_by is Some,
        cause.caused_by is Some ==> clone.caused_by->0@ == cause.caused_by->0@,
        clone.reason is Some <==> cause.reason is Some,
        cause.reason is Some ==> clone.reason->0@ == cause.reason->0@,
        clone.root_cause@.len() == cause.root_cause@.len(),
        forall|i: int|
            0 <= i < cause.root_cause@.len() ==> (#[trigger] clone.root_cause@[i])@
                == cause.root_cause@[i]@,
        clone.stack_trace is Some <==> cause.stack_trace is Some,
        cause.stack_trace is Some ==> clone.stack_trace->0@ == cause.stack_trace->0@,
        clone.suppressed@.len() == cause.suppressed@.len(),
        forall|i: int|
            0 <= i < cause.suppressed@.len() ==> (#[trigger] clone.suppressed@[i])@
                == cause.suppressed@[i]@,
        clone.ty is Some <==> cause.ty is Some,
        cause.ty is Some ==> clone.ty->0@ == cause.ty->0@,
        clone.additional_details@ == cause.additional_details@,
{
    law_cause_is_told_by_its_parts(*cause);
    law_cause_is_told_by_its_parts(clone);
    assert forall|i: int| 0 <= i < cause.root_cause@.len() implies (
    #[trigger] clone.root_cause@[i])@ == cause.root_cause@[i]@ by {
        assert(clone@.root_cause[i] == cause@.root_cause[i]);
    }
    assert forall|i: int| 0 <= i < cause.suppressed@.len() implies (
    #[trigger] clone.suppressed@[i])@ == cause.suppressed@[i]@ by {
        assert(clone@.suppressed[i] == cause@.suppressed[i]);
    }
}

/// A cloned error has the status code and the cause of the error that it is cloned from.
pub proof fn law_cloned_error_has_the_same_parts(
    error: &ElasticsearchError,
    clone: ElasticsearchError,
)
    requires
        call_ensures(<ElasticsearchError as Clone>::clone, (error,), clone),
    ensures
        clone.status == error.status,
        clone.error@ == error.error@,
{
}

} // verus!

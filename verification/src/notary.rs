//! The documents exchanged with the notary service.
//!
//! Each type mirrors one JSON object of the service's schema. Member names on
//! the wire are lower camel case whatever the field is called here; the
//! `is_encoded_by` predicate of a type says which document stands for which
//! value, and the codecs are proved against it.

use crate::error::AppleCodesignError;
use crate::json::{
    document_member, json_array, json_get, json_items, json_members, json_object, json_parse,
    json_string, parse_json, push_member, spec_member, spec_text_member, text_member,
};
use vstd::prelude::*;

verus! {

/// A notification that the notary service sends when notarization finishes.
#[derive(Clone, Debug)]
pub struct NewSubmissionRequestNotification {
    pub channel: String,
    pub target: String,
}

impl NewSubmissionRequestNotification {
    /// `doc` is the object with exactly the members `channel` and `target`,
    /// holding this notification's texts.
    pub open spec fn is_encoded_by(&self, doc: serde_json::Value) -> bool {
        &&& json_members(doc).dom() =~= set!["channel"@, "target"@]
        &&& spec_text_member(doc, "channel"@) == Some(self.channel@)
        &&& spec_text_member(doc, "target"@) == Some(self.target@)
    }

    /// The JSON object that stands for this notification.
    pub fn to_json(&self) -> (doc: serde_json::Value)
        ensures
            self.is_encoded_by(doc),
    {
        let mut pairs: Vec<(String, serde_json::Value)> = Vec::new();
        push_member(&mut pairs, "channel", json_string(self.channel.as_str()));
        push_member(&mut pairs, "target", json_string(self.target.as_str()));
        proof {
            reveal_strlit("channel");
            reveal_strlit("target");
            assert("channel"@.len() != "target"@.len());
        }
        json_object(pairs)
    }
}

/// Data provided when starting a submission to the notary service.
#[derive(Clone, Debug)]
pub struct NewSubmissionRequest {
    pub notifications: Vec<NewSubmissionRequestNotification>,
    pub sha256: String,
    pub submission_name: String,
}

impl NewSubmissionRequest {
    /// `doc` is the object with exactly the members `notifications`, `sha256`
    /// and `submissionName`: the first an array with one object for each
    /// notification, in order, the other two this request's texts.
    pub open spec fn is_encoded_by(&self, doc: serde_json::Value) -> bool {
        &&& json_members(doc).dom() =~= set!["notifications"@, "sha256"@, "submissionName"@]
        &&& spec_text_member(doc, "sha256"@) == Some(self.sha256@)
        &&& spec_text_member(doc, "submissionName"@) == Some(self.submission_name@)
        &&& json_items(json_members(doc)["notifications"@]).len() == self.notifications@.len()
        &&& forall|i: int|
            0 <= i < self.notifications@.len() ==> (#[trigger] self.notifications@[i]).is_encoded_by(
                json_items(json_members(doc)["notifications"@])[i],
            )
    }

    /// The JSON object that stands for this request.
    pub fn to_json(&self) -> (doc: serde_json::Value)
        ensures
            self.is_encoded_by(doc),
    {
        let mut items: Vec<serde_json::Value> = Vec::new();
        let mut i: usize = 0;
        while i < self.notifications.len()
            invariant
                i <= self.notifications@.len(),
                items@.len() == i,
                forall|j: int|
                    0 <= j < i ==> (#[trigger] self.notifications@[j]).is_encoded_by(items@[j]),
            decreases self.notifications@.len() - i,
        {
            let item = self.notifications[i].to_json();
            items.push(item);
            i = i + 1;
        }
        let mut pairs: Vec<(String, serde_json::Value)> = Vec::new();
        push_member(&mut pairs, "notifications", json_array(items));
        push_member(&mut pairs, "sha256", json_string(self.sha256.as_str()));
        push_member(&mut pairs, "submissionName", json_string(self.submission_name.as_str()));
        proof {
            reveal_strlit("notifications");
            reveal_strlit("sha256");
            reveal_strlit("submissionName");
            assert("notifications"@.len() == 13);
            assert("sha256"@.len() == 6);
            assert("submissionName"@.len() == 14);
        }
        json_object(pairs)
    }
}

/// Temporary credentials and the location for uploading the software to be
/// notarized.
#[derive(Clone, Debug)]
pub struct NewSubmissionResponseDataAttributes {
    pub aws_access_key_id: String,
    pub aws_secret_access_key: String,
    pub aws_session_token: String,
    pub bucket: String,
    pub object: String,
}

impl NewSubmissionResponseDataAttributes {
    /// `doc` has all five members, each a JSON string.
    pub open spec fn can_decode(doc: serde_json::Value) -> bool {
        &&& spec_text_member(doc, "awsAccessKeyId"@) is Some
        &&& spec_text_member(doc, "awsSecretAccessKey"@) is Some
        &&& spec_text_member(doc, "awsSessionToken"@) is Some
        &&& spec_text_member(doc, "bucket"@) is Some
        &&& spec_text_member(doc, "object"@) is Some
    }

    /// The five members of `doc` hold this value's texts.
    pub open spec fn is_encoded_by(&self, doc: serde_json::Value) -> bool {
        &&& spec_text_member(doc, "awsAccessKeyId"@) == Some(self.aws_access_key_id@)
        &&& spec_text_member(doc, "awsSecretAccessKey"@) == Some(self.aws_secret_access_key@)
        &&& spec_text_member(doc, "awsSessionToken"@) == Some(self.aws_session_token@)
        &&& spec_text_member(doc, "bucket"@) == Some(self.bucket@)
        &&& spec_text_member(doc, "object"@) == Some(self.object@)
    }

    /// Reads the value that `doc` stands for. Members other than the five are
    /// ignored.
    pub fn from_json(doc: &serde_json::Value) -> (r: Option<Self>)
        ensures
            r is Some <==> Self::can_decode(*doc),
            r matches Some(value) ==> value.is_encoded_by(*doc),
    {
        let aws_access_key_id = match text_member(doc, "awsAccessKeyId") {
            Some(text) => text,
            None => return None,
        };
        let aws_secret_access_key = match text_member(doc, "awsSecretAccessKey") {
            Some(text) => text,
            None => return None,
        };
        let aws_session_token = match text_member(doc, "awsSessionToken") {
            Some(text) => text,
            None => return None,
        };
        let bucket = match text_member(doc, "bucket") {
            Some(text) => text,
            None => return None,
        };
        let object = match text_member(doc, "object") {
            Some(text) => text,
            None => return None,
        };
        Some(
            NewSubmissionResponseDataAttributes {
                aws_access_key_id,
                aws_secret_access_key,
                aws_session_token,
                bucket,
                object,
            },
        )
    }
}

/// What the notary service provides for uploading the software and for
/// tracking the submission.
#[derive(Clone, Debug)]
pub struct NewSubmissionResponseData {
    pub attributes: NewSubmissionResponseDataAttributes,
    pub id: String,
    /// The member `type` of the document.
    pub record_kind: String,
}

impl NewSubmissionResponseData {
    /// `doc` has the members `attributes`, `id` and `type`: the first
    /// decodable in turn, the other two JSON strings.
    pub open spec fn can_decode(doc: serde_json::Value) -> bool {
        &&& spec_member(doc, "attributes"@) matches Some(attributes)
            && NewSubmissionResponseDataAttributes::can_decode(attributes)
        &&& spec_text_member(doc, "id"@) is Some
        &&& spec_text_member(doc, "type"@) is Some
    }

    /// The three members of `doc` hold this value.
    pub open spec fn is_encoded_by(&self, doc: serde_json::Value) -> bool {
        &&& spec_member(doc, "attributes"@) matches Some(attributes)
            && self.attributes.is_encoded_by(attributes)
        &&& spec_text_member(doc, "id"@) == Some(self.id@)
        &&& spec_text_member(doc, "type"@) == Some(self.record_kind@)
    }

    /// Reads the value that `doc` stands for.
    pub fn from_json(doc: &serde_json::Value) -> (r: Option<Self>)
        ensures
            r is Some <==> Self::can_decode(*doc),
            r matches Some(value) ==> value.is_encoded_by(*doc),
    {
        let attributes = match json_get(doc, "attributes") {
            Some(member) => match NewSubmissionResponseDataAttributes::from_json(member) {
                Some(attributes) => attributes,
                None => return None,
            },
            None => return None,
        };
        let id = match text_member(doc, "id") {
            Some(text) => text,
            None => return None,
        };
        let record_kind = match text_member(doc, "type") {
            Some(text) => text,
            None => return None,
        };
        Some(NewSubmissionResponseData { attributes, id, record_kind })
    }
}

/// The notary service's response to a software submission.
#[derive(Clone, Debug)]
pub struct NewSubmissionResponse {
    pub data: NewSubmissionResponseData,
    pub meta: serde_json::Value,
}

impl NewSubmissionResponse {
    /// `doc` has the members `data`, decodable in turn, and `meta`.
    pub open spec fn can_decode(doc: serde_json::Value) -> bool {
        &&& spec_member(doc, "data"@) matches Some(data) && NewSubmissionResponseData::can_decode(
            data,
        )
        &&& spec_member(doc, "meta"@) is Some
    }

    /// The member `data` of `doc` holds this value's data, and the member
    /// `meta` is this value's.
    pub open spec fn is_encoded_by(&self, doc: serde_json::Value) -> bool {
        &&& spec_member(doc, "data"@) matches Some(data) && self.data.is_encoded_by(data)
        &&& spec_member(doc, "meta"@) == Some(self.meta)
    }

    /// Reads the value that `doc` stands for.
    pub fn from_json(doc: &serde_json::Value) -> (r: Option<Self>)
        ensures
            r is Some <==> Self::can_decode(*doc),
            r matches Some(value) ==> value.is_encoded_by(*doc),
    {
        let data = match json_get(doc, "data") {
            Some(member) => match NewSubmissionResponseData::from_json(member) {
                Some(data) => data,
                None => return None,
            },
            None => return None,
        };
        let meta = match document_member(doc, "meta") {
            Some(meta) => meta,
            None => return None,
        };
        Some(NewSubmissionResponse { data, meta })
    }

    /// Reads a response body. A body that is no JSON gives the parser's
    /// error; a JSON document of another shape gives
    /// `NotarizeResponseMalformed`.
    pub fn from_slice(body: &[u8]) -> (r: Result<Self, AppleCodesignError>)
        ensures
            match json_parse(body@) {
                None => r matches Err(AppleCodesignError::SerdeJson(_)),
                Some(doc) => if Self::can_decode(doc) {
                    r matches Ok(value) && value.is_encoded_by(doc)
                } else {
                    r == Err::<Self, AppleCodesignError>(
                        AppleCodesignError::NotarizeResponseMalformed,
                    )
                },
            },
    {
        match parse_json(body) {
            Ok(doc) => match Self::from_json(&doc) {
                Some(value) => Ok(value),
                None => Err(AppleCodesignError::NotarizeResponseMalformed),
            },
            Err(error) => Err(AppleCodesignError::SerdeJson(error)),
        }
    }
}

/// Where a submission stands. The service names the status in text; a name
/// unknown here is kept as [`SubmissionResponseStatus::Unknown`] and treated
/// as no success.
#[derive(Clone, Copy, Debug, PartialEq, Eq, Structural)]
pub enum SubmissionResponseStatus {
    Accepted,
    InProgress,
    Invalid,
    Rejected,
    Unknown,
}

impl SubmissionResponseStatus {
    /// The status that a name on the wire stands for.
    pub open spec fn spec_from_name(name: Seq<char>) -> Self {
        if name == "Accepted"@ {
            SubmissionResponseStatus::Accepted
        } else if name == "In Progress"@ {
            SubmissionResponseStatus::InProgress
        } else if name == "Invalid"@ {
            SubmissionResponseStatus::Invalid
        } else if name == "Rejected"@ {
            SubmissionResponseStatus::Rejected
        } else {
            SubmissionResponseStatus::Unknown
        }
    }

    /// No later observation of the submission will show another status: every
    /// status but `InProgress`.
    pub open spec fn is_terminal(self) -> bool {
        self != SubmissionResponseStatus::InProgress
    }

    /// Reads a status name as the service writes it.
    pub fn from_name(name: &str) -> (status: Self)
        ensures
            status == Self::spec_from_name(name@),
    {
        let name = String::from_str(name);
        if name == String::from_str("Accepted") {
            SubmissionResponseStatus::Accepted
        } else if name == String::from_str("In Progress") {
            SubmissionResponseStatus::InProgress
        } else if name == String::from_str("Invalid") {
            SubmissionResponseStatus::Invalid
        } else if name == String::from_str("Rejected") {
            SubmissionResponseStatus::Rejected
        } else {
            SubmissionResponseStatus::Unknown
        }
    }
}

/// Information about the status of a submission.
#[derive(Clone, Debug)]
pub struct SubmissionResponseDataAttributes {
    pub created_date: String,
    pub name: String,
    pub status: SubmissionResponseStatus,
}

impl SubmissionResponseDataAttributes {
    /// `doc` has the members `createdDate`, `name` and `status`, each a JSON
    /// string.
    pub open spec fn can_decode(doc: serde_json::Value) -> bool {
        &&& spec_text_member(doc, "createdDate"@) is Some
        &&& spec_text_member(doc, "name"@) is Some
        &&& spec_text_member(doc, "status"@) is Some
    }

    /// The members of `doc` hold this value's texts, and the member `status`
    /// names this value's status.
    pub open spec fn is_encoded_by(&self, doc: serde_json::Value) -> bool {
        &&& spec_text_member(doc, "createdDate"@) == Some(self.created_date@)
        &&& spec_text_member(doc, "name"@) == Some(self.name@)
        &&& spec_text_member(doc, "status"@) matches Some(status) && self.status
            == SubmissionResponseStatus::spec_from_name(status)
    }

    /// Reads the value that `doc` stands for.
    pub fn from_json(doc: &serde_json::Value) -> (r: Option<Self>)
        ensures
            r is Some <==> Self::can_decode(*doc),
            r matches Some(value) ==> value.is_encoded_by(*doc),
    {
        let created_date = match text_member(doc, "createdDate") {
            Some(text) => text,
            None => return None,
        };
        let name = match text_member(doc, "name") {
            Some(text) => text,
            None => return None,
        };
        let status = match text_member(doc, "status") {
            Some(text) => SubmissionResponseStatus::from_name(text.as_str()),
            None => return None,
        };
        Some(SubmissionResponseDataAttributes { created_date, name, status })
    }
}

/// What the service provides about the status of a notarization submission.
#[derive(Clone, Debug)]
pub struct SubmissionResponseData {
    pub attributes: SubmissionResponseDataAttributes,
    pub id: String,
    /// The member `type` of the document.
    pub record_kind: String,
}

impl SubmissionResponseData {
    /// `doc` has the members `attributes`, `id` and `type`: the first
    /// decodable in turn, the other two JSON strings.
    pub open spec fn can_decode(doc: serde_json::Value) -> bool {
        &&& spec_member(doc, "attributes"@) matches Some(attributes)
            && SubmissionResponseDataAttributes::can_decode(attributes)
        &&& spec_text_member(doc, "id"@) is Some
        &&& spec_text_member(doc, "type"@) is Some
    }

    /// The three members of `doc` hold this value.
    pub open spec fn is_encoded_by(&self, doc: serde_json::Value) -> bool {
        &&& spec_member(doc, "attributes"@) matches Some(attributes)
            && self.attributes.is_encoded_by(attributes)
        &&& spec_text_member(doc, "id"@) == Some(self.id@)
        &&& spec_text_member(doc, "type"@) == Some(self.record_kind@)
    }

    /// Reads the value that `doc` stands for.
    pub fn from_json(doc: &serde_json::Value) -> (r: Option<Self>)
        ensures
            r is Some <==> Self::can_decode(*doc),
            r matches Some(value) ==> value.is_encoded_by(*doc),
    {
        let attributes = match json_get(doc, "attributes") {
            Some(member) => match SubmissionResponseDataAttributes::from_json(member) {
                Some(attributes) => attributes,
                None => return None,
            },
            None => return None,
        };
        let id = match text_member(doc, "id") {
            Some(text) => text,
            None => return None,
        };
        let record_kind = match text_member(doc, "type") {
            Some(text) => text,
            None => return None,
        };
        Some(SubmissionResponseData { attributes, id, record_kind })
    }
}

/// The notary service's response to a request for the status of a submission.
#[derive(Clone, Debug)]
pub struct SubmissionResponse {
    pub data: SubmissionResponseData,
    pub meta: serde_json::Value,
}

impl SubmissionResponse {
    /// `doc` has the members `data`, decodable in turn, and `meta`.
    pub open spec fn can_decode(doc: serde_json::Value) -> bool {
        &&& spec_member(doc, "data"@) matches Some(data) && SubmissionResponseData::can_decode(data)
        &&& spec_member(doc, "meta"@) is Some
    }

    /// The member `data` of `doc` holds this value's data, and the member
    /// `meta` is this value's.
    pub open spec fn is_encoded_by(&self, doc: serde_json::Value) -> bool {
        &&& spec_member(doc, "data"@) matches Some(data) && self.data.is_encoded_by(data)
        &&& spec_member(doc, "meta"@) == Some(self.meta)
    }

    /// Reads the value that `doc` stands for.
    pub fn from_json(doc: &serde_json::Value) -> (r: Option<Self>)
        ensures
            r is Some <==> Self::can_decode(*doc),
            r matches Some(value) ==> value.is_encoded_by(*doc),
    {
        let data = match json_get(doc, "data") {
            Some(member) => match SubmissionResponseData::from_json(member) {
                Some(data) => data,
                None => return None,
            },
            None => return None,
        };
        let meta = match document_member(doc, "meta") {
            Some(meta) => meta,
            None => return None,
        };
        Some(SubmissionResponse { data, meta })
    }

    /// Reads a response body. A body that is no JSON gives the parser's
    /// error; a JSON document of another shape gives
    /// `NotarizeResponseMalformed`.
    pub fn from_slice(body: &[u8]) -> (r: Result<Self, AppleCodesignError>)
        ensures
            match json_parse(body@) {
                None => r matches Err(AppleCodesignError::SerdeJson(_)),
                Some(doc) => if Self::can_decode(doc) {
                    r matches Ok(value) && value.is_encoded_by(doc)
                } else {
                    r == Err::<Self, AppleCodesignError>(
                        AppleCodesignError::NotarizeResponseMalformed,
                    )
                },
            },
    {
        match parse_json(body) {
            Ok(doc) => match Self::from_json(&doc) {
                Some(value) => Ok(value),
                None => Err(AppleCodesignError::NotarizeResponseMalformed),
            },
            Err(error) => Err(AppleCodesignError::SerdeJson(error)),
        }
    }

    /// The verdict that a status stands for: success for `Accepted`, the
    /// signal to look again later for `InProgress`, and for each other
    /// status a failure of its own that will not change.
    pub open spec fn verdict_is(
        status: SubmissionResponseStatus,
        verdict: Result<Self, AppleCodesignError>,
        response: Self,
    ) -> bool {
        match status {
            SubmissionResponseStatus::Accepted => verdict == Ok::<Self, AppleCodesignError>(
                response,
            ),
            SubmissionResponseStatus::InProgress => verdict == Err::<Self, AppleCodesignError>(
                AppleCodesignError::NotarizeIncomplete,
            ),
            SubmissionResponseStatus::Invalid => verdict == Err::<Self, AppleCodesignError>(
                AppleCodesignError::NotarizeInvalid,
            ),
            SubmissionResponseStatus::Unknown => verdict == Err::<Self, AppleCodesignError>(
                AppleCodesignError::NotarizeUnknownStatus,
            ),
            SubmissionResponseStatus::Rejected => verdict matches Err(
                AppleCodesignError::NotarizeRejected(code, message),
            ) && code == 0 && message@ == "Notarization error"@,
        }
    }

    /// Converts the response into a `Result`: `Ok` with the response itself
    /// where the submission was accepted, the matching error otherwise.
    pub fn into_result(self) -> (verdict: Result<Self, AppleCodesignError>)
        ensures
            Self::verdict_is(self.data.attributes.status, verdict, self),
    {
        match self.data.attributes.status {
            SubmissionResponseStatus::Accepted => Ok(self),
            SubmissionResponseStatus::InProgress => Err(AppleCodesignError::NotarizeIncomplete),
            SubmissionResponseStatus::Invalid => Err(AppleCodesignError::NotarizeInvalid),
            SubmissionResponseStatus::Rejected => Err(
                AppleCodesignError::NotarizeRejected(0, String::from_str("Notarization error")),
            ),
            SubmissionResponseStatus::Unknown => Err(AppleCodesignError::NotarizeUnknownStatus),
        }
    }
}

/// Where the log of a submission can be fetched.
#[derive(Clone, Debug)]
pub struct SubmissionLogResponseDataAttributes {
    developer_log_url: String,
}

impl SubmissionLogResponseDataAttributes {
    /// The address of the log document, as a sequence of characters.
    pub closed spec fn spec_developer_log_url(&self) -> Seq<char> {
        self.developer_log_url@
    }

    /// The address of the log document.
    pub fn developer_log_url(&self) -> (url: &str)
        ensures
            url@ == self.spec_developer_log_url(),
    {
        self.developer_log_url.as_str()
    }

    /// `doc` has the member `developerLogUrl`, a JSON string.
    pub open spec fn can_decode(doc: serde_json::Value) -> bool {
        spec_text_member(doc, "developerLogUrl"@) is Some
    }

    /// The member `developerLogUrl` of `doc` holds this value's address.
    pub open spec fn is_encoded_by(&self, doc: serde_json::Value) -> bool {
        spec_text_member(doc, "developerLogUrl"@) == Some(self.spec_developer_log_url())
    }

    /// Reads the value that `doc` stands for.
    pub fn from_json(doc: &serde_json::Value) -> (r: Option<Self>)
        ensures
            r is Some <==> Self::can_decode(*doc),
            r matches Some(value) ==> value.is_encoded_by(*doc),
    {
        match text_member(doc, "developerLogUrl") {
            Some(developer_log_url) => Some(
                SubmissionLogResponseDataAttributes { developer_log_url },
            ),
            None => None,
        }
    }
}

/// How to get the log of a particular submission.
#[derive(Clone, Debug)]
pub struct SubmissionLogResponseData {
    pub attributes: SubmissionLogResponseDataAttributes,
    pub id: String,
    /// The member `type` of the document.
    pub record_kind: String,
}

impl SubmissionLogResponseData {
    /// `doc` has the members `attributes`, `id` and `type`: the first
    /// decodable in turn, the other two JSON strings.
    pub open spec fn can_decode(doc: serde_json::Value) -> bool {
        &&& spec_member(doc, "attributes"@) matches Some(attributes)
            && SubmissionLogResponseDataAttributes::can_decode(attributes)
        &&& spec_text_member(doc, "id"@) is Some
        &&& spec_text_member(doc, "type"@) is Some
    }

    /// The three members of `doc` hold this value.
    pub open spec fn is_encoded_by(&self, doc: serde_json::Value) -> bool {
        &&& spec_member(doc, "attributes"@) matches Some(attributes)
            && self.attributes.is_encoded_by(attributes)
        &&& spec_text_member(doc, "id"@) == Some(self.id@)
        &&& spec_text_member(doc, "type"@) == Some(self.record_kind@)
    }

    /// Reads the value that `doc` stands for.
    pub fn from_json(doc: &serde_json::Value) -> (r: Option<Self>)
        ensures
            r is Some <==> Self::can_decode(*doc),
            r matches Some(value) ==> value.is_encoded_by(*doc),
    {
        let attributes = match json_get(doc, "attributes") {
            Some(member) => match SubmissionLogResponseDataAttributes::from_json(member) {
                Some(attributes) => attributes,
                None => return None,
            },
            None => return None,
        };
        let id = match text_member(doc, "id") {
            Some(text) => text,
            None => return None,
        };
        let record_kind = match text_member(doc, "type") {
            Some(text) => text,
            None => return None,
        };
        Some(SubmissionLogResponseData { attributes, id, record_kind })
    }
}

/// The notary service's response to a request for the log of a completed
/// submission.
#[derive(Clone, Debug)]
pub struct SubmissionLogResponse {
    pub data: SubmissionLogResponseData,
    pub meta: serde_json::Value,
}

impl SubmissionLogResponse {
    /// `doc` has the members `data`, decodable in turn, and `meta`.
    pub open spec fn can_decode(doc: serde_json::Value) -> bool {
        &&& spec_member(doc, "data"@) matches Some(data) && SubmissionLogResponseData::can_decode(
            data,
        )
        &&& spec_member(doc, "meta"@) is Some
    }

    /// The member `data` of `doc` holds this value's data, and the member
    /// `meta` is this value's.
    pub open spec fn is_encoded_by(&self, doc: serde_json::Value) -> bool {
        &&& spec_member(doc, "data"@) matches Some(data) && self.data.is_encoded_by(data)
        &&& spec_member(doc, "meta"@) == Some(self.meta)
    }

    /// Reads the value that `doc` stands for.
    pub fn from_json(doc: &serde_json::Value) -> (r: Option<Self>)
        ensures
            r is Some <==> Self::can_decode(*doc),
            r matches Some(value) ==> value.is_encoded_by(*doc),
    {
        let data = match json_get(doc, "data") {
            Some(member) => match SubmissionLogResponseData::from_json(member) {
                Some(data) => data,
                None => return None,
            },
            None => return None,
        };
        let meta = match document_member(doc, "meta") {
            Some(meta) => meta,
            None => return None,
        };
        Some(SubmissionLogResponse { data, meta })
    }

    /// Reads a response body. A body that is no JSON gives the parser's
    /// error; a JSON document of another shape gives
    /// `NotarizeResponseMalformed`.
    pub fn from_slice(body: &[u8]) -> (r: Result<Self, AppleCodesignError>)
        ensures
            match json_parse(body@) {
                None => r matches Err(AppleCodesignError::SerdeJson(_)),
                Some(doc) => if Self::can_decode(doc) {
                    r matches Ok(value) && value.is_encoded_by(doc)
                } else {
                    r == Err::<Self, AppleCodesignError>(
                        AppleCodesignError::NotarizeResponseMalformed,
                    )
                },
            },
    {
        match parse_json(body) {
            Ok(doc) => match Self::from_json(&doc) {
                Some(value) => Ok(value),
                None => Err(AppleCodesignError::NotarizeResponseMalformed),
            },
            Err(error) => Err(AppleCodesignError::SerdeJson(error)),
        }
    }
}

/// Every status name has one kind of verdict. The name `Accepted`, and no
/// other, gives success, with the response itself. The name `In Progress`,
/// and no other, gives the signal to look again. Every other name gives a
/// failure that will not change, and the failures tell the names apart:
/// `Invalid` alone gives `NotarizeInvalid`, `Rejected` alone gives
/// `NotarizeRejected`, and a name that is not known gives
/// `NotarizeUnknownStatus`.
pub proof fn law_verdict_of_status_name(
    name: Seq<char>,
    response: SubmissionResponse,
    verdict: Result<SubmissionResponse, AppleCodesignError>,
)
    requires
        response.data.attributes.status == SubmissionResponseStatus::spec_from_name(name),
        SubmissionResponse::verdict_is(response.data.attributes.status, verdict, response),
    ensures
        name == "Accepted"@ <==> verdict is Ok,
        verdict is Ok ==> verdict == Ok::<SubmissionResponse, AppleCodesignError>(response),
        name == "In Progress"@ <==> (verdict matches Err(error) && error.is_retry_signal()),
        name != "Accepted"@ && name != "In Progress"@ <==> (verdict matches Err(error)
            && error.is_terminal_failure()),
        name == "Invalid"@ <==> verdict == Err::<SubmissionResponse, AppleCodesignError>(
            AppleCodesignError::NotarizeInvalid,
        ),
        name == "Rejected"@ <==> (verdict matches Err(error) && error is NotarizeRejected),
        name != "Accepted"@ && name != "In Progress"@ && name != "Invalid"@ && name != "Rejected"@
            <==> verdict == Err::<SubmissionResponse, AppleCodesignError>(
            AppleCodesignError::NotarizeUnknownStatus,
        ),
        verdict is Ok || !response.data.attributes.status.is_terminal()
            || (verdict matches Err(error) && error.is_terminal_failure()),
{
    reveal_strlit("Accepted");
    reveal_strlit("In Progress");
    reveal_strlit("Invalid");
    reveal_strlit("Rejected");
    assert("Accepted"@[0] == 'A' && "In Progress"@[0] == 'I' && "Rejected"@[0] == 'R');
    assert("In Progress"@[2] == ' ' && "Invalid"@[2] == 'v');
}

} // verus!

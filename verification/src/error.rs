use vstd::prelude::*;
use vstd::string::StringExecFns;
use crate::json::append_dec;
use crate::json::append_json_string;
use crate::json::append_string_array;
use crate::json::dec_of;
use crate::json::detail_object_json;
use crate::json::json_string_of;
use crate::json::member_json;
use crate::json::members_json;
use crate::json::push_char;

verus! {

/// sqlx's error type, declared so that persistence failures can be taken
/// and converted by verified code; its value is opaque here.
#[verifier::external_type_specification]
#[verifier::external_body]
pub struct ExSqlxError(sqlx::Error);

/// reqwest's error type, declared so that outbound-call failures can be
/// taken and converted by verified code; its value is opaque here.
#[verifier::external_type_specification]
#[verifier::external_body]
pub struct ExReqwestError(reqwest::Error);

/// The violation messages recorded against one field of an invalid payload.
pub struct FieldViolations {
    pub field: String,
    pub messages: Vec<String>,
}

impl FieldViolations {
    /// The field name together with its messages, as plain sequences.
    pub open spec fn model(&self) -> (Seq<char>, Seq<Seq<char>>) {
        (self.field@, self.messages.deep_view())
    }
}

/// A structured field-validation failure set: each entry maps one field name
/// to the list of violations found on it, in the order they were recorded.
pub struct ValidationErrors {
    pub entries: Vec<FieldViolations>,
}

impl ValidationErrors {
    /// The failure set as field-name/messages pairs.
    pub open spec fn model(&self) -> Seq<(Seq<char>, Seq<Seq<char>>)> {
        self.entries@.map_values(|f: FieldViolations| f.model())
    }
}

/// One extra header to attach to the rendered HTTP response.
pub struct HeaderPair {
    pub name: String,
    pub value: String,
}

/// One value of the error taxonomy: an HTTP status, a client-facing message,
/// the validation detail for invalid payloads, and any extra response
/// headers. Immutable once constructed.
pub struct ApiError {
    pub status: u16,
    pub error_message: String,
    pub validation_errors: Option<ValidationErrors>,
    pub headers: Option<Vec<HeaderPair>>,
}

impl ApiError {
    /// The validation detail as field-name/messages pairs, when present.
    pub open spec fn detail_model(&self) -> Option<Seq<(Seq<char>, Seq<Seq<char>>)>> {
        match self.validation_errors {
            Some(v) => Some(v.model()),
            None => None,
        }
    }

    /// The canonical JSON error body for this value: exactly the status, the
    /// message and the validation detail (`null` when absent), and nothing
    /// else.
    pub open spec fn spec_body(&self) -> Seq<char> {
        "{\"status\":"@ + dec_of(self.status as nat) + ",\"error_message\":"@ + json_string_of(
            self.error_message@,
        ) + ",\"validation_errors\":"@ + (match self.detail_model() {
            Some(m) => detail_object_json(m),
            None => "null"@,
        }) + "}"@
    }

    pub fn from_validation_errors(validation_errors: ValidationErrors) -> (e: Self)
        ensures
            e.status == 400,
            e.error_message@ == "Invalid payload"@,
            e.validation_errors == Some(validation_errors),
            e.headers is None,
    {
        ApiError {
            status: 400,
            error_message: String::from_str("Invalid payload"),
            validation_errors: Some(validation_errors),
            headers: None,
        }
    }

    pub fn bad_request(err: &str) -> (e: ApiError)
        ensures
            e.status == 400,
            e.error_message@ == err@,
            e.validation_errors is None,
            e.headers is None,
    {
        ApiError {
            status: 400,
            error_message: String::from_str(err),
            validation_errors: None,
            headers: None,
        }
    }

    pub fn locked(err: String, headers: Option<Vec<HeaderPair>>) -> (e: ApiError)
        ensures
            e.status == 423,
            e.error_message@ == err@,
            e.validation_errors is None,
            e.headers == headers,
    {
        ApiError { status: 423, error_message: err, validation_errors: None, headers }
    }

    pub fn conflict(err: String) -> (e: ApiError)
        ensures
            e.status == 409,
            e.error_message@ == err@,
            e.validation_errors is None,
            e.headers is None,
    {
        ApiError { status: 409, error_message: err, validation_errors: None, headers: None }
    }

    pub fn not_found() -> (e: ApiError)
        ensures
            e.status == 404,
            e.error_message@ == "Resource not found"@,
            e.validation_errors is None,
            e.headers is None,
    {
        ApiError {
            status: 404,
            error_message: String::from_str("Resource not found"),
            validation_errors: None,
            headers: None,
        }
    }

    pub fn no_content() -> (e: ApiError)
        ensures
            e.status == 204,
            e.error_message@ == "No content"@,
            e.validation_errors is None,
            e.headers is None,
    {
        ApiError {
            status: 204,
            error_message: String::from_str("No content"),
            validation_errors: None,
            headers: None,
        }
    }

    pub fn unsupported(err: String) -> (e: ApiError)
        ensures
            e.status == 415,
            e.error_message@ == err@,
            e.validation_errors is None,
            e.headers is None,
    {
        ApiError { status: 415, error_message: err, validation_errors: None, headers: None }
    }

    pub fn unauthorized() -> (e: Self)
        ensures
            e.status == 401,
            e.error_message@ == "You are not an authorized user"@,
            e.validation_errors is None,
            e.headers is None,
    {
        ApiError {
            status: 401,
            error_message: String::from_str("You are not an authorized user"),
            validation_errors: None,
            headers: None,
        }
    }

    pub fn forbidden() -> (e: Self)
        ensures
            e.status == 403,
            e.error_message@ == "You do not have right"@,
            e.validation_errors is None,
            e.headers is None,
    {
        ApiError {
            status: 403,
            error_message: String::from_str("You do not have right"),
            validation_errors: None,
            headers: None,
        }
    }

    pub fn bad_credentials() -> (e: Self)
        ensures
            e.status == 401,
            e.error_message@ == "Bad credentials"@,
            e.validation_errors is None,
            e.headers is None,
    {
        ApiError {
            status: 401,
            error_message: String::from_str("Bad credentials"),
            validation_errors: None,
            headers: None,
        }
    }

    pub fn internal_server_error(err: &str) -> (e: Self)
        ensures
            e.status == 500,
            e.error_message@ == err@,
            e.validation_errors is None,
            e.headers is None,
    {
        ApiError {
            status: 500,
            error_message: String::from_str(err),
            validation_errors: None,
            headers: None,
        }
    }

    pub fn service_unavailable(err: String) -> (e: Self)
        ensures
            e.status == 503,
            e.error_message@ == err@,
            e.validation_errors is None,
            e.headers is None,
    {
        ApiError { status: 503, error_message: err, validation_errors: None, headers: None }
    }

    /// Converts a persistence-layer failure: whatever the storage error was,
    /// the client sees an internal error with a fixed generic message, so no
    /// schema or storage detail ever leaks.
    pub fn from_database_error(_err: sqlx::Error) -> (e: ApiError)
        ensures
            e.status == 500,
            e.error_message@ == "Error occurs during database access"@,
            e.validation_errors is None,
            e.headers is None,
    {
        ApiError::internal_server_error("Error occurs during database access")
    }

    /// Converts an outbound-call failure: whatever went wrong while calling
    /// another service, the client sees an internal error with a fixed
    /// generic message.
    pub fn from_outbound_error(_err: reqwest::Error) -> (e: ApiError)
        ensures
            e.status == 500,
            e.error_message@ == "Unable to call internal component"@,
            e.validation_errors is None,
            e.headers is None,
    {
        ApiError::internal_server_error("Unable to call internal component")
    }

    /// Renders the canonical JSON error body. The extra headers are applied
    /// to the transport-level response by the caller and never appear here.
    pub fn to_json(&self) -> (r: String)
        ensures
            r@ == self.spec_body(),
    {
        let mut r = String::from_str("{\"status\":");
        append_dec(&mut r, self.status);
        r.append(",\"error_message\":");
        append_json_string(&mut r, self.error_message.as_str());
        r.append(",\"validation_errors\":");
        match &self.validation_errors {
            None => {
                r.append("null");
            },
            Some(v) => {
                append_validation(&mut r, v);
            },
        }
        r.append("}");
        proof {
            assert(r@ =~= self.spec_body());
        }
        r
    }
}

/// Appends the validation-detail object for `v` to `out`.
fn append_validation(out: &mut String, v: &ValidationErrors)
    ensures
        final(out)@ == old(out)@ + detail_object_json(v.model()),
{
    push_char(out, '{');
    let ghost members = v.model();
    assert(members_json(members.subrange(0, 0)) =~= Seq::<char>::empty());
    assert(out@ =~= old(out)@.push('{') + members_json(members.subrange(0, 0)));
    let n = v.entries.len();
    let mut i: usize = 0;
    while i < n
        invariant
            i <= n,
            n == v.entries.len(),
            members == v.model(),
            members.len() == n,
            out@ == old(out)@.push('{') + members_json(members.subrange(0, i as int)),
        decreases n - i,
    {
        proof {
            assert(members[i as int] == v.entries@[i as int].model());
            assert(members.subrange(0, i as int + 1).drop_last() =~= members.subrange(0, i as int));
            assert(members.subrange(0, i as int + 1).last() == members[i as int]);
        }
        if i > 0 {
            push_char(out, ',');
        }
        let entry = &v.entries[i];
        append_json_string(out, entry.field.as_str());
        push_char(out, ':');
        append_string_array(out, &entry.messages);
        assert(out@ =~= old(out)@.push('{') + members_json(members.subrange(0, i as int + 1)));
        i = i + 1;
    }
    proof {
        assert(members.subrange(0, n as int) =~= members);
    }
    push_char(out, '}');
    assert(out@ =~= old(out)@ + detail_object_json(v.model()));
}

/// The rendered body is a function of status, message and validation detail
/// alone: two taxonomy values that agree on those three fields produce the
/// same body, whatever extra headers either carries.
pub proof fn lemma_body_without_headers(e1: ApiError, e2: ApiError)
    requires
        e1.status == e2.status,
        e1.error_message@ == e2.error_message@,
        e1.detail_model() == e2.detail_model(),
    ensures
        e1.spec_body() == e2.spec_body(),
{
}

} // verus!

//! The JSON-RPC request envelope and its validation.
use vstd::prelude::*;
use crate::text::str_eq;

verus! {

/// The protocol version that every accepted request must carry.
pub open spec fn supported_version() -> Seq<char> {
    "2.0"@
}

/// One field of a request beyond `jsonrpc`, `method` and `id`, such as
/// `params`: its name and its value as JSON text. It is carried, not read.
#[derive(Debug, PartialEq, Eq)]
pub struct PayloadField {
    pub name: String,
    pub value: String,
}

/// A JSON-RPC request as received from a client.
#[derive(Debug, PartialEq, Eq)]
pub struct Envelope {
    pub jsonrpc: String,
    pub method: String,
    pub id: u32,
    /// The request's other fields, in the order received.
    pub payload: Vec<PayloadField>,
}

/// One field-level violation found by validation.
#[derive(Debug, PartialEq, Eq)]
pub struct FieldViolation {
    pub field: String,
    pub message: String,
}

/// The violations found in one envelope, in field order.
#[derive(Debug, PartialEq, Eq)]
pub struct ValidationErrors {
    pub violations: Vec<FieldViolation>,
}

/// The violation reported for an unsupported `jsonrpc` value.
#[derive(Debug, PartialEq, Eq)]
pub struct ValidationError {
    pub message: String,
}

pub open spec fn version_message() -> Seq<char> {
    "Unsupported jsonrpc version"@
}

pub open spec fn jsonrpc_field() -> Seq<char> {
    "jsonrpc"@
}

/// Checks the value of the `jsonrpc` field.
pub fn validate_jsonrpc_version(jsonrpc: &str) -> (r: Result<(), ValidationError>)
    ensures
        r is Ok <==> jsonrpc@ == supported_version(),
        r matches Err(e) ==> e.message@ == version_message(),
{
    if !str_eq(jsonrpc, "2.0") {
        return Err(ValidationError { message: String::from_str("Unsupported jsonrpc version") });
    }
    Ok(())
}

impl ValidationErrors {
    /// Whether `result` failed with a violation on `field`.
    pub fn has_error(result: &Result<(), ValidationErrors>, field: &str) -> (r: bool)
        ensures
            r == has_violation(*result, field@),
    {
        match result {
            Ok(()) => false,
            Err(e) => {
                let mut i: usize = 0;
                while i < e.violations.len()
                    invariant
                        *result == Err::<(), ValidationErrors>(*e),
                        i <= e.violations@.len(),
                        forall|j: int| 0 <= j < i ==> #[trigger] e.violations@[j].field@ != field@,
                    decreases e.violations@.len() - i,
                {
                    if str_eq(e.violations[i].field.as_str(), field) {
                        let ghost rr: Result<(), ValidationErrors> = Err(*e);
                        assert(rr->Err_0.violations@[i as int].field@ == field@);
                        return true;
                    }
                    i = i + 1;
                }
                false
            },
        }
    }

    /// The violations rendered as text, one `field: message` entry per violation,
    /// separated by `; `.
    pub fn message(&self) -> (r: String)
        ensures
            r@ == violations_text(self.violations@),
    {
        let mut s = String::new();
        let mut i: usize = 0;
        while i < self.violations.len()
            invariant
                i <= self.violations@.len(),
                s@ == violations_text(self.violations@.subrange(0, i as int)),
            decreases self.violations@.len() - i,
        {
            if i > 0 {
                s.append("; ");
            }
            s.append(self.violations[i].field.as_str());
            s.append(": ");
            s.append(self.violations[i].message.as_str());
            assert(self.violations@.subrange(0, i + 1).drop_last()
                =~= self.violations@.subrange(0, i as int));
            i = i + 1;
        }
        assert(self.violations@.subrange(0, i as int) =~= self.violations@);
        s
    }
}

/// Whether `result` failed with a violation on `field`.
pub open spec fn has_violation(result: Result<(), ValidationErrors>, field: Seq<char>) -> bool {
    &&& result is Err
    &&& exists|i: int|
        0 <= i < result->Err_0.violations@.len() && #[trigger] result->Err_0.violations@[i].field@ == field
}

pub open spec fn violation_text(v: FieldViolation) -> Seq<char> {
    v.field@ + ": "@ + v.message@
}

/// The text of a list of violations, `; ` between entries.
pub open spec fn violations_text(vs: Seq<FieldViolation>) -> Seq<char>
    decreases vs.len(),
{
    if vs.len() == 0 {
        Seq::empty()
    } else if vs.len() == 1 {
        violation_text(vs[0])
    } else {
        violations_text(vs.drop_last()) + "; "@ + violation_text(vs.last())
    }
}

/// The text of the one violation of an envelope with an unsupported version.
pub open spec fn version_violation_text() -> Seq<char> {
    jsonrpc_field() + ": "@ + version_message()
}

/// Whether `e` holds exactly one violation, on the `jsonrpc` field.
pub open spec fn only_version_violation(e: ValidationErrors) -> bool {
    &&& e.violations@.len() == 1
    &&& e.violations@[0].field@ == jsonrpc_field()
    &&& e.violations@[0].message@ == version_message()
    &&& violations_text(e.violations@) == version_violation_text()
}

impl Envelope {
    /// Whether the envelope is well formed.
    pub open spec fn is_valid(&self) -> bool {
        self.jsonrpc@ == supported_version()
    }

    /// Validates the envelope: only the `jsonrpc` field is checked.
    pub fn validate(&self) -> (r: Result<(), ValidationErrors>)
        ensures
            r is Ok <==> self.is_valid(),
            r matches Err(e) ==> only_version_violation(e),
    {
        match validate_jsonrpc_version(self.jsonrpc.as_str()) {
            Ok(()) => Ok(()),
            Err(e) => {
                let mut violations = Vec::new();
                violations.push(FieldViolation { field: String::from_str("jsonrpc"), message: e.message });
                Err(ValidationErrors { violations })
            },
        }
    }
}

} // verus!

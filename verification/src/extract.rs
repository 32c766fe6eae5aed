use vstd::prelude::*;
use vstd::string::*;
use crate::error::{is_outcome, not_found_internal, AppError, Check, ErrorModel, ErrorType};
use crate::fields::FieldMap;
use crate::json::{is_object, json_model, json_text, member, to_text, JsonModel};
use crate::schema::{
    distinct_names, field_named, field_position, lemma_field_position, table_named, FieldDescriptor,
    FieldModel, SchemaRegistry, TableModel, TableSchema,
};
use crate::types::{
    decode_full, kind_name, kind_of, mismatch_text, value_text, DataKind, DataValue,
    ExtractionError, ExtractionErrorModel, ValueModel,
};

verus! {

/// How complete a request body has to be.
#[derive(Debug, Clone, Copy, PartialEq, Eq, Structural)]
pub enum Policy {
    /// Every required field that the server does not generate must be there.
    Create,
    /// Any subset of the fields may be there; the identifier is not read.
    Update,
    /// Only the identifier is read, and it must be there.
    Identify,
}

/// What is wrong with one field of a request body.
pub enum Fault {
    /// The field has to be there and is not.
    Missing { field: Seq<char> },
    /// The field is there and does not decode.
    Malformed { field: Seq<char>, error: ExtractionErrorModel },
}

/// The name of the identifier field.
pub open spec fn identifier_name() -> Seq<char> {
    "id"@
}

/// The name of the table of users.
pub open spec fn user_table() -> Seq<char> {
    "user"@
}

/// Whether a policy reads the field at all.
pub open spec fn considered(f: FieldModel, policy: Policy) -> bool {
    match policy {
        Policy::Create => true,
        Policy::Update => f.name != identifier_name(),
        Policy::Identify => f.name == identifier_name(),
    }
}

/// Whether a policy fails when the field is absent.
pub open spec fn demanded(f: FieldModel, policy: Policy) -> bool {
    match policy {
        Policy::Create => f.required && !f.generated,
        Policy::Update => false,
        Policy::Identify => true,
    }
}

/// What is wrong with field `f` in a body with the given members, if
/// anything.
pub open spec fn field_fault(
    entries: Map<Seq<char>, JsonModel>,
    f: FieldModel,
    policy: Policy,
) -> Option<Fault> {
    if !considered(f, policy) {
        None
    } else if entries.contains_key(f.name) {
        match decode_full(f.kind, entries[f.name]) {
            Ok(_) => None,
            Err(error) => Some(Fault::Malformed { field: f.name, error }),
        }
    } else if demanded(f, policy) {
        Some(Fault::Missing { field: f.name })
    } else {
        None
    }
}

/// The position of the first field with a fault, or the number of fields if
/// none has one.
pub open spec fn fault_position(
    entries: Map<Seq<char>, JsonModel>,
    fields: Seq<FieldModel>,
    policy: Policy,
) -> int
    decreases fields.len(),
{
    if fields.len() == 0 {
        0
    } else if field_fault(entries, fields[0], policy) is Some {
        0
    } else {
        1 + fault_position(entries, fields.skip(1), policy)
    }
}

/// The decoded value of each field that the policy reads and the body
/// holds. It is meant for a body without a fault.
pub open spec fn extracted(
    entries: Map<Seq<char>, JsonModel>,
    fields: Seq<FieldModel>,
    policy: Policy,
) -> Map<Seq<char>, ValueModel> {
    Map::new(
        |k: Seq<char>|
            entries.contains_key(k) && field_named(fields, k) is Some && considered(
                field_named(fields, k)->0,
                policy,
            ),
        |k: Seq<char>| decode_full(field_named(fields, k)->0.kind, entries[k])->Ok_0,
    )
}

/// The error for a body that is no JSON object.
pub open spec fn not_object_error(body: JsonModel) -> ErrorModel {
    ErrorModel {
        kind: ErrorType::BadRequest,
        message: "failed to parse JSON as object, JSON: \""@ + json_text(body)
            + "\" (err: body should be a map)"@,
    }
}

/// The error that reports a fault.
pub open spec fn fault_error(fault: Fault) -> ErrorModel {
    match fault {
        Fault::Missing { field } => ErrorModel {
            kind: ErrorType::BadRequest,
            message: "field "@ + field
                + " is listed as required, but was not included in the request body"@,
        },
        Fault::Malformed { field, error } => ErrorModel {
            kind: ErrorType::BadRequest,
            message: "field "@ + field + " is not formatted properly: "@ + mismatch_text(error),
        },
    }
}

/// What extraction gives for a body, the fields of a table and a policy.
///
/// A body that is no object fails at once. Otherwise the fields are taken
/// in declared order; the first one with a fault decides the error. Without
/// a fault the result holds the decoded value of every field that the
/// policy reads and the body holds. Members of the body that name no such
/// field do not count.
pub open spec fn extraction(body: JsonModel, fields: Seq<FieldModel>, policy: Policy) -> Result<
    Map<Seq<char>, ValueModel>,
    ErrorModel,
> {
    match body {
        JsonModel::Object(entries) => {
            let p = fault_position(entries, fields, policy);
            if p < fields.len() {
                Err(fault_error(field_fault(entries, fields[p], policy)->0))
            } else {
                Ok(extracted(entries, fields, policy))
            }
        },
        _ => Err(not_object_error(body)),
    }
}

/// `fault_position` is the least index of a field with a fault, or the
/// number of fields.
pub proof fn lemma_fault_position(
    entries: Map<Seq<char>, JsonModel>,
    fields: Seq<FieldModel>,
    policy: Policy,
)
    ensures
        0 <= fault_position(entries, fields, policy) <= fields.len(),
        fault_position(entries, fields, policy) < fields.len() ==> field_fault(
            entries,
            fields[fault_position(entries, fields, policy)],
            policy,
        ) is Some,
        forall|j: int|
            0 <= j < fault_position(entries, fields, policy) ==> field_fault(
                entries,
                #[trigger] fields[j],
                policy,
            ) is None,
    decreases fields.len(),
{
    if fields.len() > 0 && field_fault(entries, fields[0], policy) is None {
        let rest = fields.skip(1);
        lemma_fault_position(entries, rest, policy);
        assert forall|j: int| 0 <= j < fault_position(entries, fields, policy) implies field_fault(
            entries,
            #[trigger] fields[j],
            policy,
        ) is None by {
            if j > 0 {
                assert(rest[j - 1] == fields[j]);
            }
        }
    }
}

/// Without a faulty field, extraction gives the extracted map.
pub proof fn lemma_no_fault(
    entries: Map<Seq<char>, JsonModel>,
    fields: Seq<FieldModel>,
    policy: Policy,
)
    requires
        forall|j: int|
            0 <= j < fields.len() ==> field_fault(entries, #[trigger] fields[j], policy) is None,
    ensures
        extraction(JsonModel::Object(entries), fields, policy) == Ok::<
            Map<Seq<char>, ValueModel>,
            ErrorModel,
        >(extracted(entries, fields, policy)),
{
    lemma_fault_position(entries, fields, policy);
}

/// With a faulty field and none before it, extraction gives that field's
/// error, whatever comes after it.
pub proof fn lemma_first_fault(
    entries: Map<Seq<char>, JsonModel>,
    fields: Seq<FieldModel>,
    policy: Policy,
    i: int,
)
    requires
        0 <= i < fields.len(),
        field_fault(entries, fields[i], policy) is Some,
        forall|j: int| 0 <= j < i ==> field_fault(entries, #[trigger] fields[j], policy) is None,
    ensures
        fault_position(entries, fields, policy) == i,
        extraction(JsonModel::Object(entries), fields, policy) == Err::<
            Map<Seq<char>, ValueModel>,
            ErrorModel,
        >(fault_error(field_fault(entries, fields[i], policy)->0)),
{
    lemma_fault_position(entries, fields, policy);
}

/// The first field of a name, after one more field was declared.
pub proof fn lemma_field_named_push(fields: Seq<FieldModel>, f: FieldModel, name: Seq<char>)
    ensures
        field_named(fields.push(f), name) == if field_named(fields, name) is Some {
            field_named(fields, name)
        } else if f.name == name {
            Some(f)
        } else {
            None
        },
{
    let more = fields.push(f);
    lemma_field_position(fields, name);
    lemma_field_position(more, name);
    let p = field_position(fields, name);
    let q = field_position(more, name);
    if p < fields.len() {
        assert(more[p] == fields[p]);
        if q < p {
            assert(more[q] == fields[q]);
        }
    } else {
        if q < fields.len() {
            assert(more[q] == fields[q]);
        }
        if f.name == name {
            assert(more[fields.len() as int] == f);
        }
    }
}

/// No field before position `i` has the name of the field at `i`.
proof fn lemma_fresh_name(fields: Seq<FieldModel>, i: int)
    requires
        distinct_names(fields),
        0 <= i < fields.len(),
    ensures
        field_named(fields.take(i), fields[i].name) is None,
{
    let before = fields.take(i);
    lemma_field_position(before, fields[i].name);
    let p = field_position(before, fields[i].name);
    if p < i {
        assert(before[p] == fields[p]);
    }
}

/// The extracted map after one more field was taken.
proof fn lemma_extracted_step(
    entries: Map<Seq<char>, JsonModel>,
    fields: Seq<FieldModel>,
    policy: Policy,
    i: int,
)
    requires
        distinct_names(fields),
        0 <= i < fields.len(),
    ensures
        extracted(entries, fields.take(i + 1), policy) == if considered(fields[i], policy)
            && entries.contains_key(fields[i].name) {
            extracted(entries, fields.take(i), policy).insert(
                fields[i].name,
                decode_full(fields[i].kind, entries[fields[i].name])->Ok_0,
            )
        } else {
            extracted(entries, fields.take(i), policy)
        },
{
    let f = fields[i];
    let before = fields.take(i);
    let after = fields.take(i + 1);
    assert(after =~= before.push(f));
    lemma_fresh_name(fields, i);
    assert forall|k: Seq<char>| true implies #[trigger] field_named(after, k) == if field_named(
        before,
        k,
    ) is Some {
        field_named(before, k)
    } else if f.name == k {
        Some(f)
    } else {
        None
    } by {
        lemma_field_named_push(before, f, k);
    }
    if considered(f, policy) && entries.contains_key(f.name) {
        assert(extracted(entries, after, policy) =~= extracted(entries, before, policy).insert(
            f.name,
            decode_full(f.kind, entries[f.name])->Ok_0,
        ));
    } else {
        assert(extracted(entries, after, policy) =~= extracted(entries, before, policy));
    }
}

/// Whether the policy reads the field at all.
fn is_considered(field: &FieldDescriptor, policy: Policy) -> (b: bool)
    ensures
        b == considered(field@, policy),
{
    match policy {
        Policy::Create => true,
        Policy::Update => !(field.name == String::from_str("id")),
        Policy::Identify => field.name == String::from_str("id"),
    }
}

/// Whether the policy fails when the field is absent.
fn is_demanded(field: &FieldDescriptor, policy: Policy) -> (b: bool)
    ensures
        b == demanded(field@, policy),
{
    match policy {
        Policy::Create => field.required && !field.generated,
        Policy::Update => false,
        Policy::Identify => true,
    }
}

/// The error for a body that is no JSON object.
fn not_object(body: &serde_json::Value) -> (e: AppError)
    ensures
        e@ == not_object_error(json_model(*body)),
{
    let mut message = String::from_str("failed to parse JSON as object, JSON: \"");
    message.append(to_text(body).as_str());
    message.append("\" (err: body should be a map)");
    AppError::bad_request(message)
}

/// The error for a field that has to be there and is not.
fn missing(field: &FieldDescriptor) -> (e: AppError)
    ensures
        e@ == fault_error(Fault::Missing { field: field@.name }),
{
    let mut message = String::from_str("field ");
    message.append(field.name.as_str());
    message.append(" is listed as required, but was not included in the request body");
    AppError::bad_request(message)
}

/// The error for a field that does not decode.
fn malformed(field: &FieldDescriptor, error: &ExtractionError) -> (e: AppError)
    ensures
        e@ == fault_error(Fault::Malformed { field: field@.name, error: error@ }),
{
    let mut message = String::from_str("field ");
    message.append(field.name.as_str());
    message.append(" is not formatted properly: ");
    message.append(error.to_text().as_str());
    AppError::bad_request(message)
}

/// Extracts the fields of `schema` from a request body under a policy.
pub fn extract(body: &serde_json::Value, schema: &TableSchema, policy: Policy) -> (r: Result<
    FieldMap,
    AppError,
>)
    ensures
        is_outcome(r, extraction(json_model(*body), schema@.fields, policy)),
{
    if !is_object(body) {
        return Err(not_object(body));
    }
    let ghost entries = json_model(*body)->Object_0;
    let ghost fields = schema@.fields;
    let n = schema.len();
    let mut map = FieldMap::new();
    let mut i: usize = 0;
    proof {
        assert(extracted(entries, fields.take(0), policy) =~= Map::<
            Seq<char>,
            ValueModel,
        >::empty());
    }
    while i < n
        invariant
            i <= n,
            n == fields.len(),
            fields == schema@.fields,
            distinct_names(fields),
            json_model(*body) == JsonModel::Object(entries),
            forall|j: int| 0 <= j < i ==> field_fault(entries, #[trigger] fields[j], policy) is None,
            map@ == extracted(entries, fields.take(i as int), policy),
        decreases n - i,
    {
        let field = schema.field_at(i);
        proof {
            lemma_extracted_step(entries, fields, policy, i as int);
            lemma_fault_position(entries, fields, policy);
        }
        if is_considered(field, policy) {
            match member(body, field.name.as_str()) {
                Some(data) => match field.extract(data) {
                    Ok(value) => {
                        map.insert(field.name.clone(), value);
                    },
                    Err(error) => {
                        return Err(malformed(field, &error));
                    },
                },
                None => if is_demanded(field, policy) {
                    return Err(missing(field));
                },
            }
        }
        i += 1;
    }
    proof {
        lemma_fault_position(entries, fields, policy);
        assert(fields.take(n as int) =~= fields);
    }
    Ok(map)
}

/// The error for a stored value of another kind than the handler expects.
pub open spec fn wrong_type_error(expected: DataKind, found: ValueModel) -> ErrorModel {
    ErrorModel {
        kind: ErrorType::Internal,
        message: "err: wrong type; expected "@ + kind_name(expected) + ", found other; JSON: \""@
            + value_text(found) + "\""@,
    }
}

/// The value stored under `name`, which must be of kind `kind` if it is
/// there.
pub open spec fn optional_field(
    m: Map<Seq<char>, ValueModel>,
    name: Seq<char>,
    kind: DataKind,
) -> Result<Option<ValueModel>, ErrorModel> {
    if !m.contains_key(name) {
        Ok(None)
    } else if kind_of(m[name]) == kind {
        Ok(Some(m[name]))
    } else {
        Err(wrong_type_error(kind, m[name]))
    }
}

/// The value stored under `name`, which must be there and of kind `kind`.
pub open spec fn required_field(
    m: Map<Seq<char>, ValueModel>,
    name: Seq<char>,
    kind: DataKind,
) -> Result<ValueModel, ErrorModel> {
    match optional_field(m, name, kind) {
        Ok(Some(v)) => Ok(v),
        Ok(None) => Err(not_found_internal()),
        Err(e) => Err(e),
    }
}

/// What identifier extraction gives for a body and the fields of a table:
/// the identifier of the body, read under the `Identify` policy, which must
/// be an unsigned 32-bit integer.
pub open spec fn identification(body: JsonModel, fields: Seq<FieldModel>) -> Result<
    u32,
    ErrorModel,
> {
    match extraction(body, fields, Policy::Identify) {
        Err(e) => Err(e),
        Ok(m) => match required_field(m, identifier_name(), DataKind::UnsignedInt32) {
            Ok(v) => Ok(v->UnsignedInt32_0),
            Err(e) => Err(e),
        },
    }
}

/// The fields that a request on the user table is held against: a body
/// that is no object fails at once, then the table must be there.
pub open spec fn user_fields(body: JsonModel, registry: Seq<TableModel>) -> Result<
    Seq<FieldModel>,
    ErrorModel,
> {
    if !(body is Object) {
        Err(not_object_error(body))
    } else {
        match table_named(registry, user_table()) {
            Some(table) => Ok(table.fields),
            None => Err(not_found_internal()),
        }
    }
}

/// What identifier extraction gives for a request on the user table.
pub open spec fn user_identification(body: JsonModel, registry: Seq<TableModel>) -> Result<
    u32,
    ErrorModel,
> {
    match user_fields(body, registry) {
        Ok(fields) => identification(body, fields),
        Err(e) => Err(e),
    }
}

/// The error for a stored value of another kind than expected.
pub fn wrong_type(expected: DataKind, found: &DataValue) -> (e: AppError)
    ensures
        e@ == wrong_type_error(expected, found@),
{
    let mut message = String::from_str("err: wrong type; expected ");
    message.append(expected.name());
    message.append(", found other; JSON: \"");
    message.append(found.to_text().as_str());
    message.append("\"");
    AppError::new(ErrorType::Internal, message)
}

/// Takes the value under `name` out of `req`; it must be of kind `kind` if
/// it is there.
pub fn take_optional(req: &mut FieldMap, name: &str, kind: DataKind) -> (r: Result<
    Option<DataValue>,
    AppError,
>)
    ensures
        final(req)@ == old(req)@.remove(name@),
        match r {
            Ok(Some(v)) => optional_field(old(req)@, name@, kind) == Ok::<
                Option<ValueModel>,
                ErrorModel,
            >(Some(v@)),
            Ok(None) => optional_field(old(req)@, name@, kind) == Ok::<
                Option<ValueModel>,
                ErrorModel,
            >(None),
            Err(e) => optional_field(old(req)@, name@, kind) == Err::<
                Option<ValueModel>,
                ErrorModel,
            >(e@),
        },
{
    match req.remove(name) {
        None => Ok(None),
        Some(value) => if value.kind() == kind {
            Ok(Some(value))
        } else {
            Err(wrong_type(kind, &value))
        },
    }
}

/// Takes the value under `name` out of `req`; it must be there and of kind
/// `kind`.
pub fn take_required(req: &mut FieldMap, name: &str, kind: DataKind) -> (r: Result<
    DataValue,
    AppError,
>)
    ensures
        final(req)@ == old(req)@.remove(name@),
        is_outcome(r, required_field(old(req)@, name@, kind)),
{
    match take_optional(req, name, kind) {
        Ok(found) => found.check(),
        Err(e) => Err(e),
    }
}

/// Extracts the identifier from a request body.
pub fn extract_identifier(body: &serde_json::Value, schema: &TableSchema) -> (r: Result<
    u32,
    AppError,
>)
    ensures
        is_outcome(r, identification(json_model(*body), schema@.fields)),
{
    match extract(body, schema, Policy::Identify) {
        Err(e) => Err(e),
        Ok(mut map) => match take_required(&mut map, "id", DataKind::UnsignedInt32) {
            Ok(DataValue::UnsignedInt32(id)) => Ok(id),
            Ok(other) => Err(wrong_type(DataKind::UnsignedInt32, &other)),
            Err(e) => Err(e),
        },
    }
}

/// The table of users, for a request whose body is a JSON object.
pub fn user_table_for<'a>(body: &serde_json::Value, registry: &'a SchemaRegistry) -> (r: Result<
    &'a TableSchema,
    AppError,
>)
    ensures
        match r {
            Ok(table) => user_fields(json_model(*body), registry@) == Ok::<
                Seq<FieldModel>,
                ErrorModel,
            >(table@.fields),
            Err(e) => user_fields(json_model(*body), registry@) == Err::<
                Seq<FieldModel>,
                ErrorModel,
            >(e@),
        },
{
    if !is_object(body) {
        return Err(not_object(body));
    }
    registry.table("user").check()
}

/// Extracts the identifier of a user from a request body.
pub fn identify(body: &serde_json::Value, registry: &SchemaRegistry) -> (r: Result<u32, AppError>)
    ensures
        is_outcome(r, user_identification(json_model(*body), registry@)),
{
    match user_table_for(body, registry) {
        Ok(table) => extract_identifier(body, table),
        Err(e) => Err(e),
    }
}

} // verus!
